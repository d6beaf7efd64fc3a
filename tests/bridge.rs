use irc_bridge::bridge::{Bridge, BridgeInput, BridgeMessage, Effect, IrcEvent};
use irc_bridge::channels::{ChannelKind, ChannelMapping, GuildChannel};
use irc_bridge::color::{avatar_url, color_for};
use irc_bridge::relay::{find_reusable, ProvisionAction, Provisioner, RelayIdentity, RelayIdentityMap};

fn chan(id: u64, kind: ChannelKind, name: &str, parent: Option<u64>) -> GuildChannel {
    GuildChannel { id, kind, name: name.to_string(), parent_id: parent }
}

fn guild_listing() -> Vec<GuildChannel> {
    vec![
        chan(10, ChannelKind::Category, "irc", None),
        chan(1, ChannelKind::Text, "general", Some(10)),
        chan(20, ChannelKind::Category, "other", None),
        chan(3, ChannelKind::Text, "general2", Some(20)),
        chan(2, ChannelKind::Text, "random", Some(10)),
        chan(4, ChannelKind::Text, "loose", None),
    ]
}

fn names(m: &ChannelMapping) -> Vec<(u64, String)> {
    let mut out = Vec::new();
    for i in 0..m.len() {
        let e = m.entry(i);
        out.push((e.id, e.name.clone()));
    }
    out
}

fn session(mapping: ChannelMapping) -> Bridge {
    let mut relays = RelayIdentityMap::new();
    for i in 0..mapping.len() {
        let e = mapping.entry(i);
        relays.insert(e.name.clone(), 500 + e.id);
    }
    Bridge::new(mapping, relays)
}

fn chat(channel: &str, sender: Option<&str>, body: &str) -> IrcEvent {
    IrcEvent::ChatLine {
        channel: channel.to_string(),
        sender: sender.map(|s| s.to_string()),
        body: body.to_string(),
    }
}

#[test]
fn color_is_stable_for_equal_names() {
    let a = String::from("alice");
    assert_eq!(color_for(&a), color_for("alice"));
    assert!(color_for("alice") < 0x100_0000);
}

#[test]
fn color_exact_values() {
    assert_eq!(color_for("alice"), 0x278ebc);
    assert_eq!(color_for("bob"), 0xf5cbb1);
    assert_eq!(color_for(""), 0);
}

#[test]
fn avatar_url_template() {
    assert_eq!(avatar_url("alice"), "https://singlecolorimage.com/get/278ebc/1x1");
    assert_eq!(avatar_url(""), "https://singlecolorimage.com/get/000000/1x1");
}

#[test]
fn resolve_takes_children_of_irc_category() {
    let m = ChannelMapping::resolve(&guild_listing());
    assert_eq!(names(&m), vec![(1, "general".to_string()), (2, "random".to_string())]);
}

#[test]
fn resolve_without_irc_category_is_empty() {
    let listing = vec![
        chan(20, ChannelKind::Category, "other", None),
        chan(1, ChannelKind::Text, "irc", Some(20)),
        chan(2, ChannelKind::Text, "general", None),
    ];
    let m = ChannelMapping::resolve(&listing);
    assert_eq!(m.len(), 0);
    assert_eq!(ChannelMapping::resolve(&Vec::new()).len(), 0);
}

#[test]
fn resolve_ignores_text_channel_named_irc_and_case() {
    let listing = vec![
        chan(10, ChannelKind::Text, "irc", None),
        chan(11, ChannelKind::Category, "IRC", None),
        chan(1, ChannelKind::Text, "a", Some(10)),
        chan(2, ChannelKind::Text, "b", Some(11)),
    ];
    assert_eq!(ChannelMapping::resolve(&listing).len(), 0);
}

#[test]
fn resolve_last_irc_category_wins() {
    let listing = vec![
        chan(10, ChannelKind::Category, "irc", None),
        chan(1, ChannelKind::Text, "first", Some(10)),
        chan(11, ChannelKind::Category, "irc", None),
        chan(2, ChannelKind::Text, "second", Some(11)),
    ];
    let m = ChannelMapping::resolve(&listing);
    assert_eq!(names(&m), vec![(2, "second".to_string())]);
}

#[test]
fn mapping_lookups() {
    let m = ChannelMapping::resolve(&guild_listing());
    assert_eq!(m.name_for(1), Some("general".to_string()));
    assert_eq!(m.name_for(3), None);
    assert_eq!(m.id_for_irc_channel("#random"), Some(2));
    assert_eq!(m.id_for_irc_channel("random"), None);
    assert_eq!(m.id_for_irc_channel("#general2"), None);
}

#[test]
fn find_reusable_picks_first_irc_labelled() {
    let hooks = vec![
        RelayIdentity { id: 1, name: None },
        RelayIdentity { id: 2, name: Some("other".to_string()) },
        RelayIdentity { id: 3, name: Some("irc".to_string()) },
        RelayIdentity { id: 4, name: Some("irc".to_string()) },
    ];
    assert_eq!(find_reusable(&hooks), Some(3));
    assert_eq!(find_reusable(&hooks[..2].to_vec()), None);
}

#[test]
fn provisioning_twice_reuses_created_identity() {
    let mapping = ChannelMapping::resolve(&guild_listing());
    let mut p = Provisioner::new(mapping.clone());
    assert!(matches!(p.next_action(), ProvisionAction::ListRelays { channel: 1 }));
    p.relays_listed(&vec![RelayIdentity { id: 7, name: Some("foreign".to_string()) }]);
    match p.next_action() {
        ProvisionAction::CreateRelay { channel, label } => {
            assert_eq!(channel, 1);
            assert_eq!(label, "irc");
        }
        other => panic!("unexpected {:?}", other),
    }
    p.relay_created(70);
    assert!(matches!(p.next_action(), ProvisionAction::ListRelays { channel: 2 }));
    p.relays_listed(&vec![RelayIdentity { id: 80, name: Some("irc".to_string()) }]);
    assert!(matches!(p.next_action(), ProvisionAction::Done));
    let first = p.into_map();
    assert_eq!(first.relay_for_irc_channel("#general"), Some(70));
    assert_eq!(first.relay_for_irc_channel("#random"), Some(80));

    let mut again = Provisioner::new(mapping);
    again.relays_listed(&vec![
        RelayIdentity { id: 7, name: Some("foreign".to_string()) },
        RelayIdentity { id: 70, name: Some("irc".to_string()) },
    ]);
    assert!(matches!(again.next_action(), ProvisionAction::ListRelays { channel: 2 }));
    again.relays_listed(&vec![RelayIdentity { id: 80, name: Some("irc".to_string()) }]);
    assert!(matches!(again.next_action(), ProvisionAction::Done));
    let second = again.into_map();
    assert_eq!(second.len(), 2);
    assert_eq!(second.relay_for_irc_channel("#general"), Some(70));
}

#[test]
fn provisioning_empty_mapping_is_done() {
    let p = Provisioner::new(ChannelMapping::resolve(&Vec::new()));
    assert!(matches!(p.next_action(), ProvisionAction::Done));
    assert_eq!(p.into_map().len(), 0);
}

#[test]
fn chat_line_in_bridged_channel_is_posted() {
    let b = session(ChannelMapping::resolve(&guild_listing()));
    match b.on_irc_event(&chat("#general", Some("bob"), "hi there")) {
        Effect::Post { relay, username, content, avatar_url } => {
            assert_eq!(relay, 501);
            assert_eq!(username, "bob");
            assert_eq!(content, "hi there");
            assert_eq!(avatar_url, "https://singlecolorimage.com/get/f5cbb1/1x1");
        }
        other => panic!("unexpected {:?}", other),
    }
}

#[test]
fn chat_line_in_unbridged_channel_is_dropped() {
    let b = session(ChannelMapping::resolve(&guild_listing()));
    assert!(matches!(b.on_irc_event(&chat("#offtopic", Some("bob"), "hi")), Effect::Nothing));
}

#[test]
fn chat_line_without_sender_uses_null() {
    let b = session(ChannelMapping::resolve(&guild_listing()));
    match b.on_irc_event(&chat("#random", None, "x")) {
        Effect::Post { relay, username, avatar_url, .. } => {
            assert_eq!(relay, 502);
            assert_eq!(username, "null");
            assert_eq!(avatar_url, "https://singlecolorimage.com/get/25cbfc/1x1");
        }
        other => panic!("unexpected {:?}", other),
    }
}

#[test]
fn topic_change_sets_topic() {
    let b = session(ChannelMapping::resolve(&guild_listing()));
    let ev = IrcEvent::TopicChange { channel: "#random".to_string(), topic: Some("news".to_string()) };
    match b.on_irc_event(&ev) {
        Effect::SetTopic { channel, topic } => {
            assert_eq!(channel, 2);
            assert_eq!(topic, "news");
        }
        other => panic!("unexpected {:?}", other),
    }
}

#[test]
fn cleared_topic_sets_empty_topic() {
    let b = session(ChannelMapping::resolve(&guild_listing()));
    let ev = IrcEvent::TopicChange { channel: "#general".to_string(), topic: None };
    match b.on_irc_event(&ev) {
        Effect::SetTopic { channel, topic } => {
            assert_eq!(channel, 1);
            assert_eq!(topic, "");
        }
        other => panic!("unexpected {:?}", other),
    }
    let unbridged = IrcEvent::TopicChange { channel: "#elsewhere".to_string(), topic: None };
    assert!(matches!(b.on_irc_event(&unbridged), Effect::Nothing));
}

#[test]
fn other_irc_events_are_ignored() {
    let b = session(ChannelMapping::resolve(&guild_listing()));
    assert!(matches!(b.on_irc_event(&IrcEvent::Other), Effect::Nothing));
}

#[test]
fn submission_goes_to_irc_channel() {
    let b = session(ChannelMapping::resolve(&guild_listing()));
    let msg = BridgeMessage { channel: 2, body: "hello irc".to_string() };
    match b.on_submission(&msg) {
        Effect::SendIrc { target, text } => {
            assert_eq!(target, "#random");
            assert_eq!(text, "hello irc");
        }
        other => panic!("unexpected {:?}", other),
    }
    let outside = BridgeMessage { channel: 3, body: "no".to_string() };
    assert!(matches!(b.on_submission(&outside), Effect::Nothing));
}

#[test]
fn session_stops_when_irc_ends() {
    let mut b = session(ChannelMapping::resolve(&guild_listing()));
    assert!(b.is_running());
    assert!(matches!(b.step(&BridgeInput::IrcEnded), Effect::Stop));
    assert!(!b.is_running());
    let msg = BridgeMessage { channel: 1, body: "late".to_string() };
    assert!(matches!(b.step(&BridgeInput::Submitted(msg)), Effect::Nothing));

    let mut c = session(ChannelMapping::resolve(&guild_listing()));
    assert!(matches!(c.step(&BridgeInput::IrcFailed), Effect::Stop));
    assert!(matches!(c.step(&BridgeInput::Irc(chat("#general", Some("a"), "b"))), Effect::Nothing));
}

#[test]
fn end_to_end_guild_42() {
    let guild_id: u64 = 42;
    assert_eq!(guild_id, 42);
    let listing = vec![
        chan(7, ChannelKind::Category, "irc", None),
        chan(100, ChannelKind::Text, "general", Some(7)),
    ];
    let mapping = ChannelMapping::resolve(&listing);
    let mut p = Provisioner::new(mapping.clone());
    assert!(matches!(p.next_action(), ProvisionAction::ListRelays { channel: 100 }));
    p.relays_listed(&Vec::new());
    assert!(matches!(p.next_action(), ProvisionAction::CreateRelay { channel: 100, .. }));
    p.relay_created(9000);
    let mut b = Bridge::new(mapping, p.into_map());
    match b.step(&BridgeInput::Irc(chat("#general", Some("alice"), "hello world"))) {
        Effect::Post { relay, username, content, avatar_url: url } => {
            assert_eq!(relay, 9000);
            assert_eq!(username, "alice");
            assert_eq!(content, "hello world");
            assert_eq!(url, format!("https://singlecolorimage.com/get/{:06x}/1x1", color_for("alice")));
        }
        other => panic!("unexpected {:?}", other),
    }
    assert!(b.is_running());
}
