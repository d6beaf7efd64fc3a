//! The bridge session: each inbound event, from the IRC network or from the
//! guild's bridge command, becomes at most one request to the other side.

use vstd::prelude::*;
use crate::channels::{id_of_irc_channel, irc_name, irc_name_for, name_of_id, ChannelMapping};
use crate::color::{avatar_url, avatar_url_of};
use crate::relay::{relay_of_irc_channel, RelayIdentityMap};

verus! {

/// An event from the IRC network.
#[derive(Clone, Debug)]
pub enum IrcEvent {
    /// A chat line in a channel, from a sender that may be unknown.
    ChatLine { channel: String, sender: Option<String>, body: String },
    /// A channel's topic was set, or cleared.
    TopicChange { channel: String, topic: Option<String> },
    /// Anything else.
    Other,
}

pub enum IrcEventView {
    ChatLine { channel: Seq<char>, sender: Option<Seq<char>>, body: Seq<char> },
    TopicChange { channel: Seq<char>, topic: Option<Seq<char>> },
    Other,
}

pub open spec fn opt_view(o: Option<String>) -> Option<Seq<char>> {
    match o {
        Some(s) => Some(s@),
        None => None,
    }
}

impl View for IrcEvent {
    type V = IrcEventView;

    open spec fn view(&self) -> IrcEventView {
        match self {
            IrcEvent::ChatLine { channel, sender, body } => IrcEventView::ChatLine {
                channel: channel@,
                sender: opt_view(*sender),
                body: body@,
            },
            IrcEvent::TopicChange { channel, topic } => IrcEventView::TopicChange {
                channel: channel@,
                topic: opt_view(*topic),
            },
            IrcEvent::Other => IrcEventView::Other,
        }
    }
}

/// A chat line submitted on the guild side, to be relayed to IRC.
#[derive(Clone, Debug)]
pub struct BridgeMessage {
    pub channel: u64,
    pub body: String,
}

/// What the session receives next.
#[derive(Clone, Debug)]
pub enum BridgeInput {
    Irc(IrcEvent),
    Submitted(BridgeMessage),
    /// The IRC event stream has ended.
    IrcEnded,
    /// The IRC client failed, to identify or while reading.
    IrcFailed,
}

pub enum BridgeInputView {
    Irc(IrcEventView),
    Submitted(u64, Seq<char>),
    IrcEnded,
    IrcFailed,
}

impl View for BridgeInput {
    type V = BridgeInputView;

    open spec fn view(&self) -> BridgeInputView {
        match self {
            BridgeInput::Irc(e) => BridgeInputView::Irc(e@),
            BridgeInput::Submitted(m) => BridgeInputView::Submitted(m.channel, m.body@),
            BridgeInput::IrcEnded => BridgeInputView::IrcEnded,
            BridgeInput::IrcFailed => BridgeInputView::IrcFailed,
        }
    }
}

/// The one request that an input turns into.
#[derive(Clone, Debug)]
pub enum Effect {
    /// Post through a relay identity, as `username` with the given avatar.
    Post { relay: u64, username: String, content: String, avatar_url: String },
    /// Set a guild channel's topic.
    SetTopic { channel: u64, topic: String },
    /// Send a chat line to an IRC channel.
    SendIrc { target: String, text: String },
    /// End the session.
    Stop,
    /// Nothing to do.
    Nothing,
}

pub enum EffectView {
    Post { relay: u64, username: Seq<char>, content: Seq<char>, avatar_url: Seq<char> },
    SetTopic { channel: u64, topic: Seq<char> },
    SendIrc { target: Seq<char>, text: Seq<char> },
    Stop,
    Nothing,
}

impl View for Effect {
    type V = EffectView;

    open spec fn view(&self) -> EffectView {
        match self {
            Effect::Post { relay, username, content, avatar_url } => EffectView::Post {
                relay: *relay,
                username: username@,
                content: content@,
                avatar_url: avatar_url@,
            },
            Effect::SetTopic { channel, topic } => EffectView::SetTopic {
                channel: *channel,
                topic: topic@,
            },
            Effect::SendIrc { target, text } => EffectView::SendIrc { target: target@, text: text@ },
            Effect::Stop => EffectView::Stop,
            Effect::Nothing => EffectView::Nothing,
        }
    }
}

/// The name a chat line is relayed under: its sender, or `null` when unknown.
pub open spec fn speaker(sender: Option<Seq<char>>) -> Seq<char> {
    match sender {
        Some(s) => s,
        None => seq!['n', 'u', 'l', 'l'],
    }
}

/// What an IRC event turns into: a chat line in a bridged channel is posted
/// through that channel's relay identity; a topic change in a bridged channel
/// sets the guild channel's topic (to nothing where it was cleared); anything
/// else is dropped.
pub open spec fn irc_event_effect(
    mapping: Seq<(u64, Seq<char>)>,
    relays: Seq<(Seq<char>, u64)>,
    ev: IrcEventView,
) -> EffectView {
    match ev {
        IrcEventView::ChatLine { channel, sender, body } => match relay_of_irc_channel(relays, channel) {
            Some(relay) => EffectView::Post {
                relay,
                username: speaker(sender),
                content: body,
                avatar_url: avatar_url_of(speaker(sender)),
            },
            None => EffectView::Nothing,
        },
        IrcEventView::TopicChange { channel, topic } => match id_of_irc_channel(mapping, channel) {
            Some(id) => EffectView::SetTopic {
                channel: id,
                topic: match topic {
                    Some(t) => t,
                    None => Seq::empty(),
                },
            },
            None => EffectView::Nothing,
        },
        IrcEventView::Other => EffectView::Nothing,
    }
}

/// What a submitted message turns into: a chat line in the IRC channel of its
/// guild channel, or nothing where that channel is not bridged.
pub open spec fn submission_effect(mapping: Seq<(u64, Seq<char>)>, channel: u64, body: Seq<char>) -> EffectView {
    match name_of_id(mapping, channel) {
        Some(name) => EffectView::SendIrc { target: irc_name(name), text: body },
        None => EffectView::Nothing,
    }
}

/// A session's state: its channel mapping, its relay identities, and
/// whether it still runs.
pub struct BridgeState {
    pub mapping: Seq<(u64, Seq<char>)>,
    pub relays: Seq<(Seq<char>, u64)>,
    pub running: bool,
}

/// What one input does to a session and what it turns into: a running session
/// relays events and submissions and ends when the IRC side ends or fails; an
/// ended session does nothing more.
pub open spec fn step_spec(s: BridgeState, input: BridgeInputView) -> (BridgeState, EffectView) {
    if !s.running {
        (s, EffectView::Nothing)
    } else {
        match input {
            BridgeInputView::Irc(ev) => (s, irc_event_effect(s.mapping, s.relays, ev)),
            BridgeInputView::Submitted(channel, body) => (s, submission_effect(s.mapping, channel, body)),
            _ => (BridgeState { running: false, ..s }, EffectView::Stop),
        }
    }
}

/// A chat line from `nick` in a channel with a relay identity is posted once,
/// through that identity, under the sender's nick and with the body unchanged;
/// a chat line in a channel without one leads to nothing.
pub proof fn lemma_chat_routing(s: BridgeState, channel: Seq<char>, nick: Seq<char>, body: Seq<char>)
    requires
        s.running,
    ensures
        ({
            let (s2, e) = step_spec(
                s,
                BridgeInputView::Irc(IrcEventView::ChatLine { channel, sender: Some(nick), body }),
            );
            &&& s2 == s
            &&& match relay_of_irc_channel(s.relays, channel) {
                Some(relay) => e == EffectView::Post {
                    relay,
                    username: nick,
                    content: body,
                    avatar_url: avatar_url_of(nick),
                },
                None => e == EffectView::Nothing,
            }
        }),
{
}

/// A message submitted in a bridged channel is sent once, to `#` followed by
/// that channel's name, with the body unchanged; one submitted in a channel
/// that is not bridged leads to nothing.
pub proof fn lemma_submission_round_trip(s: BridgeState, k: int, other: u64, body: Seq<char>)
    requires
        s.running,
        0 <= k < s.mapping.len(),
        forall|i: int, j: int|
            0 <= i < s.mapping.len() && 0 <= j < s.mapping.len() && s.mapping[i].0 == s.mapping[j].0
                ==> i == j,
        forall|i: int| 0 <= i < s.mapping.len() ==> (#[trigger] s.mapping[i]).0 != other,
    ensures
        step_spec(s, BridgeInputView::Submitted(s.mapping[k].0, body)).1 == (EffectView::SendIrc {
            target: irc_name(s.mapping[k].1),
            text: body,
        }),
        step_spec(s, BridgeInputView::Submitted(other, body)).1 == EffectView::Nothing,
{
    crate::channels::lemma_name_of_entry(s.mapping, k);
    crate::channels::lemma_name_of_absent(s.mapping, other);
}

/// A topic cleared on a bridged IRC channel clears the guild channel's topic:
/// it is set to the empty text, not left as it was.
pub proof fn lemma_cleared_topic(s: BridgeState, channel: Seq<char>)
    requires
        s.running,
        id_of_irc_channel(s.mapping, channel) is Some,
    ensures
        step_spec(s, BridgeInputView::Irc(IrcEventView::TopicChange { channel, topic: None })).1 == (
        EffectView::SetTopic {
            channel: id_of_irc_channel(s.mapping, channel)->0,
            topic: Seq::empty(),
        }),
{
}

/// An ended session stays ended and does nothing, whatever comes in.
pub proof fn lemma_ended_stays_ended(s: BridgeState, input: BridgeInputView)
    requires
        !s.running,
    ensures
        step_spec(s, input) == (s, EffectView::Nothing),
{
}

/// One bridge session.
pub struct Bridge {
    mapping: ChannelMapping,
    relays: RelayIdentityMap,
    running: bool,
}

impl View for Bridge {
    type V = BridgeState;

    closed spec fn view(&self) -> BridgeState {
        BridgeState { mapping: self.mapping@, relays: self.relays@, running: self.running }
    }
}

impl Bridge {
    /// A running session over the given mapping and relay identities.
    pub fn new(mapping: ChannelMapping, relays: RelayIdentityMap) -> (r: Bridge)
        ensures
            r@ == (BridgeState { mapping: mapping@, relays: relays@, running: true }),
    {
        Bridge { mapping, relays, running: true }
    }

    /// Whether the session still runs.
    pub fn is_running(&self) -> (r: bool)
        ensures
            r == self@.running,
    {
        self.running
    }

    /// What an IRC event turns into.
    pub fn on_irc_event(&self, ev: &IrcEvent) -> (r: Effect)
        ensures
            r@ == irc_event_effect(self@.mapping, self@.relays, ev@),
    {
        match ev {
            IrcEvent::ChatLine { channel, sender, body } => {
                match self.relays.relay_for_irc_channel(channel.as_str()) {
                    Some(relay) => {
                        proof {
                            reveal_strlit("null");
                        }
                        let username = match sender {
                            Some(s) => s.clone(),
                            None => String::from_str("null"),
                        };
                        assert(username@ == speaker(opt_view(*sender)));
                        let url = avatar_url(username.as_str());
                        Effect::Post { relay, username, content: body.clone(), avatar_url: url }
                    },
                    None => Effect::Nothing,
                }
            },
            IrcEvent::TopicChange { channel, topic } => {
                match self.mapping.id_for_irc_channel(channel.as_str()) {
                    Some(id) => {
                        let text = match topic {
                            Some(t) => t.clone(),
                            None => String::new(),
                        };
                        Effect::SetTopic { channel: id, topic: text }
                    },
                    None => Effect::Nothing,
                }
            },
            IrcEvent::Other => Effect::Nothing,
        }
    }

    /// What a message submitted on the guild side turns into.
    pub fn on_submission(&self, msg: &BridgeMessage) -> (r: Effect)
        ensures
            r@ == submission_effect(self@.mapping, msg.channel, msg.body@),
    {
        match self.mapping.name_for(msg.channel) {
            Some(name) => Effect::SendIrc { target: irc_name_for(&name), text: msg.body.clone() },
            None => Effect::Nothing,
        }
    }

    /// Takes the next input of the session and returns what it turns into.
    pub fn step(&mut self, input: &BridgeInput) -> (r: Effect)
        ensures
            (final(self)@, r@) == step_spec(old(self)@, input@),
    {
        if !self.running {
            return Effect::Nothing;
        }
        match input {
            BridgeInput::Irc(ev) => self.on_irc_event(ev),
            BridgeInput::Submitted(msg) => self.on_submission(msg),
            _ => {
                self.running = false;
                Effect::Stop
            },
        }
    }
}

} // verus!
