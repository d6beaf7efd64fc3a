//! Relay identities: for each bridged channel, the one identity labelled
//! `irc` that posts into it as any IRC speaker. An existing one is reused;
//! only a channel without one gets a new one.

use vstd::prelude::*;
use crate::channels::{irc_label, irc_name, BridgedChannel, ChannelMapping};
use crate::channels::is_irc_name_of;

verus! {

/// A relay identity attached to a guild channel, as the platform lists it.
#[derive(Clone, Debug)]
pub struct RelayIdentity {
    pub id: u64,
    pub name: Option<String>,
}

/// Whether a relay identity is one of this bridge's: labelled `irc`.
pub open spec fn is_ours(h: RelayIdentity) -> bool {
    match h.name {
        Some(n) => n@ == irc_label(),
        None => false,
    }
}

/// The first identity of the listing that is labelled `irc`, if any.
pub open spec fn first_ours(s: Seq<RelayIdentity>) -> Option<u64>
    decreases s.len(),
{
    if s.len() == 0 {
        None
    } else {
        match first_ours(s.drop_last()) {
            Some(id) => Some(id),
            None => if is_ours(s.last()) {
                Some(s.last().id)
            } else {
                None
            },
        }
    }
}

proof fn lemma_first_ours_prefix(s: Seq<RelayIdentity>, n: int)
    requires
        0 <= n <= s.len(),
        first_ours(s.take(n)) is Some,
    ensures
        first_ours(s) == first_ours(s.take(n)),
    decreases s.len() - n,
{
    if n < s.len() {
        assert(s.take(n + 1).drop_last() =~= s.take(n));
        lemma_first_ours_prefix(s, n + 1);
    } else {
        assert(s.take(n) =~= s);
    }
}

/// Where a listing holds an identity labelled `irc`, it is reused: provisioning
/// never makes a second one. In particular a listing taken after an earlier
/// provisioning created one holds it, and that one (or an earlier one of ours)
/// is picked.
pub proof fn lemma_ours_is_reused(s: Seq<RelayIdentity>, k: int)
    requires
        0 <= k < s.len(),
        is_ours(s[k]),
    ensures
        first_ours(s) is Some,
        exists|i: int| 0 <= i <= k && is_ours(#[trigger] s[i]) && first_ours(s) == Some(s[i].id),
    decreases s.len(),
{
    if k < s.len() - 1 {
        lemma_ours_is_reused(s.drop_last(), k);
        let i = choose|i: int|
            0 <= i <= k && is_ours(#[trigger] s.drop_last()[i]) && first_ours(s.drop_last()) == Some(
                s.drop_last()[i].id,
            );
        assert(s[i] == s.drop_last()[i]);
    } else {
        if first_ours(s.drop_last()) is Some {
            lemma_first_ours_witness(s.drop_last());
            let i = choose|i: int|
                0 <= i < s.drop_last().len() && is_ours(#[trigger] s.drop_last()[i])
                    && first_ours(s.drop_last()) == Some(s.drop_last()[i].id);
            assert(s[i] == s.drop_last()[i]);
        } else {
            assert(s[k] == s.last());
        }
    }
}

proof fn lemma_first_ours_witness(s: Seq<RelayIdentity>)
    requires
        first_ours(s) is Some,
    ensures
        exists|i: int|
            0 <= i < s.len() && is_ours(#[trigger] s[i]) && first_ours(s) == Some(s[i].id),
    decreases s.len(),
{
    if first_ours(s.drop_last()) is Some {
        lemma_first_ours_witness(s.drop_last());
        let i = choose|i: int|
            0 <= i < s.drop_last().len() && is_ours(#[trigger] s.drop_last()[i])
                && first_ours(s.drop_last()) == Some(s.drop_last()[i].id);
        assert(s[i] == s.drop_last()[i]);
    } else {
        assert(is_ours(s[s.len() - 1]));
    }
}

/// The relay identity of `hooks` to reuse: the first one labelled `irc`.
pub fn find_reusable(hooks: &Vec<RelayIdentity>) -> (r: Option<u64>)
    ensures
        r == first_ours(hooks@),
{
    let label = String::from_str("irc");
    proof {
        reveal_strlit("irc");
    }
    let mut i: usize = 0;
    while i < hooks.len()
        invariant
            i <= hooks.len(),
            label@ == irc_label(),
            first_ours(hooks@.take(i as int)) is None,
        decreases hooks.len() - i,
    {
        assert(hooks@.take(i as int + 1).drop_last() =~= hooks@.take(i as int));
        let ours = match &hooks[i].name {
            Some(n) => *n == label,
            None => false,
        };
        if ours {
            proof {
                lemma_first_ours_prefix(hooks@, i as int + 1);
            }
            return Some(hooks[i].id);
        }
        i = i + 1;
    }
    assert(hooks@.take(i as int) =~= hooks@);
    None
}

/// One entry of the relay-identity map: a channel's display name and the
/// relay identity that posts into it.
#[derive(Clone, Debug)]
pub struct RelayEntry {
    pub name: String,
    pub relay: u64,
}

/// The relay identity of each bridged channel, keyed by display name.
#[derive(Clone, Debug)]
pub struct RelayIdentityMap {
    entries: Vec<RelayEntry>,
}

/// The relay of the last entry whose channel's IRC name is `channel`.
pub open spec fn relay_of_irc_channel(m: Seq<(Seq<char>, u64)>, channel: Seq<char>) -> Option<u64>
    decreases m.len(),
{
    if m.len() == 0 {
        None
    } else if irc_name(m.last().0) == channel {
        Some(m.last().1)
    } else {
        relay_of_irc_channel(m.drop_last(), channel)
    }
}

impl View for RelayIdentityMap {
    type V = Seq<(Seq<char>, u64)>;

    closed spec fn view(&self) -> Seq<(Seq<char>, u64)> {
        self.entries@.map_values(|e: RelayEntry| (e.name@, e.relay))
    }
}

impl RelayIdentityMap {
    /// An empty map.
    pub fn new() -> (r: RelayIdentityMap)
        ensures
            r@ == Seq::<(Seq<char>, u64)>::empty(),
    {
        let r = RelayIdentityMap { entries: Vec::new() };
        assert(r@ =~= Seq::<(Seq<char>, u64)>::empty());
        r
    }

    /// Records `relay` as the relay identity of the channel named `name`.
    pub fn insert(&mut self, name: String, relay: u64)
        ensures
            final(self)@ == old(self)@.push((name@, relay)),
    {
        self.entries.push(RelayEntry { name, relay });
        assert(final(self)@ =~= old(self)@.push((name@, relay)));
    }

    /// The number of entries.
    pub fn len(&self) -> (r: usize)
        ensures
            r == self@.len(),
    {
        self.entries.len()
    }

    /// The relay identity that posts into the IRC channel `channel`, if it is bridged.
    pub fn relay_for_irc_channel(&self, channel: &str) -> (r: Option<u64>)
        ensures
            r == relay_of_irc_channel(self@, channel@),
    {
        let mut found: Option<u64> = None;
        let mut i: usize = 0;
        while i < self.entries.len()
            invariant
                i <= self.entries.len(),
                found == relay_of_irc_channel(self@.take(i as int), channel@),
            decreases self.entries.len() - i,
        {
            assert(self@.take(i as int + 1).drop_last() =~= self@.take(i as int));
            if is_irc_name_of(channel, &self.entries[i].name) {
                found = Some(self.entries[i].relay);
            }
            i = i + 1;
        }
        assert(self@.take(i as int) =~= self@);
        found
    }
}

/// What provisioning asks of the guild platform next.
#[derive(Clone, Debug)]
pub enum ProvisionAction {
    /// List the relay identities attached to the channel.
    ListRelays { channel: u64 },
    /// Create a relay identity with the given label on the channel.
    CreateRelay { channel: u64, label: String },
    /// Every bridged channel has its relay identity.
    Done,
}

/// Where provisioning stands: the bridged channels, the position of the
/// channel at hand, whether its identity is being created, and the identities
/// settled so far.
pub struct ProvisionerState {
    pub channels: Seq<(u64, Seq<char>)>,
    pub next: nat,
    pub creating: bool,
    pub relays: Seq<(Seq<char>, u64)>,
}

impl ProvisionerState {
    /// One relay identity for each channel before `next`, under the channel's name.
    pub open spec fn wf(self) -> bool {
        &&& self.next <= self.channels.len()
        &&& self.creating ==> self.next < self.channels.len()
        &&& self.relays.len() == self.next
        &&& forall|i: int| 0 <= i < self.next ==> #[trigger] self.relays[i].0 == self.channels[i].1
    }
}

/// Provisioning of relay identities, one channel after another: list the
/// channel's identities, reuse the first labelled `irc`, and create one only
/// where there is none.
pub struct Provisioner {
    channels: ChannelMapping,
    next: usize,
    creating: bool,
    relays: RelayIdentityMap,
}

impl View for Provisioner {
    type V = ProvisionerState;

    closed spec fn view(&self) -> ProvisionerState {
        ProvisionerState {
            channels: self.channels@,
            next: self.next as nat,
            creating: self.creating,
            relays: self.relays@,
        }
    }
}

impl Provisioner {
    /// Provisioning for the bridged channels of `mapping`, none settled yet.
    pub fn new(mapping: ChannelMapping) -> (r: Provisioner)
        ensures
            r@.wf(),
            r@.channels == mapping@,
            r@.next == 0,
            !r@.creating,
            r@.relays == Seq::<(Seq<char>, u64)>::empty(),
    {
        Provisioner { channels: mapping, next: 0, creating: false, relays: RelayIdentityMap::new() }
    }

    /// The next request to make of the guild platform.
    pub fn next_action(&self) -> (r: ProvisionAction)
        requires
            self@.wf(),
        ensures
            self@.next == self@.channels.len() ==> r is Done,
            self@.next < self@.channels.len() && !self@.creating ==> r == (ProvisionAction::ListRelays {
                channel: self@.channels[self@.next as int].0,
            }),
            self@.creating ==> (match r {
                ProvisionAction::CreateRelay { channel, label } => channel
                    == self@.channels[self@.next as int].0 && label@ == irc_label(),
                _ => false,
            }),
    {
        if self.next >= self.channels.len() {
            ProvisionAction::Done
        } else if self.creating {
            let label = String::from_str("irc");
            proof {
                reveal_strlit("irc");
            }
            ProvisionAction::CreateRelay { channel: self.channels.entry(self.next).id, label }
        } else {
            ProvisionAction::ListRelays { channel: self.channels.entry(self.next).id }
        }
    }

    /// Takes the listing of the current channel's relay identities: the first
    /// labelled `irc` is settled as its identity; without one, the next step
    /// creates it.
    pub fn relays_listed(&mut self, hooks: &Vec<RelayIdentity>)
        requires
            old(self)@.wf(),
            old(self)@.next < old(self)@.channels.len(),
            !old(self)@.creating,
        ensures
            final(self)@.wf(),
            final(self)@.channels == old(self)@.channels,
            match first_ours(hooks@) {
                Some(id) => {
                    &&& final(self)@.next == old(self)@.next + 1
                    &&& !final(self)@.creating
                    &&& final(self)@.relays == old(self)@.relays.push(
                        (old(self)@.channels[old(self)@.next as int].1, id),
                    )
                },
                None => {
                    &&& final(self)@.next == old(self)@.next
                    &&& final(self)@.creating
                    &&& final(self)@.relays == old(self)@.relays
                },
            },
    {
        match find_reusable(hooks) {
            Some(id) => self.settle(id),
            None => {
                self.creating = true;
            },
        }
    }

    /// Takes the identity created for the current channel and settles it.
    pub fn relay_created(&mut self, relay: u64)
        requires
            old(self)@.wf(),
            old(self)@.creating,
        ensures
            final(self)@.wf(),
            final(self)@.channels == old(self)@.channels,
            final(self)@.next == old(self)@.next + 1,
            !final(self)@.creating,
            final(self)@.relays == old(self)@.relays.push(
                (old(self)@.channels[old(self)@.next as int].1, relay),
            ),
    {
        self.settle(relay);
    }

    fn settle(&mut self, relay: u64)
        requires
            old(self)@.wf(),
            old(self)@.next < old(self)@.channels.len(),
        ensures
            final(self)@.wf(),
            final(self)@.channels == old(self)@.channels,
            final(self)@.next == old(self)@.next + 1,
            !final(self)@.creating,
            final(self)@.relays == old(self)@.relays.push(
                (old(self)@.channels[old(self)@.next as int].1, relay),
            ),
    {
        let count = self.channels.len();
        assert(self.next < count);
        let name = self.channels.entry(self.next).name.clone();
        self.relays.insert(name, relay);
        self.next = self.next + 1;
        self.creating = false;
        assert forall|i: int| 0 <= i < self@.next implies #[trigger] self@.relays[i].0
            == self@.channels[i].1 by {
            if i < old(self)@.next {
                assert(self@.relays[i] == old(self)@.relays[i]);
            }
        }
    }

    /// The relay identities settled so far, one per channel in mapping order.
    pub fn into_map(self) -> (r: RelayIdentityMap)
        ensures
            r@ == self@.relays,
    {
        self.relays
    }
}

} // verus!
