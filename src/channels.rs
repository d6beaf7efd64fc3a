//! Which guild channels are bridged: the channels under the category named
//! `irc`, each known on the IRC side as `#` followed by its display name.

use vstd::prelude::*;

verus! {

/// The kind of a guild channel, as far as bridging cares.
#[derive(Clone, Copy, Debug, PartialEq, Eq, Structural)]
pub enum ChannelKind {
    Text,
    Voice,
    Category,
    Other,
}

/// One entry of a guild's channel listing.
#[derive(Clone, Debug)]
pub struct GuildChannel {
    pub id: u64,
    pub kind: ChannelKind,
    pub name: String,
    pub parent_id: Option<u64>,
}

/// A bridged channel: its guild identity and its display name.
#[derive(Clone, Debug)]
pub struct BridgedChannel {
    pub id: u64,
    pub name: String,
}

/// The bridged channels of one session, in listing order.
#[derive(Clone, Debug)]
pub struct ChannelMapping {
    entries: Vec<BridgedChannel>,
}

/// The reserved name of the bridging category, and the label of relay identities.
pub open spec fn irc_label() -> Seq<char> {
    seq!['i', 'r', 'c']
}

/// The IRC name of a channel whose display name is `name`.
pub open spec fn irc_name(name: Seq<char>) -> Seq<char> {
    seq!['#'] + name
}

pub open spec fn is_irc_category(c: GuildChannel) -> bool {
    c.kind == ChannelKind::Category && c.name@ == irc_label()
}

/// The identity of the last category named `irc` in the listing, if any.
pub open spec fn last_irc_category(s: Seq<GuildChannel>) -> Option<u64>
    decreases s.len(),
{
    if s.len() == 0 {
        None
    } else if is_irc_category(s.last()) {
        Some(s.last().id)
    } else {
        last_irc_category(s.drop_last())
    }
}

/// The channels of the listing whose parent is `cat`, in listing order.
pub open spec fn children_of(s: Seq<GuildChannel>, cat: u64) -> Seq<(u64, Seq<char>)>
    decreases s.len(),
{
    if s.len() == 0 {
        Seq::empty()
    } else if s.last().parent_id == Some(cat) {
        children_of(s.drop_last(), cat).push((s.last().id, s.last().name@))
    } else {
        children_of(s.drop_last(), cat)
    }
}

/// The bridged channels of a listing: the children of the last `irc`
/// category, or none where there is no such category.
pub open spec fn resolve_spec(s: Seq<GuildChannel>) -> Seq<(u64, Seq<char>)> {
    match last_irc_category(s) {
        Some(cat) => children_of(s, cat),
        None => Seq::empty(),
    }
}

/// Without a category named `irc`, nothing is bridged.
pub proof fn lemma_no_category_nothing_bridged(s: Seq<GuildChannel>)
    requires
        forall|i: int| 0 <= i < s.len() ==> !is_irc_category(#[trigger] s[i]),
    ensures
        last_irc_category(s) is None,
        resolve_spec(s) == Seq::<(u64, Seq<char>)>::empty(),
    decreases s.len(),
{
    if s.len() > 0 {
        assert(!is_irc_category(s[s.len() - 1]));
        assert forall|i: int| 0 <= i < s.drop_last().len() implies !is_irc_category(
            #[trigger] s.drop_last()[i],
        ) by {
            assert(s.drop_last()[i] == s[i]);
        }
        lemma_no_category_nothing_bridged(s.drop_last());
    }
}

/// Every bridged channel is a channel of the listing whose parent is the
/// selected `irc` category; no other channel is bridged, whatever its name.
pub proof fn lemma_bridged_are_children(s: Seq<GuildChannel>, k: int)
    requires
        0 <= k < resolve_spec(s).len(),
    ensures
        last_irc_category(s) is Some,
        exists|i: int|
            0 <= i < s.len() && #[trigger] s[i].parent_id == Some(last_irc_category(s)->0)
                && resolve_spec(s)[k] == (s[i].id, s[i].name@),
{
    let cat = last_irc_category(s)->0;
    lemma_children_in_listing(s, cat, k);
}

proof fn lemma_children_in_listing(s: Seq<GuildChannel>, cat: u64, k: int)
    requires
        0 <= k < children_of(s, cat).len(),
    ensures
        exists|i: int|
            0 <= i < s.len() && #[trigger] s[i].parent_id == Some(cat) && children_of(s, cat)[k]
                == (s[i].id, s[i].name@),
    decreases s.len(),
{
    let rest = children_of(s.drop_last(), cat);
    if s.last().parent_id == Some(cat) && k == rest.len() {
        assert(s[s.len() - 1].parent_id == Some(cat));
    } else {
        lemma_children_in_listing(s.drop_last(), cat, k);
        let i = choose|i: int|
            0 <= i < s.drop_last().len() && #[trigger] s.drop_last()[i].parent_id == Some(cat)
                && rest[k] == (s.drop_last()[i].id, s.drop_last()[i].name@);
        assert(s[i] == s.drop_last()[i]);
    }
}

/// The name of the last entry with identity `id`.
pub open spec fn name_of_id(m: Seq<(u64, Seq<char>)>, id: u64) -> Option<Seq<char>>
    decreases m.len(),
{
    if m.len() == 0 {
        None
    } else if m.last().0 == id {
        Some(m.last().1)
    } else {
        name_of_id(m.drop_last(), id)
    }
}

/// The identity of the last entry whose IRC name is `channel`.
pub open spec fn id_of_irc_channel(m: Seq<(u64, Seq<char>)>, channel: Seq<char>) -> Option<u64>
    decreases m.len(),
{
    if m.len() == 0 {
        None
    } else if irc_name(m.last().1) == channel {
        Some(m.last().0)
    } else {
        id_of_irc_channel(m.drop_last(), channel)
    }
}

/// In a mapping whose identities are distinct, the name found for an entry's
/// identity is that entry's name.
pub proof fn lemma_name_of_entry(m: Seq<(u64, Seq<char>)>, k: int)
    requires
        0 <= k < m.len(),
        forall|i: int, j: int| 0 <= i < m.len() && 0 <= j < m.len() && m[i].0 == m[j].0 ==> i == j,
    ensures
        name_of_id(m, m[k].0) == Some(m[k].1),
    decreases m.len(),
{
    if k < m.len() - 1 {
        assert(m.last().0 != m[k].0);
        assert forall|i: int, j: int|
            0 <= i < m.drop_last().len() && 0 <= j < m.drop_last().len() && m.drop_last()[i].0
                == m.drop_last()[j].0 implies i == j by {
            assert(m.drop_last()[i] == m[i] && m.drop_last()[j] == m[j]);
        }
        lemma_name_of_entry(m.drop_last(), k);
        assert(m.drop_last()[k] == m[k]);
    }
}

/// An identity that no entry has gets no name.
pub proof fn lemma_name_of_absent(m: Seq<(u64, Seq<char>)>, id: u64)
    requires
        forall|i: int| 0 <= i < m.len() ==> (#[trigger] m[i]).0 != id,
    ensures
        name_of_id(m, id) is None,
    decreases m.len(),
{
    if m.len() > 0 {
        assert(m[m.len() - 1].0 != id);
        assert forall|i: int| 0 <= i < m.drop_last().len() implies (#[trigger] m.drop_last()[i]).0 != id by {
            assert(m.drop_last()[i] == m[i]);
        }
        lemma_name_of_absent(m.drop_last(), id);
    }
}

/// Whether `channel` is `#` followed by `name`.
pub fn is_irc_name_of(channel: &str, name: &String) -> (r: bool)
    ensures
        r == (channel@ == irc_name(name@)),
{
    proof {
        reveal_strlit("#");
    }
    let target = String::from_str("#").concat(name.as_str());
    let given = String::from_str(channel);
    assert(target@ =~= irc_name(name@));
    target == given
}

/// `#` followed by `name`.
pub fn irc_name_for(name: &String) -> (r: String)
    ensures
        r@ == irc_name(name@),
{
    proof {
        reveal_strlit("#");
    }
    let r = String::from_str("#").concat(name.as_str());
    assert(r@ =~= irc_name(name@));
    r
}

impl View for ChannelMapping {
    type V = Seq<(u64, Seq<char>)>;

    closed spec fn view(&self) -> Seq<(u64, Seq<char>)> {
        self.entries@.map_values(|e: BridgedChannel| (e.id, e.name@))
    }
}

impl ChannelMapping {
    /// The mapping of a guild's channel listing: every channel under the last
    /// category named `irc`, or nothing where there is no such category.
    pub fn resolve(channels: &Vec<GuildChannel>) -> (r: ChannelMapping)
        ensures
            r@ == resolve_spec(channels@),
    {
        let label = String::from_str("irc");
        proof {
            reveal_strlit("irc");
        }
        let mut category: Option<u64> = None;
        let mut i: usize = 0;
        while i < channels.len()
            invariant
                i <= channels.len(),
                label@ == irc_label(),
                category == last_irc_category(channels@.take(i as int)),
            decreases channels.len() - i,
        {
            assert(channels@.take(i as int + 1).drop_last() =~= channels@.take(i as int));
            let c = &channels[i];
            if c.kind == ChannelKind::Category && c.name == label {
                category = Some(c.id);
            }
            i = i + 1;
        }
        assert(channels@.take(i as int) =~= channels@);
        let mut entries: Vec<BridgedChannel> = Vec::new();
        match category {
            None => {
                let r = ChannelMapping { entries };
                assert(r@ =~= resolve_spec(channels@));
                r
            },
            Some(cat) => {
                let mut j: usize = 0;
                while j < channels.len()
                    invariant
                        j <= channels.len(),
                        entries@.map_values(|e: BridgedChannel| (e.id, e.name@)) == children_of(
                            channels@.take(j as int),
                            cat,
                        ),
                    decreases channels.len() - j,
                {
                    assert(channels@.take(j as int + 1).drop_last() =~= channels@.take(j as int));
                    let c = &channels[j];
                    if c.parent_id == Some(cat) {
                        entries.push(BridgedChannel { id: c.id, name: c.name.clone() });
                        assert(entries@.map_values(|e: BridgedChannel| (e.id, e.name@))
                            =~= children_of(channels@.take(j as int + 1), cat));
                    }
                    j = j + 1;
                }
                assert(channels@.take(j as int) =~= channels@);
                ChannelMapping { entries }
            },
        }
    }

    /// The number of bridged channels.
    pub fn len(&self) -> (r: usize)
        ensures
            r == self@.len(),
    {
        self.entries.len()
    }

    /// The bridged channel at position `i`, in listing order.
    pub fn entry(&self, i: usize) -> (r: &BridgedChannel)
        requires
            i < self@.len(),
        ensures
            (r.id, r.name@) == self@[i as int],
    {
        &self.entries[i]
    }

    /// The display name of the bridged channel `id`, if it is bridged.
    pub fn name_for(&self, id: u64) -> (r: Option<String>)
        ensures
            match r {
                Some(n) => name_of_id(self@, id) == Some(n@),
                None => name_of_id(self@, id) is None,
            },
    {
        let mut found: Option<String> = None;
        let mut i: usize = 0;
        while i < self.entries.len()
            invariant
                i <= self.entries.len(),
                match found {
                    Some(n) => name_of_id(self@.take(i as int), id) == Some(n@),
                    None => name_of_id(self@.take(i as int), id) is None,
                },
            decreases self.entries.len() - i,
        {
            assert(self@.take(i as int + 1).drop_last() =~= self@.take(i as int));
            if self.entries[i].id == id {
                found = Some(self.entries[i].name.clone());
            }
            i = i + 1;
        }
        assert(self@.take(i as int) =~= self@);
        found
    }

    /// The identity of the guild channel whose IRC name is `channel`, if any.
    pub fn id_for_irc_channel(&self, channel: &str) -> (r: Option<u64>)
        ensures
            r == id_of_irc_channel(self@, channel@),
    {
        let mut found: Option<u64> = None;
        let mut i: usize = 0;
        while i < self.entries.len()
            invariant
                i <= self.entries.len(),
                found == id_of_irc_channel(self@.take(i as int), channel@),
            decreases self.entries.len() - i,
        {
            assert(self@.take(i as int + 1).drop_last() =~= self@.take(i as int));
            if is_irc_name_of(channel, &self.entries[i].name) {
                found = Some(self.entries[i].id);
            }
            i = i + 1;
        }
        assert(self@.take(i as int) =~= self@);
        found
    }
}

} // verus!
