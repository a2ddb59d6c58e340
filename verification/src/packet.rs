//! The decoded packet: a mapping from field name to decoded value.

use vstd::prelude::*;
use crate::value::DataType;

verus! {

/// The mapping denoted by a sequence of (name, value) entries: entries are
/// folded in order, so a later entry with the same name overwrites an
/// earlier one.
pub open spec fn entries_to_map(s: Seq<(String, DataType)>) -> Map<Seq<char>, DataType>
    decreases s.len(),
{
    if s.len() == 0 {
        Map::empty()
    } else {
        entries_to_map(s.drop_last()).insert(s.last().0@, s.last().1)
    }
}

/// A mapping from field name to decoded value, built fresh per datagram.
///
/// Lookup is by name; inserting a name that is already present overwrites
/// the earlier value. Abstractly the packet is the `Map<Seq<char>, DataType>`
/// given by its view.
#[derive(Debug, PartialEq)]
pub struct DecodedPacket {
    entries: Vec<(String, DataType)>,
}

impl View for DecodedPacket {
    type V = Map<Seq<char>, DataType>;

    closed spec fn view(&self) -> Map<Seq<char>, DataType> {
        entries_to_map(self.entries@)
    }
}

/// No entry of `s` is named `k`.
spec fn no_entry_named(s: Seq<(String, DataType)>, k: Seq<char>) -> bool {
    forall|i: int| 0 <= i < s.len() ==> s[i].0@ != k
}

/// A name that no entry carries is absent from the denoted mapping.
proof fn lemma_absent(s: Seq<(String, DataType)>, k: Seq<char>)
    requires
        no_entry_named(s, k),
    ensures
        !entries_to_map(s).contains_key(k),
    decreases s.len(),
{
    if s.len() > 0 {
        assert(s.drop_last() =~= s.subrange(0, s.len() - 1));
        lemma_absent(s.drop_last(), k);
        assert(s.last().0@ != k);
    }
}

/// The denoted mapping holds, for name `k`, the value of the last entry
/// named `k`.
proof fn lemma_last_entry(s: Seq<(String, DataType)>, k: Seq<char>, j: int)
    requires
        0 <= j < s.len(),
        s[j].0@ == k,
        forall|l: int| j < l < s.len() ==> s[l].0@ != k,
    ensures
        entries_to_map(s).contains_key(k),
        entries_to_map(s)[k] == s[j].1,
    decreases s.len(),
{
    if j == s.len() - 1 {
        assert(s.last().0@ == k);
    } else {
        assert(s.last().0@ != k);
        lemma_last_entry(s.drop_last(), k, j);
    }
}

impl DecodedPacket {
    /// An empty packet.
    pub fn new() -> (r: DecodedPacket)
        ensures
            r@ == Map::<Seq<char>, DataType>::empty(),
    {
        DecodedPacket { entries: Vec::new() }
    }

    /// Insert `value` under `name`, overwriting any earlier value with the
    /// same name.
    pub fn insert(&mut self, name: String, value: DataType)
        ensures
            final(self)@ == old(self)@.insert(name@, value),
    {
        let ghost prior = self.entries@;
        self.entries.push((name, value));
        proof {
            assert(self.entries@.drop_last() =~= prior);
        }
    }

    /// Look up a field by name.
    pub fn get(&self, name: &str) -> (r: Option<&DataType>)
        ensures
            match r {
                Some(v) => self@.contains_key(name@) && *v == self@[name@],
                None => !self@.contains_key(name@),
            },
    {
        let wanted: String = name.to_owned();
        let n = self.entries.len();
        let mut i: usize = n;
        while i > 0
            invariant
                i <= n,
                n == self.entries.len(),
                wanted@ == name@,
                forall|l: int| i <= l < n ==> self.entries@[l].0@ != name@,
            decreases i,
        {
            i = i - 1;
            if self.entries[i].0 == wanted {
                proof {
                    lemma_last_entry(self.entries@, name@, i as int);
                }
                return Some(&self.entries[i].1);
            }
        }
        proof {
            lemma_absent(self.entries@, name@);
        }
        None
    }

    /// Whether a field of the given name is present.
    pub fn contains(&self, name: &str) -> (r: bool)
        ensures
            r == self@.contains_key(name@),
    {
        self.get(name).is_some()
    }
}

} // verus!
