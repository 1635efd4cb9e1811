//! A string-keyed map of strings, stored as the list of insertions with later
//! entries shadowing earlier ones. Its view is the mathematical map the
//! insertions build, so lookup is specified exactly: the value of the latest
//! insertion of the key, or nothing when the key was never inserted.

use vstd::prelude::*;
use vstd::string::StringExecFns;

verus! {

/// One recorded insertion: a key and the value it was given.
pub struct Entry {
    pub key: String,
    pub value: String,
}

/// The map the insertions build, applied in order.
pub open spec fn entries_map(s: Seq<Entry>) -> Map<Seq<char>, Seq<char>>
    decreases s.len(),
{
    if s.len() == 0 {
        Map::empty()
    } else {
        entries_map(s.drop_last()).insert(s.last().key@, s.last().value@)
    }
}

/// A key that occurs at position `i` and at no later position gives the key
/// its value in the built map.
proof fn lemma_entries_map_found(s: Seq<Entry>, i: int, k: Seq<char>)
    requires
        0 <= i < s.len(),
        s[i].key@ == k,
        forall|j: int| i < j < s.len() ==> s[j].key@ != k,
    ensures
        entries_map(s).contains_key(k),
        entries_map(s)[k] == s[i].value@,
    decreases s.len(),
{
    if i == s.len() - 1 {
    } else {
        assert(s[s.len() - 1].key@ != k);
        lemma_entries_map_found(s.drop_last(), i, k);
    }
}

/// A key that occurs at no position is absent from the built map.
proof fn lemma_entries_map_absent(s: Seq<Entry>, k: Seq<char>)
    requires
        forall|j: int| 0 <= j < s.len() ==> s[j].key@ != k,
    ensures
        !entries_map(s).contains_key(k),
    decreases s.len(),
{
    if s.len() > 0 {
        lemma_entries_map_absent(s.drop_last(), k);
    }
}

/// The string map itself.
pub struct StrMap {
    entries: Vec<Entry>,
}

impl View for StrMap {
    type V = Map<Seq<char>, Seq<char>>;

    closed spec fn view(&self) -> Map<Seq<char>, Seq<char>> {
        entries_map(self.entries@)
    }
}

impl StrMap {
    /// An empty map.
    pub fn new() -> (m: StrMap)
        ensures
            m@ == Map::<Seq<char>, Seq<char>>::empty(),
    {
        StrMap { entries: Vec::new() }
    }

    /// Binds the key to the value, shadowing any earlier binding of the key.
    pub fn insert(&mut self, key: &str, value: &str)
        ensures
            final(self)@ == old(self)@.insert(key@, value@),
    {
        let entry = Entry { key: String::from_str(key), value: String::from_str(value) };
        self.entries.push(entry);
        proof {
            assert(self.entries@.drop_last() =~= old(self).entries@);
        }
    }

    /// Looks the key up: the value of its latest insertion, or nothing when
    /// the key was never inserted.
    pub fn get(&self, key: &String) -> (r: Option<&String>)
        ensures
            r matches Some(v) ==> self@.contains_key(key@) && v@ == self@[key@],
            r is None ==> !self@.contains_key(key@),
    {
        let mut i: usize = self.entries.len();
        while i > 0
            invariant
                i <= self.entries@.len(),
                forall|j: int| i <= j < self.entries@.len() ==> self.entries@[j].key@ != key@,
            decreases i,
        {
            i = i - 1;
            let entry = &self.entries[i];
            if entry.key == *key {
                proof {
                    lemma_entries_map_found(self.entries@, i as int, key@);
                }
                return Some(&entry.value);
            }
        }
        proof {
            lemma_entries_map_absent(self.entries@, key@);
        }
        None
    }
}

/// The law relating insertion and lookup: after a key is bound to a value,
/// looking that key up yields exactly that value, and every other key keeps
/// the binding, or the absence, it had before.
pub proof fn lemma_insert_then_lookup(
    m: Map<Seq<char>, Seq<char>>,
    k: Seq<char>,
    v: Seq<char>,
    other: Seq<char>,
)
    ensures
        m.insert(k, v).contains_key(k),
        m.insert(k, v)[k] == v,
        other != k ==> (m.insert(k, v).contains_key(other) <==> m.contains_key(other)),
        other != k && m.contains_key(other) ==> m.insert(k, v)[other] == m[other],
{
}

} // verus!
