//! The payload of a stored point: a map from field names to JSON values, of
//! which the library reads only the text of string values.
use vstd::prelude::*;

verus! {

/// A payload value as far as the search reads it: a JSON string, or any
/// other JSON value.
#[derive(Debug, Clone)]
pub enum PayloadValue {
    Text(String),
    Other,
}

impl PayloadValue {
    /// The text of a string value (what `serde_json::Value::as_str` gives).
    pub open spec fn text_view(self) -> Option<Seq<char>> {
        match self {
            PayloadValue::Text(s) => Some(s@),
            PayloadValue::Other => None,
        }
    }
}

/// The field names and values of a payload, one entry per name.
pub struct Payload {
    entries: Vec<(String, PayloadValue)>,
}

/// The map that a list of entries describes, later entries over earlier ones.
pub open spec fn entries_map(s: Seq<(String, PayloadValue)>) -> Map<Seq<char>, Option<Seq<char>>>
    decreases s.len(),
{
    if s.len() == 0 {
        Map::empty()
    } else {
        entries_map(s.drop_last()).insert(s.last().0@, s.last().1.text_view())
    }
}

pub open spec fn keys_distinct(s: Seq<(String, PayloadValue)>) -> bool {
    forall|i: int, j: int| 0 <= i < j < s.len() ==> #[trigger] s[i].0@ != #[trigger] s[j].0@
}

impl View for Payload {
    type V = Map<Seq<char>, Option<Seq<char>>>;

    closed spec fn view(&self) -> Map<Seq<char>, Option<Seq<char>>> {
        entries_map(self.entries@)
    }
}

/// Which names a list of entries maps, and to what, when no name occurs twice.
proof fn lemma_entries_map(s: Seq<(String, PayloadValue)>)
    requires
        keys_distinct(s),
    ensures
        forall|k: Seq<char>| #[trigger]
            entries_map(s).dom().contains(k) <==> exists|i: int| 0 <= i < s.len() && s[i].0@ == k,
        forall|i: int|
            0 <= i < s.len() ==> entries_map(s)[#[trigger] s[i].0@] == s[i].1.text_view(),
    decreases s.len(),
{
    if s.len() > 0 {
        let t = s.drop_last();
        assert(keys_distinct(t)) by {
            assert forall|i: int, j: int| 0 <= i < j < t.len() implies #[trigger] t[i].0@
                != #[trigger] t[j].0@ by {
                assert(t[i] == s[i] && t[j] == s[j]);
            }
        }
        lemma_entries_map(t);
        assert forall|k: Seq<char>| #[trigger]
            entries_map(s).dom().contains(k) implies exists|i: int|
                0 <= i < s.len() && s[i].0@ == k by {
            if k != s.last().0@ {
                let i = choose|i: int| 0 <= i < t.len() && t[i].0@ == k;
                assert(s[i] == t[i]);
            } else {
                assert(s[s.len() - 1].0@ == k);
            }
        }
        assert forall|i: int| 0 <= i < s.len() implies entries_map(s)[#[trigger] s[i].0@]
            == s[i].1.text_view() by {
            if i < s.len() - 1 {
                assert(s[i] == t[i]);
                assert(s[i].0@ != s[s.len() - 1].0@);
            }
        }
        assert forall|k: Seq<char>|
            (exists|i: int| 0 <= i < s.len() && s[i].0@ == k) implies #[trigger] entries_map(
            s,
        ).dom().contains(k) by {
            let i = choose|i: int| 0 <= i < s.len() && s[i].0@ == k;
            if i < s.len() - 1 {
                assert(t[i] == s[i]);
            }
        }
    }
}

/// Replacing the value of an entry, under the same name, updates the map at
/// that name.
proof fn lemma_entries_map_update(s: Seq<(String, PayloadValue)>, i: int, e: (String, PayloadValue))
    requires
        keys_distinct(s),
        0 <= i < s.len(),
        e.0@ == s[i].0@,
    ensures
        entries_map(s.update(i, e)) =~= entries_map(s).insert(e.0@, e.1.text_view()),
    decreases s.len(),
{
    let u = s.update(i, e);
    let t = s.drop_last();
    if i == s.len() - 1 {
        assert(u.drop_last() =~= t);
    } else {
        assert(u.drop_last() =~= t.update(i, e));
        assert(keys_distinct(t)) by {
            assert forall|a: int, b: int| 0 <= a < b < t.len() implies #[trigger] t[a].0@
                != #[trigger] t[b].0@ by {
                assert(t[a] == s[a] && t[b] == s[b]);
            }
        }
        lemma_entries_map_update(t, i, e);
        assert(s[i].0@ != s[s.len() - 1].0@);
    }
}

impl Payload {
    /// No name occurs twice.
    #[verifier::type_invariant]
    spec fn names_distinct(self) -> bool {
        keys_distinct(self.entries@)
    }

    /// An empty payload.
    pub fn new() -> (payload: Payload)
        ensures
            payload@ == Map::<Seq<char>, Option<Seq<char>>>::empty(),
    {
        Payload { entries: Vec::new() }
    }

    /// Sets the value of `key`, replacing any value it had, as
    /// `HashMap::insert` does.
    pub fn insert(&mut self, key: String, value: PayloadValue)
        ensures
            final(self)@ == old(self)@.insert(key@, value.text_view()),
    {
        proof {
            use_type_invariant(&*self);
        }
        let mut entries: Vec<(String, PayloadValue)> = Vec::new();
        std::mem::swap(&mut entries, &mut self.entries);
        let ghost old_entries = entries@;
        let mut i: usize = 0;
        while i < entries.len()
            invariant
                entries@ == old_entries,
                old_entries == old(self).entries@,
                keys_distinct(old_entries),
                i <= entries.len(),
                forall|j: int| 0 <= j < i ==> #[trigger] entries@[j].0@ != key@,
            decreases entries.len() - i,
        {
            if entries[i].0 == key {
                let ghost e = (key, value);
                proof {
                    lemma_entries_map_update(old_entries, i as int, e);
                }
                entries.set(i, (key, value));
                proof {
                    assert(entries@ == old_entries.update(i as int, e));
                    assert forall|a: int, b: int| 0 <= a < b < entries@.len() implies #[trigger] entries@[a].0@
                        != #[trigger] entries@[b].0@ by {
                        assert(entries@[a].0@ == old_entries[a].0@);
                        assert(entries@[b].0@ == old_entries[b].0@);
                    }
                }
                self.entries = entries;
                return;
            }
            i = i + 1;
        }
        let ghost e = (key, value);
        entries.push((key, value));
        proof {
            assert(entries@.drop_last() =~= old_entries);
            assert(entries@.last() == e);
            assert forall|a: int, b: int| 0 <= a < b < entries@.len() implies #[trigger] entries@[a].0@
                != #[trigger] entries@[b].0@ by {
                if b < old_entries.len() {
                    assert(entries@[a] == old_entries[a] && entries@[b] == old_entries[b]);
                } else {
                    assert(entries@[a] == old_entries[a]);
                }
            }
        }
        self.entries = entries;
    }

    /// The value of `key`, if it has one (as `HashMap::get`).
    pub fn get(&self, key: &String) -> (value: Option<&PayloadValue>)
        ensures
            value is Some == self@.dom().contains(key@),
            value matches Some(v) ==> self@[key@] == v.text_view(),
    {
        proof {
            use_type_invariant(self);
            lemma_entries_map(self.entries@);
        }
        let mut i: usize = 0;
        while i < self.entries.len()
            invariant
                i <= self.entries@.len(),
                forall|j: int| 0 <= j < i ==> #[trigger] self.entries@[j].0@ != key@,
            decreases self.entries@.len() - i,
        {
            if self.entries[i].0 == *key {
                proof {
                    use_type_invariant(self);
                    lemma_entries_map(self.entries@);
                }
                return Some(&self.entries[i].1);
            }
            i = i + 1;
        }
        proof {
            use_type_invariant(self);
            lemma_entries_map(self.entries@);
        }
        None
    }
}

} // verus!
