//! A record: the named texts of one row of a result.

use vstd::prelude::*;
use crate::json::{distinct_names, json_members, json_model, json_object, json_text, JsonModel};

verus! {

/// The entries of a record: names with their texts, in order.
pub type Entries = Seq<(Seq<char>, Seq<char>)>;

/// No entries.
pub open spec fn no_entries() -> Entries {
    Seq::empty()
}

/// Some entry carries the name.
pub open spec fn holds_name(entries: Entries, name: Seq<char>) -> bool {
    exists|i: int| 0 <= i < entries.len() && (#[trigger] entries[i]).0 == name
}

/// The place of an entry that carries the name, where there is one.
pub open spec fn place_of(entries: Entries, name: Seq<char>) -> int {
    choose|i: int| 0 <= i < entries.len() && (#[trigger] entries[i]).0 == name
}

/// No two entries carry the same name.
pub open spec fn distinct_entries(entries: Entries) -> bool {
    forall|i: int, j: int|
        0 <= i < j < entries.len() ==> (#[trigger] entries[i]).0 != (#[trigger] entries[j]).0
}

/// The entries after a text is written under a name. A name that is held
/// already keeps its place and takes the new text; a new name goes to the end.
pub open spec fn put_entry(entries: Entries, name: Seq<char>, text: Seq<char>) -> Entries {
    if holds_name(entries, name) {
        entries.update(place_of(entries, name), (name, text))
    } else {
        entries.push((name, text))
    }
}

/// The JSON object of a record: one string member for each entry, in order.
pub open spec fn record_document(entries: Entries) -> JsonModel {
    JsonModel::Object(entries.map_values(|e: (Seq<char>, Seq<char>)| (e.0, JsonModel::Text(e.1))))
}

/// The entries that a vector of pairs of strings holds.
pub open spec fn entries_of(pairs: Seq<(String, String)>) -> Entries {
    pairs.map_values(|p: (String, String)| (p.0@, p.1@))
}

/// Writing under a name keeps the names distinct.
pub proof fn lemma_put_keeps_distinct(entries: Entries, name: Seq<char>, text: Seq<char>)
    requires
        distinct_entries(entries),
    ensures
        distinct_entries(put_entry(entries, name, text)),
        holds_name(put_entry(entries, name, text), name),
{
    let after = put_entry(entries, name, text);
    if holds_name(entries, name) {
        let at = place_of(entries, name);
        assert(after[at].0 == name);
        assert forall|i: int, j: int| 0 <= i < j < after.len() implies (#[trigger] after[i]).0 != (
        #[trigger] after[j]).0 by {
            assert(after[i].0 == entries[i].0);
            assert(after[j].0 == entries[j].0);
        }
    } else {
        assert(after[entries.len() as int].0 == name);
        assert forall|i: int, j: int| 0 <= i < j < after.len() implies (#[trigger] after[i]).0 != (
        #[trigger] after[j]).0 by {
            if j < entries.len() {
                assert(after[i] == entries[i]);
                assert(after[j] == entries[j]);
            } else {
                assert(after[i] == entries[i]);
            }
        }
    }
}

/// A record: texts under names that differ from each other, in the order in
/// which the names were first written.
#[derive(Debug, PartialEq, Eq)]
pub struct Record {
    entries: Vec<(String, String)>,
}

impl View for Record {
    type V = Entries;

    closed spec fn view(&self) -> Entries {
        entries_of(self.entries@)
    }
}

impl Record {
    #[verifier::type_invariant]
    spec fn names_differ(&self) -> bool {
        distinct_entries(entries_of(self.entries@))
    }

    /// A record without entries.
    pub fn new() -> (record: Record)
        ensures
            record@ == no_entries(),
    {
        let record = Record { entries: Vec::new() };
        assert(record@ =~= no_entries());
        record
    }

    /// The number of entries. Their names differ from each other.
    pub fn len(&self) -> (n: usize)
        ensures
            n == self@.len(),
            distinct_entries(self@),
    {
        proof {
            use_type_invariant(self);
        }
        self.entries.len()
    }

    /// The name of the entry at a place, or `None` past the end.
    pub fn name_at(&self, place: usize) -> (name: Option<&String>)
        ensures
            place < self@.len() ==> (name matches Some(n) && n@ == self@[place as int].0),
            place >= self@.len() ==> name is None,
    {
        if place < self.entries.len() {
            Some(&self.entries[place].0)
        } else {
            None
        }
    }

    /// The text of the entry at a place, or `None` past the end.
    pub fn text_at(&self, place: usize) -> (text: Option<&String>)
        ensures
            place < self@.len() ==> (text matches Some(t) && t@ == self@[place as int].1),
            place >= self@.len() ==> text is None,
    {
        if place < self.entries.len() {
            Some(&self.entries[place].1)
        } else {
            None
        }
    }

    /// The place of the entry that carries the name.
    fn find(&self, name: &String) -> (place: Option<usize>)
        ensures
            match place {
                Some(at) => at < self@.len() && self@[at as int].0 == name@,
                None => !holds_name(self@, name@),
            },
    {
        let mut i: usize = 0;
        while i < self.entries.len()
            invariant
                i <= self.entries@.len(),
                forall|k: int| 0 <= k < i ==> (#[trigger] self@[k]).0 != name@,
            decreases self.entries@.len() - i,
        {
            if self.entries[i].0 == *name {
                return Some(i);
            }
            i += 1;
        }
        None
    }

    /// The text under a name, or `None` where no entry carries the name.
    pub fn get(&self, name: &str) -> (text: Option<&String>)
        ensures
            holds_name(self@, name@) ==> (text matches Some(t) && t@ == self@[place_of(
                self@,
                name@,
            )].1),
            !holds_name(self@, name@) ==> text is None,
    {
        let wanted = name.to_owned();
        match self.find(&wanted) {
            Some(at) => {
                proof {
                    use_type_invariant(self);
                    let chosen = place_of(self@, name@);
                    assert(self@[at as int].0 == name@);
                    assert(chosen == at);
                }
                Some(&self.entries[at].1)
            },
            None => None,
        }
    }

    /// The record after a text is written under a name: over the text that
    /// the name holds, or as a new entry at the end.
    pub fn put(self, name: String, text: String) -> (after: Record)
        ensures
            after@ == put_entry(self@, name@, text@),
            distinct_entries(after@),
    {
        proof {
            use_type_invariant(&self);
            lemma_put_keeps_distinct(self@, name@, text@);
        }
        let found = self.find(&name);
        let mut entries = self.entries;
        match found {
            Some(at) => {
                proof {
                    let chosen = place_of(self@, name@);
                    assert(self@[at as int].0 == name@);
                    assert(chosen == at);
                }
                entries.set(at, (name, text));
            },
            None => {
                entries.push((name, text));
            },
        }
        assert(entries_of(entries@) =~= put_entry(self@, name@, text@));
        Record { entries }
    }

    /// The JSON object of the record.
    pub fn to_json(&self) -> (document: serde_json::Value)
        ensures
            json_model(document) == record_document(self@),
    {
        let mut pairs: Vec<(String, serde_json::Value)> = Vec::new();
        let mut i: usize = 0;
        while i < self.entries.len()
            invariant
                i <= self.entries@.len(),
                pairs@.len() == i,
                forall|k: int|
                    0 <= k < i ==> (#[trigger] pairs@[k]).0@ == self@[k].0 && json_model(
                        pairs@[k].1,
                    ) == JsonModel::Text(self@[k].1),
            decreases self.entries@.len() - i,
        {
            let name = self.entries[i].0.clone();
            let text = json_text(self.entries[i].1.as_str());
            pairs.push((name, text));
            i += 1;
        }
        proof {
            use_type_invariant(self);
            assert(distinct_names(pairs@)) by {
                assert forall|a: int, b: int| 0 <= a < b < pairs@.len() implies (
                #[trigger] pairs@[a]).0@ != (#[trigger] pairs@[b]).0@ by {
                    assert(self@[a].0 != self@[b].0);
                }
            }
            assert(json_members(pairs@) =~= self@.map_values(
                |e: (Seq<char>, Seq<char>)| (e.0, JsonModel::Text(e.1)),
            ));
        }
        json_object(pairs)
    }
}

} // verus!
