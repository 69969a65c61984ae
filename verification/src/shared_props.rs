//! Props that every page of a server carries.

use crate::text::same_text;
use serde_json::Value;
use vstd::prelude::*;

verus! {

/// Props by name. A name stands for one value: the one inserted last.
#[derive(Debug, Clone)]
pub struct SharedProps {
    entries: Vec<(String, Value)>,
}

/// Whether an entry under the name `key` stands at `i`.
pub open spec fn names(entries: Seq<(String, Value)>, key: Seq<char>, i: int) -> bool {
    0 <= i < entries.len() && entries[i].0@ == key
}

/// The values by name: each name that some entry has, with the value of an
/// entry of that name.
pub open spec fn props_of(entries: Seq<(String, Value)>) -> Map<Seq<char>, Value> {
    Map::new(
        |key: Seq<char>| exists|i: int| names(entries, key, i),
        |key: Seq<char>| entries[choose|i: int| names(entries, key, i)].1,
    )
}

/// Whether no two entries have the same name.
pub open spec fn distinct(entries: Seq<(String, Value)>) -> bool {
    forall|i: int, j: int|
        0 <= i < j < entries.len() ==> (#[trigger] entries[i]).0@ != (#[trigger] entries[j]).0@
}

/// Where no name occurs twice, the value of a name is that of its entry.
proof fn lemma_value_at(entries: Seq<(String, Value)>, i: int)
    requires
        distinct(entries),
        0 <= i < entries.len(),
    ensures
        props_of(entries).dom().contains(entries[i].0@),
        props_of(entries)[entries[i].0@] == entries[i].1,
{
    let key = entries[i].0@;
    assert(names(entries, key, i));
    let j = choose|j: int| names(entries, key, j);
    if j < i {
        assert(entries[j].0@ != entries[i].0@);
    } else if i < j {
        assert(entries[i].0@ != entries[j].0@);
    }
}

/// Where no name occurs twice, there are as many names as entries.
proof fn lemma_names_counted(entries: Seq<(String, Value)>)
    requires
        distinct(entries),
    ensures
        props_of(entries).dom().finite(),
        props_of(entries).dom().len() == entries.len(),
    decreases entries.len(),
{
    if entries.len() == 0 {
        assert(props_of(entries).dom() =~= Set::<Seq<char>>::empty());
    } else {
        let rest = entries.drop_last();
        let n = rest.len() as int;
        let last = entries[n].0@;
        assert(distinct(rest)) by {
            assert forall|i: int, j: int| 0 <= i < j < rest.len() implies (#[trigger] rest[i]).0@ != (
            #[trigger] rest[j]).0@ by {
                assert(entries[i].0@ != entries[j].0@);
            }
        }
        lemma_names_counted(rest);
        assert(!props_of(rest).dom().contains(last)) by {
            if props_of(rest).dom().contains(last) {
                let i = choose|i: int| names(rest, last, i);
                assert(entries[i].0@ != entries[n].0@);
            }
        }
        assert(props_of(entries).dom() =~= props_of(rest).dom().insert(last)) by {
            assert forall|key: Seq<char>| #[trigger]
                props_of(entries).dom().contains(key) <==> props_of(rest).dom().insert(
                    last,
                ).contains(key) by {
                if props_of(entries).dom().contains(key) {
                    let i = choose|i: int| names(entries, key, i);
                    if i < n {
                        assert(names(rest, key, i));
                    }
                }
                if props_of(rest).dom().contains(key) {
                    let i = choose|i: int| names(rest, key, i);
                    assert(names(entries, key, i));
                }
                if key == last {
                    assert(names(entries, key, n));
                }
            }
        }
    }
}

impl View for SharedProps {
    type V = Map<Seq<char>, Value>;

    closed spec fn view(&self) -> Map<Seq<char>, Value> {
        props_of(self.entries@)
    }
}

impl Default for SharedProps {
    /// No props.
    fn default() -> (props: SharedProps)
        ensures
            props.well_formed(),
            props@ == Map::<Seq<char>, Value>::empty(),
            props@.dom().finite(),
    {
        let props = SharedProps { entries: Vec::new() };
        assert(props@ =~= Map::<Seq<char>, Value>::empty());
        props
    }
}

impl SharedProps {
    /// What holds of every value that `default` and `insert` make: no name
    /// occurs twice.
    pub closed spec fn well_formed(&self) -> bool {
        distinct(self.entries@)
    }

    /// Where the entry under the name `key` stands, if there is one.
    fn position(&self, key: &str) -> (found: Option<usize>)
        ensures
            match found {
                Some(i) => names(self.entries@, key@, i as int),
                None => forall|i: int| !names(self.entries@, key@, i),
            },
    {
        let mut i: usize = 0;
        while i < self.entries.len()
            invariant
                i <= self.entries.len(),
                forall|j: int| 0 <= j < i ==> !names(self.entries@, key@, j),
            decreases self.entries.len() - i,
        {
            if same_text(self.entries[i].0.as_str(), key) {
                return Some(i);
            }
            i = i + 1;
        }
        None
    }

    /// How many names there are.
    pub fn len(&self) -> (count: usize)
        requires
            self.well_formed(),
        ensures
            self@.dom().finite(),
            count == self@.dom().len(),
    {
        proof {
            lemma_names_counted(self.entries@);
        }
        self.entries.len()
    }

    /// The props as a list: each name of the props once, with its value, and
    /// nothing else.
    pub fn entries(&self) -> (entries: &Vec<(String, Value)>)
        requires
            self.well_formed(),
        ensures
            distinct(entries@),
            props_of(entries@) == self@,
            self@.dom().finite(),
            entries@.len() == self@.dom().len(),
            forall|i: int|
                0 <= i < entries@.len() ==> self@.dom().contains((#[trigger] entries@[i]).0@)
                    && self@[entries@[i].0@] == entries@[i].1,
            forall|key: Seq<char>|
                self@.dom().contains(key) ==> exists|i: int| names(entries@, key, i),
    {
        proof {
            lemma_names_counted(self.entries@);
            assert forall|i: int| 0 <= i < self.entries@.len() implies self@.dom().contains(
                (#[trigger] self.entries@[i]).0@,
            ) && self@[self.entries@[i].0@] == self.entries@[i].1 by {
                lemma_value_at(self.entries@, i);
            }
        }
        &self.entries
    }

    /// The value under the name `key`, if there is one.
    pub fn get(&self, key: &str) -> (found: Option<&Value>)
        requires
            self.well_formed(),
        ensures
            found is Some <==> self@.dom().contains(key@),
            found matches Some(value) ==> *value == self@[key@],
    {
        match self.position(key) {
            Some(i) => {
                proof {
                    lemma_value_at(self.entries@, i as int);
                }
                Some(&self.entries[i].1)
            },
            None => None,
        }
    }

    /// Puts `value` under the name `key`, in place of what stood there.
    pub fn insert(&mut self, key: String, value: Value)
        requires
            old(self).well_formed(),
        ensures
            final(self).well_formed(),
            final(self)@ == old(self)@.insert(key@, value),
            final(self)@.dom().finite(),
    {
        let ghost before = self.entries@;
        match self.position(key.as_str()) {
            Some(i) => {
                self.entries.set(i, (key, value));
                let ghost after = self.entries@;
                assert(distinct(after)) by {
                    assert forall|a: int, b: int| 0 <= a < b < after.len() implies (
                    #[trigger] after[a]).0@ != (#[trigger] after[b]).0@ by {
                        assert(before[a].0@ != before[b].0@);
                    }
                }
                proof {
                    lemma_names_counted(after);
                }
                assert(props_of(after) =~= props_of(before).insert(key@, value)) by {
                    assert forall|k: Seq<char>| #[trigger]
                        props_of(after).dom().contains(k) <==> props_of(before).insert(
                            key@,
                            value,
                        ).dom().contains(k) by {
                        if props_of(after).dom().contains(k) {
                            let j = choose|j: int| names(after, k, j);
                            assert(names(before, k, j));
                        }
                        if props_of(before).dom().contains(k) {
                            let j = choose|j: int| names(before, k, j);
                            assert(names(after, k, j));
                        }
                        if k == key@ {
                            assert(names(after, k, i as int));
                        }
                    }
                    assert forall|k: Seq<char>| #[trigger]
                        props_of(after).dom().contains(k) implies props_of(after)[k]
                        == props_of(before).insert(key@, value)[k] by {
                        let j = choose|j: int| names(after, k, j);
                        lemma_value_at(after, j);
                        if k != key@ {
                            assert(j != i);
                            lemma_value_at(before, j);
                        } else {
                            lemma_value_at(after, i as int);
                        }
                    }
                }
            },
            None => {
                self.entries.push((key, value));
                let ghost after = self.entries@;
                let ghost n = before.len() as int;
                assert(distinct(after)) by {
                    assert forall|a: int, b: int| 0 <= a < b < after.len() implies (
                    #[trigger] after[a]).0@ != (#[trigger] after[b]).0@ by {
                        if b < n {
                            assert(before[a].0@ != before[b].0@);
                        } else {
                            assert(!names(before, key@, a));
                        }
                    }
                }
                proof {
                    lemma_names_counted(after);
                }
                assert(props_of(after) =~= props_of(before).insert(key@, value)) by {
                    assert forall|k: Seq<char>| #[trigger]
                        props_of(after).dom().contains(k) <==> props_of(before).insert(
                            key@,
                            value,
                        ).dom().contains(k) by {
                        if props_of(after).dom().contains(k) {
                            let j = choose|j: int| names(after, k, j);
                            if j < n {
                                assert(names(before, k, j));
                            }
                        }
                        if props_of(before).dom().contains(k) {
                            let j = choose|j: int| names(before, k, j);
                            assert(names(after, k, j));
                        }
                        if k == key@ {
                            assert(names(after, k, n));
                        }
                    }
                    assert forall|k: Seq<char>| #[trigger]
                        props_of(after).dom().contains(k) implies props_of(after)[k]
                        == props_of(before).insert(key@, value)[k] by {
                        let j = choose|j: int| names(after, k, j);
                        lemma_value_at(after, j);
                        if j < n {
                            assert(names(before, k, j));
                            lemma_value_at(before, j);
                        }
                    }
                }
            },
        }
    }
}

} // verus!
