//! Lists of named entries: the form in which the library holds what a
//! configuration file keys by name. Entries are looked up by name from the
//! front, so that the first entry of a name is the one that counts; a list
//! from a file holds no name twice.

use vstd::prelude::*;
use crate::text::same_text;

verus! {

/// Position of the first entry of a given name, or the length of the list
/// where no entry has that name.
pub open spec fn first_position<T>(entries: Seq<(String, T)>, name: Seq<char>) -> int
    decreases entries.len(),
{
    if entries.len() == 0 {
        0
    } else if entries[0].0@ == name {
        0
    } else {
        1 + first_position(entries.subrange(1, entries.len() as int), name)
    }
}

/// Whether an entry of a given name exists.
pub open spec fn has_name<T>(entries: Seq<(String, T)>, name: Seq<char>) -> bool {
    first_position(entries, name) < entries.len()
}

/// No two entries have the same name.
pub open spec fn names_distinct<T>(entries: Seq<(String, T)>) -> bool {
    forall|i: int, j: int|
        0 <= i < j < entries.len() ==> (#[trigger] entries[i]).0@ != (#[trigger] entries[j]).0@
}

/// The first position of a name lies in the list or at its end; where it
/// lies in the list the entry there has the name, and no entry before it has.
pub proof fn lemma_first_position<T>(entries: Seq<(String, T)>, name: Seq<char>)
    ensures
        0 <= first_position(entries, name) <= entries.len(),
        has_name(entries, name) ==> entries[first_position(entries, name)].0@ == name,
        forall|j: int|
            0 <= j < first_position(entries, name) ==> (#[trigger] entries[j]).0@ != name,
    decreases entries.len(),
{
    if entries.len() > 0 && entries[0].0@ != name {
        let tail = entries.subrange(1, entries.len() as int);
        lemma_first_position(tail, name);
        assert forall|j: int| 0 <= j < first_position(entries, name) implies (
        #[trigger] entries[j]).0@ != name by {
            if j > 0 {
                assert(tail[j - 1] == entries[j]);
            }
        }
    }
}

/// Where the positions before `at` hold other names, the first position of
/// the name is `at` plus its first position in what follows.
pub proof fn lemma_first_position_skips<T>(entries: Seq<(String, T)>, name: Seq<char>, at: int)
    requires
        0 <= at <= entries.len(),
        forall|j: int| 0 <= j < at ==> (#[trigger] entries[j]).0@ != name,
    ensures
        first_position(entries, name) == at + first_position(
            entries.subrange(at, entries.len() as int),
            name,
        ),
    decreases at,
{
    if at == 0 {
        assert(entries.subrange(0, entries.len() as int) =~= entries);
    } else {
        let tail = entries.subrange(1, entries.len() as int);
        assert forall|j: int| 0 <= j < at - 1 implies (#[trigger] tail[j]).0@ != name by {
            assert(tail[j] == entries[j + 1]);
        }
        lemma_first_position_skips(tail, name, at - 1);
        assert(tail.subrange(at - 1, tail.len() as int) =~= entries.subrange(
            at,
            entries.len() as int,
        ));
        assert(entries[0].0@ != name);
    }
}

/// In a list that holds no name twice, an entry of a name stands at the
/// first position of that name.
pub proof fn lemma_distinct_names<T>(entries: Seq<(String, T)>, at: int)
    requires
        names_distinct(entries),
        0 <= at < entries.len(),
    ensures
        first_position(entries, entries[at].0@) == at,
{
    let name = entries[at].0@;
    lemma_first_position(entries, name);
    let first = first_position(entries, name);
    if first < at {
        assert(entries[first].0@ != entries[at].0@);
    } else if first > at {
        assert(entries[at].0@ != name);
    }
}

/// Finds the first entry of a given name.
pub fn position<T>(entries: &Vec<(String, T)>, name: &str) -> (found: Option<usize>)
    ensures
        found is Some <==> has_name(entries@, name@),
        found matches Some(at) ==> at == first_position(entries@, name@),
{
    let mut i: usize = 0;
    while i < entries.len()
        invariant
            i <= entries.len(),
            forall|j: int| 0 <= j < i ==> (#[trigger] entries@[j]).0@ != name@,
        decreases entries.len() - i,
    {
        if same_text(entries[i].0.as_str(), name) {
            proof {
                lemma_first_position_skips(entries@, name@, i as int);
            }
            return Some(i);
        }
        i += 1;
    }
    proof {
        lemma_first_position_skips(entries@, name@, entries.len() as int);
    }
    None
}

/// Whether a list holds no name twice.
pub fn distinct<T>(entries: &Vec<(String, T)>) -> (ok: bool)
    ensures
        ok == names_distinct(entries@),
{
    let mut j: usize = 0;
    while j < entries.len()
        invariant
            j <= entries.len(),
            forall|a: int, b: int|
                0 <= a < b < j ==> (#[trigger] entries@[a]).0@ != (#[trigger] entries@[b]).0@,
        decreases entries.len() - j,
    {
        let mut i: usize = 0;
        while i < j
            invariant
                i <= j < entries.len(),
                forall|a: int| 0 <= a < i ==> (#[trigger] entries@[a]).0@ != entries@[j as int].0@,
            decreases j - i,
        {
            if same_text(entries[i].0.as_str(), entries[j].0.as_str()) {
                return false;
            }
            i += 1;
        }
        j += 1;
    }
    true
}

} // verus!
