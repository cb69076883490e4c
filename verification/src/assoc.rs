//! Lists of named values, read by name: the members of a JSON object and the
//! variables of an environment are both held this way.

use vstd::prelude::*;

verus! {

/// What a list of named values is to contracts: the names as characters, the
/// values by their views, in the order of the list.
pub open spec fn named_view<T: View>(entries: Seq<(String, T)>) -> Seq<(Seq<char>, T::V)> {
    Seq::new(entries.len(), |i: int| (entries[i].0@, entries[i].1@))
}

/// The value that stands under `name`: that of the first entry so named.
pub open spec fn value_of<V>(entries: Seq<(Seq<char>, V)>, name: Seq<char>) -> Option<V>
    decreases entries.len(),
{
    if entries.len() == 0 {
        None
    } else if entries[0].0 == name {
        Some(entries[0].1)
    } else {
        value_of(entries.drop_first(), name)
    }
}

/// No entry before the first one named `name` bears that name, and where
/// `value_of` finds nothing no entry does.
pub proof fn value_of_is_first<V>(entries: Seq<(Seq<char>, V)>, name: Seq<char>)
    ensures
        match value_of(entries, name) {
            Some(v) => exists|i: int|
                0 <= i < entries.len() && #[trigger] entries[i] == (name, v) && forall|j: int|
                    0 <= j < i ==> (#[trigger] entries[j]).0 != name,
            None => forall|j: int| 0 <= j < entries.len() ==> (#[trigger] entries[j]).0 != name,
        },
    decreases entries.len(),
{
    if entries.len() == 0 {
    } else if entries[0].0 == name {
        assert(entries[0] == (name, entries[0].1));
    } else {
        let rest = entries.drop_first();
        value_of_is_first(rest, name);
        match value_of(rest, name) {
            Some(v) => {
                let i = choose|i: int|
                    0 <= i < rest.len() && #[trigger] rest[i] == (name, v) && forall|j: int|
                        0 <= j < i ==> (#[trigger] rest[j]).0 != name;
                assert(entries[i + 1] == rest[i]);
                assert forall|j: int| 0 <= j < i + 1 implies (#[trigger] entries[j]).0 != name by {
                    if j > 0 {
                        assert(entries[j] == rest[j - 1]);
                    }
                }
            },
            None => {
                assert forall|j: int| 0 <= j < entries.len() implies (#[trigger] entries[j]).0
                    != name by {
                    if j > 0 {
                        assert(entries[j] == rest[j - 1]);
                    }
                }
            },
        }
    }
}

/// Looks `name` up in `entries` and hands out the value of the first entry
/// that bears it.
pub fn find<'a, T: View>(entries: &'a Vec<(String, T)>, name: &str) -> (found: Option<&'a T>)
    ensures
        match found {
            Some(v) => value_of(named_view(entries@), name@) == Some(v@),
            None => value_of(named_view(entries@), name@) is None,
        },
{
    let wanted = String::from_str(name);
    let ghost all = named_view(entries@);
    let mut i: usize = 0;
    proof {
        assert(all.skip(0) =~= all);
    }
    while i < entries.len()
        invariant
            i <= entries.len(),
            wanted@ == name@,
            all == named_view(entries@),
            value_of(all, name@) == value_of(all.skip(i as int), name@),
        decreases entries.len() - i,
    {
        proof {
            assert(all.skip(i as int).drop_first() =~= all.skip(i as int + 1));
            assert(all.skip(i as int)[0] == all[i as int]);
        }
        if entries[i].0 == wanted {
            return Some(&entries[i].1);
        }
        i += 1;
    }
    proof {
        assert(all.skip(i as int).len() == 0);
    }
    None
}

} // verus!
