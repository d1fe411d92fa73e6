//! Facts about sequences that several modules share.

use vstd::prelude::*;

verus! {

/// Whether `i` is the first position of `value` in `items`.
pub open spec fn is_first_position<A>(items: Seq<A>, value: A, i: int) -> bool {
    &&& 0 <= i < items.len()
    &&& items[i] == value
    &&& forall|j: int| 0 <= j < i ==> items[j] != value
}

/// A first position is the one that `index_of_first` names.
pub proof fn lemma_first_position<A>(items: Seq<A>, value: A, i: int)
    requires
        is_first_position(items, value, i),
    ensures
        items.contains(value),
        items.index_of_first(value) == Some(i),
{
    items.index_of_first_ensures(value);
    let found = items.index_of_first(value);
    assert(items.contains(value));
    let k = found.unwrap();
    if k < i {
        assert(items[k] != value);
    } else if i < k {
        assert(items[i] != value);
    }
}

/// What `index_of_first` names is a first position, and it names none only
/// where the value does not occur.
pub proof fn lemma_index_of_first<A>(items: Seq<A>, value: A)
    ensures
        match items.index_of_first(value) {
            Some(i) => is_first_position(items, value, i),
            None => !items.contains(value),
        },
{
    items.index_of_first_ensures(value);
}

/// Removing the one occurrence of a value from a list without repeats
/// leaves a list without repeats, one shorter, that no longer holds the
/// value and holds every other value that it held before.
pub proof fn lemma_remove_value_distinct<A>(items: Seq<A>, value: A)
    requires
        items.no_duplicates(),
        items.contains(value),
    ensures
        items.remove_value(value).no_duplicates(),
        items.remove_value(value).len() == items.len() - 1,
        !items.remove_value(value).contains(value),
        forall|other: A|
            other != value ==> (items.remove_value(value).contains(other) <==> items.contains(
                other,
            )),
{
    items.index_of_first_ensures(value);
    let i = items.index_of_first(value).unwrap();
    let rest = items.remove(i);
    assert forall|a: int, b: int| 0 <= a < rest.len() && 0 <= b < rest.len() && a != b implies rest[a]
        != rest[b] by {
        let a0 = if a < i { a } else { a + 1 };
        let b0 = if b < i { b } else { b + 1 };
        assert(rest[a] == items[a0]);
        assert(rest[b] == items[b0]);
    }
    assert forall|a: int| 0 <= a < rest.len() implies rest[a] != value by {
        let a0 = if a < i { a } else { a + 1 };
        assert(rest[a] == items[a0]);
    }
    assert forall|other: A| other != value implies (rest.contains(other) <==> items.contains(
        other,
    )) by {
        if rest.contains(other) {
            let a = choose|a: int| 0 <= a < rest.len() && rest[a] == other;
            let a0 = if a < i { a } else { a + 1 };
            assert(items[a0] == other);
        }
        if items.contains(other) {
            let a0 = choose|a0: int| 0 <= a0 < items.len() && items[a0] == other;
            let a = if a0 < i { a0 } else { a0 - 1 };
            assert(rest[a] == other);
        }
    }
}

} // verus!
