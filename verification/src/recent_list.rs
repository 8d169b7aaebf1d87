//! The recent-file list as a mathematical sequence of paths.
//!
//! A path is a `Seq<char>`; the list is a `Seq<Seq<char>>` with the most
//! recently used path first.

use vstd::prelude::*;

verus! {

/// The longest list that is kept; older entries beyond it are dropped.
pub const MAX_RECENT_FILES: usize = 10;

/// The predicate "is a path other than `key`".
pub open spec fn differs_from(key: Seq<char>) -> spec_fn(Seq<char>) -> bool {
    |p: Seq<char>| p != key
}

/// `list` with every occurrence of `key` taken out, the rest in order.
pub open spec fn without(list: Seq<Seq<char>>, key: Seq<char>) -> Seq<Seq<char>> {
    list.filter(differs_from(key))
}

/// `list` cut down to its first `MAX_RECENT_FILES` entries.
pub open spec fn capped(list: Seq<Seq<char>>) -> Seq<Seq<char>> {
    if list.len() <= MAX_RECENT_FILES {
        list
    } else {
        list.take(MAX_RECENT_FILES as int)
    }
}

/// `list` after `key` became the most recently used path: `key` in front,
/// its earlier occurrences gone, the oldest entries dropped beyond the cap.
pub open spec fn with_front(list: Seq<Seq<char>>, key: Seq<char>) -> Seq<Seq<char>> {
    capped(seq![key] + without(list, key))
}

/// What every recent-file list satisfies: no path twice, and no more than
/// `MAX_RECENT_FILES` paths.
pub open spec fn well_formed(list: Seq<Seq<char>>) -> bool {
    &&& list.no_duplicates()
    &&& list.len() <= MAX_RECENT_FILES
}

/// What an outcome does to the recent-file list.
#[derive(Clone, Copy, Debug, PartialEq, Eq, Structural)]
pub enum RecentFileChange {
    /// The path becomes the most recently used one.
    MoveToFront,
    /// The path is stale and leaves the list.
    Remove,
    /// The list stays as it is.
    Keep,
}

/// The recent-file list `list` after `change` for the path `key`.
pub open spec fn changed(list: Seq<Seq<char>>, change: RecentFileChange, key: Seq<char>) -> Seq<
    Seq<char>,
> {
    match change {
        RecentFileChange::MoveToFront => with_front(list, key),
        RecentFileChange::Remove => without(list, key),
        RecentFileChange::Keep => list,
    }
}

/// `list` after each of `changes` in turn, every change with its path.
pub open spec fn changed_by_all(
    list: Seq<Seq<char>>,
    changes: Seq<(RecentFileChange, Seq<char>)>,
) -> Seq<Seq<char>>
    decreases changes.len(),
{
    if changes.len() == 0 {
        list
    } else {
        let (change, key) = changes.last();
        changed(changed_by_all(list, changes.drop_last()), change, key)
    }
}

/// The recent-file list that a stored list of paths stands for: its paths
/// in their order, each at its first occurrence only, cut at the cap. It is
/// what adding the stored paths one by one, the last one first, comes to.
pub open spec fn restored(stored: Seq<Seq<char>>) -> Seq<Seq<char>>
    decreases stored.len(),
{
    if stored.len() == 0 {
        stored
    } else {
        with_front(restored(stored.drop_first()), stored.first())
    }
}

/// `list` after `key` was made the most recent path `times` times in a row.
pub open spec fn with_front_repeated(list: Seq<Seq<char>>, key: Seq<char>, times: nat) -> Seq<
    Seq<char>,
>
    decreases times,
{
    if times == 0 {
        list
    } else {
        with_front(with_front_repeated(list, key, (times - 1) as nat), key)
    }
}

/// Taking `key` out of a list that ends in `last`: `last` stays unless it is
/// `key`.
pub proof fn lemma_without_push(front: Seq<Seq<char>>, last: Seq<char>, key: Seq<char>)
    ensures
        without(front.push(last), key) == if last != key {
            without(front, key).push(last)
        } else {
            without(front, key)
        },
{
    front.lemma_filter_push(last, differs_from(key));
}

/// A path is in `without(list, key)` exactly if it is in `list` and is not
/// `key`.
pub proof fn lemma_without_contains(list: Seq<Seq<char>>, key: Seq<char>)
    ensures
        !without(list, key).contains(key),
        without(list, key).len() <= list.len(),
        forall|p: Seq<char>| #[trigger]
            without(list, key).contains(p) <==> (p != key && list.contains(p)),
{
    let rest = without(list, key);
    let other = differs_from(key);
    list.lemma_filter_len(other);
    assert forall|p: Seq<char>| #[trigger] rest.contains(p) implies p != key && list.contains(
        p,
    ) by {
        let i = choose|i: int| 0 <= i < rest.len() && rest[i] == p;
        list.lemma_filter_pred(other, i);
        list.lemma_filter_contains_rev(other, p);
    }
    assert forall|p: Seq<char>| p != key && list.contains(p) implies #[trigger] rest.contains(
        p,
    ) by {
        let j = choose|j: int| 0 <= j < list.len() && list[j] == p;
        list.lemma_filter_contains(other, j);
    }
}

/// Taking `key` out of a list without duplicates leaves a list without
/// duplicates.
pub proof fn lemma_without_no_duplicates(list: Seq<Seq<char>>, key: Seq<char>)
    requires
        list.no_duplicates(),
    ensures
        without(list, key).no_duplicates(),
    decreases list.len(),
{
    if list.len() == 0 {
        lemma_without_contains(list, key);
    } else {
        let front = list.drop_last();
        let last = list.last();
        assert(list =~= front.push(last));
        lemma_without_push(front, last, key);
        lemma_without_no_duplicates(front, key);
        lemma_without_contains(front, key);
        let rest = without(front, key);
        if last != key {
            if rest.contains(last) {
                let j = choose|j: int| 0 <= j < front.len() && front[j] == last;
                assert(list[j] == list[list.len() - 1]);
            }
            assert forall|i: int, j: int|
                0 <= i < rest.len() + 1 && 0 <= j < rest.len() + 1 && i != j implies rest.push(
                last,
            )[i] != rest.push(last)[j] by {
                if i < rest.len() && j < rest.len() {
                } else if i < rest.len() {
                    assert(rest.contains(rest[i]));
                } else {
                    assert(rest.contains(rest[j]));
                }
            }
        }
    }
}

/// Taking out a path that is not in the list changes nothing.
pub proof fn lemma_without_absent(list: Seq<Seq<char>>, key: Seq<char>)
    requires
        !list.contains(key),
    ensures
        without(list, key) == list,
    decreases list.len(),
{
    if list.len() == 0 {
        lemma_without_contains(list, key);
        assert(without(list, key) =~= list);
    } else {
        let front = list.drop_last();
        let last = list.last();
        assert(list =~= front.push(last));
        assert(list[list.len() - 1] == last);
        assert forall|j: int| 0 <= j < front.len() implies front[j] != key by {
            assert(list[j] == front[j]);
        }
        lemma_without_push(front, last, key);
        lemma_without_absent(front, key);
    }
}

/// After `key` became the most recent path it stands first, and nowhere else.
pub proof fn lemma_with_front_key(list: Seq<Seq<char>>, key: Seq<char>)
    ensures
        1 <= with_front(list, key).len() <= MAX_RECENT_FILES,
        with_front(list, key)[0] == key,
        forall|i: int| 1 <= i < with_front(list, key).len() ==> with_front(list, key)[i] != key,
{
    let rest = without(list, key);
    lemma_without_contains(list, key);
    assert forall|i: int| 1 <= i < with_front(list, key).len() implies with_front(list, key)[i]
        != key by {
        assert(with_front(list, key)[i] == rest[i - 1]);
        assert(rest.contains(rest[i - 1]));
    }
}

/// Making `key` the most recent path of a list without duplicates gives a
/// well-formed list.
pub proof fn lemma_with_front_well_formed(list: Seq<Seq<char>>, key: Seq<char>)
    requires
        list.no_duplicates(),
    ensures
        well_formed(with_front(list, key)),
{
    let rest = without(list, key);
    let fresh = with_front(list, key);
    lemma_with_front_key(list, key);
    lemma_without_no_duplicates(list, key);
    assert forall|i: int, j: int| 0 <= i < fresh.len() && 0 <= j < fresh.len() && i != j implies
        fresh[i] != fresh[j] by {
        if i >= 1 && j >= 1 {
            assert(fresh[i] == rest[i - 1]);
            assert(fresh[j] == rest[j - 1]);
        }
    }
}

/// Making the most recent path the most recent path again changes nothing.
pub proof fn lemma_with_front_twice(list: Seq<Seq<char>>, key: Seq<char>)
    ensures
        with_front(with_front(list, key), key) == with_front(list, key),
{
    let once = with_front(list, key);
    lemma_with_front_key(list, key);
    let tail = once.subrange(1, once.len() as int);
    assert(once =~= seq![key] + tail);
    assert(!tail.contains(key)) by {
        if tail.contains(key) {
            let i = choose|i: int| 0 <= i < tail.len() && tail[i] == key;
            assert(once[i + 1] == key);
        }
    }
    tail.lemma_filter_prepend(key, differs_from(key));
    lemma_without_absent(tail, key);
    assert(without(once, key) =~= tail);
}

/// Adding the same path any number of times, at least once, gives what adding
/// it once gives: a list with that path in front and nowhere else.
pub proof fn law_repeated_add_is_one_add(list: Seq<Seq<char>>, key: Seq<char>, times: nat)
    requires
        times >= 1,
    ensures
        with_front_repeated(list, key, times) == with_front(list, key),
        with_front_repeated(list, key, times)[0] == key,
        forall|i: int|
            0 <= i < with_front_repeated(list, key, times).len() ==> (with_front_repeated(
                list,
                key,
                times,
            )[i] == key <==> i == 0),
    decreases times,
{
    lemma_with_front_key(list, key);
    if times == 1 {
        assert(with_front_repeated(list, key, 0) == list);
    } else {
        law_repeated_add_is_one_add(list, key, (times - 1) as nat);
        lemma_with_front_twice(list, key);
    }
}

/// One change to a well-formed list gives a well-formed list.
pub proof fn lemma_changed_well_formed(
    list: Seq<Seq<char>>,
    change: RecentFileChange,
    key: Seq<char>,
)
    requires
        well_formed(list),
    ensures
        well_formed(changed(list, change, key)),
{
    lemma_with_front_well_formed(list, key);
    lemma_without_no_duplicates(list, key);
    lemma_without_contains(list, key);
}

/// Additions and removals, in whatever number and order they are carried out
/// one after another, never leave the list with a path twice or with more
/// paths than the cap.
pub proof fn law_changes_keep_list_well_formed(
    list: Seq<Seq<char>>,
    changes: Seq<(RecentFileChange, Seq<char>)>,
)
    requires
        well_formed(list),
    ensures
        well_formed(changed_by_all(list, changes)),
    decreases changes.len(),
{
    if changes.len() > 0 {
        law_changes_keep_list_well_formed(list, changes.drop_last());
        let (change, key) = changes.last();
        lemma_changed_well_formed(changed_by_all(list, changes.drop_last()), change, key);
    }
}

/// After a path was made the most recent one it stands first in the list and
/// the list holds no path twice.
pub proof fn law_added_path_is_first(list: Seq<Seq<char>>, key: Seq<char>)
    requires
        well_formed(list),
    ensures
        with_front(list, key)[0] == key,
        with_front(list, key).no_duplicates(),
{
    lemma_with_front_key(list, key);
    lemma_with_front_well_formed(list, key);
}

/// After a path was taken out it is not in the list, whether it was there
/// before or not.
pub proof fn law_removed_path_is_absent(list: Seq<Seq<char>>, key: Seq<char>)
    ensures
        !without(list, key).contains(key),
{
    lemma_without_contains(list, key);
}

/// A restored list is well formed, whatever was stored.
pub proof fn lemma_restored_well_formed(stored: Seq<Seq<char>>)
    ensures
        well_formed(restored(stored)),
    decreases stored.len(),
{
    if stored.len() > 0 {
        lemma_restored_well_formed(stored.drop_first());
        lemma_with_front_well_formed(restored(stored.drop_first()), stored.first());
    }
}

/// Restoring a well-formed list gives that list back.
pub proof fn law_restored_keeps_well_formed_list(stored: Seq<Seq<char>>)
    requires
        well_formed(stored),
    ensures
        restored(stored) == stored,
    decreases stored.len(),
{
    if stored.len() > 0 {
        let tail = stored.drop_first();
        let key = stored.first();
        law_restored_keeps_well_formed_list(tail);
        assert(!tail.contains(key)) by {
            if tail.contains(key) {
                let i = choose|i: int| 0 <= i < tail.len() && tail[i] == key;
                assert(stored[i + 1] == stored[0]);
            }
        }
        lemma_without_absent(tail, key);
        assert(seq![key] + tail =~= stored);
    }
}

} // verus!
