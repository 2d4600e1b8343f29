//! The mathematical model: padded sequences, their windows, and the laws
//! that relate them.

use vstd::prelude::*;

verus! {

/// `count` copies of `symbol`.
pub open spec fn pads<T>(symbol: T, count: nat) -> Seq<T> {
    Seq::new(count, |i: int| symbol)
}

/// `items` with `left` sentinels before it and `right` sentinels after it.
pub open spec fn padded<T>(items: Seq<T>, symbol: T, left: nat, right: nat) -> Seq<T> {
    pads(symbol, left) + items + pads(symbol, right)
}

/// The number of windows of size `n` in a sequence of `len` items.
pub open spec fn window_count(len: nat, n: nat) -> nat {
    if 1 <= n <= len {
        (len - n + 1) as nat
    } else {
        0
    }
}

/// All contiguous runs of `n` items of `items`, in the order of their first
/// item. There is none where `items` is shorter than `n`.
pub open spec fn windows<T>(items: Seq<T>, n: nat) -> Seq<Seq<T>> {
    Seq::new(window_count(items.len(), n), |i: int| items.subrange(i, i + n))
}

/// The first window in full, followed by the last item of each later window.
pub open spec fn rebuilt<T>(windows: Seq<Seq<T>>) -> Seq<T> {
    if windows.len() == 0 {
        Seq::empty()
    } else {
        windows[0] + Seq::new((windows.len() - 1) as nat, |i: int| windows[i + 1].last())
    }
}

/// `copy` is `item`, a clone of it, or a clone of a clone of it.
///
/// A sentinel is cloned once when the padding stage yields it and once more
/// for each window that holds it, so this is what can be said of an item of
/// a window whatever `T::clone` does. Where `T::clone` returns an equal
/// value, `copied` is equality.
pub open spec fn copied<T: Clone>(item: T, copy: T) -> bool {
    exists|between: T| cloned(item, between) && #[trigger] cloned(between, copy)
}

/// `made` is `items`, item by item, up to [`copied`].
pub open spec fn copies<T: Clone>(items: Seq<T>, made: Seq<T>) -> bool {
    &&& made.len() == items.len()
    &&& forall|i: int| 0 <= i < items.len() ==> copied(items[i], #[trigger] made[i])
}

/// Where cloning an item gives an equal item, copies are equal to what they
/// were made of: a window is then exactly what its model says.
pub proof fn law_exact_copies<T: Clone>(items: Seq<T>, made: Seq<T>)
    requires
        copies(items, made),
        forall|a: T, b: T| #[trigger] cloned(a, b) ==> a == b,
    ensures
        made == items,
{
}

/// Dropping the first item of a sequence drops its first window and shifts
/// the others.
pub proof fn lemma_windows_drop_first<T>(items: Seq<T>, n: nat)
    requires
        1 <= n <= items.len(),
    ensures
        windows(items.drop_first(), n) == windows(items, n).drop_first(),
{
    let shifted = windows(items.drop_first(), n);
    let dropped = windows(items, n).drop_first();
    assert forall|i: int| 0 <= i < shifted.len() implies shifted[i] == dropped[i] by {}
}

/// A sequence of `len` items has `max(0, len - n + 1)` windows of size `n`,
/// and each of them holds exactly `n` items.
pub proof fn law_window_count<T>(items: Seq<T>, n: nat)
    requires
        n >= 1,
    ensures
        windows(items, n).len() == if items.len() - n + 1 > 0 {
            items.len() - n + 1
        } else {
            0
        },
        forall|i: int| 0 <= i < windows(items, n).len() ==> (#[trigger] windows(items, n)[i]).len() == n,
        forall|i: int, j: int|
            0 <= i < windows(items, n).len() && 0 <= j < n ==> (#[trigger] windows(items, n)[i][j])
                == items[i + j],
{
}

/// With `left` and `right` sentinels around `items`, the padded sequence has
/// `left + items.len() + right` items: every item of the source is kept and
/// each sentinel is counted once.
pub proof fn law_padded_len<T>(items: Seq<T>, symbol: T, left: nat, right: nat)
    ensures
        padded(items, symbol, left, right).len() == left + items.len() + right,
        forall|k: int|
            0 <= k < left + items.len() + right ==> #[trigger] padded(items, symbol, left, right)[k]
                == if left <= k < left + items.len() {
                items[k - left]
            } else {
                symbol
            },
{
}

/// With `n - 1` sentinels on both sides, each item of a sequence that is not
/// empty stands in `n` windows: there are `items.len() + n - 1` windows, the
/// first item closes the first of them and the last item opens the last.
pub proof fn law_full_padding<T>(items: Seq<T>, symbol: T, n: nat)
    requires
        n >= 1,
        items.len() >= 1,
    ensures
        ({
            let all = windows(padded(items, symbol, (n - 1) as nat, (n - 1) as nat), n);
            &&& all.len() == items.len() + n - 1
            &&& all.first() == pads(symbol, (n - 1) as nat).push(items.first())
            &&& all.last() == seq![items.last()] + pads(symbol, (n - 1) as nat)
        }),
{
}

/// No item is lost: where there is at least one window, the first window in
/// full followed by the last item of each later window is the sequence that
/// the windows were cut from. (A sequence shorter than `n` has no window to
/// rebuild it from.)
pub proof fn law_windows_rebuild<T>(items: Seq<T>, n: nat)
    requires
        n >= 1,
        items.len() >= n || items.len() == 0,
    ensures
        rebuilt(windows(items, n)) == items,
{
}

/// The same of windows as a stage emits them, each a copy of its model item
/// by item: the first emitted window in full followed by the last item of
/// each later one is, item by item, a copy of the sequence that the windows
/// were cut from.
pub proof fn law_emitted_rebuild<T: Clone>(items: Seq<T>, n: nat, emitted: Seq<Seq<T>>)
    requires
        n >= 1,
        items.len() >= n || items.len() == 0,
        emitted.len() == windows(items, n).len(),
        forall|i: int| 0 <= i < emitted.len() ==> copies(windows(items, n)[i], #[trigger] emitted[i]),
    ensures
        copies(items, rebuilt(emitted)),
{
}

/// With `n == 1` there is exactly one window for each item, holding that
/// item alone, in order.
pub proof fn law_unigrams<T>(items: Seq<T>)
    ensures
        windows(items, 1).len() == items.len(),
        forall|i: int| 0 <= i < items.len() ==> #[trigger] windows(items, 1)[i] == seq![items[i]],
{
}

} // verus!
