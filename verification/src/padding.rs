//! The padding policy: which sides of a sequence get sentinels, and how many.

use vstd::prelude::*;

verus! {

/// Which sides of a sequence a count of sentinels applies to.
#[derive(Clone, Copy, Debug, PartialEq, Eq, Structural)]
pub enum Side {
    /// No side: the sequence stays as it is.
    Neither,
    /// Before the first item only.
    Left,
    /// After the last item only.
    Right,
    /// Before the first and after the last item.
    Both,
}

/// How many sentinels go before the first item and after the last one.
///
/// This is configuration only: it is read once, when a padding stage is
/// built from it.
#[derive(Clone, Copy, Debug, PartialEq, Eq, Structural)]
pub struct Padding {
    /// The number of sentinels before the first item.
    pub left: usize,
    /// The number of sentinels after the last item.
    pub right: usize,
}

impl Padding {
    /// No padding on either side.
    pub fn none() -> (padding: Padding)
        ensures
            padding == (Padding { left: 0, right: 0 }),
    {
        Padding { left: 0, right: 0 }
    }

    /// `count` sentinels before the first item, none after the last.
    pub fn left(count: usize) -> (padding: Padding)
        ensures
            padding == (Padding { left: count, right: 0 }),
    {
        Padding { left: count, right: 0 }
    }

    /// `count` sentinels after the last item, none before the first.
    pub fn right(count: usize) -> (padding: Padding)
        ensures
            padding == (Padding { left: 0, right: count }),
    {
        Padding { left: 0, right: count }
    }

    /// `left` sentinels before the first item and `right` after the last.
    pub fn both(left: usize, right: usize) -> (padding: Padding)
        ensures
            padding == (Padding { left, right }),
    {
        Padding { left, right }
    }

    /// `count` sentinels on each side that `side` selects, none on the other.
    pub fn on(side: Side, count: usize) -> (padding: Padding)
        ensures
            padding.left == if side == Side::Left || side == Side::Both {
                count
            } else {
                0
            },
            padding.right == if side == Side::Right || side == Side::Both {
                count
            } else {
                0
            },
    {
        match side {
            Side::Neither => Padding { left: 0, right: 0 },
            Side::Left => Padding { left: count, right: 0 },
            Side::Right => Padding { left: 0, right: count },
            Side::Both => Padding { left: count, right: count },
        }
    }

    /// The padding that anchors a full window on the first and on the last
    /// item: `n - 1` sentinels on both sides.
    pub fn full(n: usize) -> (padding: Padding)
        requires
            n >= 1,
        ensures
            padding == (Padding { left: (n - 1) as usize, right: (n - 1) as usize }),
    {
        Padding { left: n - 1, right: n - 1 }
    }
}

} // verus!
