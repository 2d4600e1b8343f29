//! Type-level defaults for padding: which sentinel an item type is padded
//! with, and how many of it go on each side.

use vstd::prelude::*;
use vstd::string::*;

verus! {

/// The default sentinel for textual items: U+2060 WORD JOINER.
pub const WORD_SEP: &'static str = "\u{2060}";

/// What an item type supplies so that sequences of it can be padded without
/// the caller naming a sentinel.
///
/// There are implementations for `&str`, `String`, `Vec<u8>` and `char`.
pub trait Pad: Sized {
    /// The sentinel that stands before the first and after the last item.
    fn symbol() -> Self;

    /// How many sentinels to put on each side for windows of size `n`.
    /// By default `n - 1`, so that the first and the last item each stand in
    /// `n` windows. An implementation may return any count.
    fn len(n: usize) -> (count: usize)
        requires
            n >= 1,
        default_ensures
            count == n - 1,
    {
        n - 1
    }
}

impl<'a> Pad for &'a str {
    fn symbol() -> (s: &'a str)
        ensures
            s@ == WORD_SEP@,
    {
        WORD_SEP
    }
}

impl Pad for String {
    fn symbol() -> (s: String)
        ensures
            s@ == WORD_SEP@,
    {
        WORD_SEP.to_owned()
    }
}

impl Pad for Vec<u8> {
    fn symbol() -> (s: Vec<u8>)
        ensures
            s@ == WORD_SEP.spec_bytes(),
    {
        WORD_SEP.as_bytes_vec()
    }
}

impl Pad for char {
    fn symbol() -> (s: char)
        ensures
            s == '\u{2060}',
            seq![s] == WORD_SEP@,
    {
        proof {
            reveal_strlit("\u{2060}");
        }
        WORD_SEP.get_char(0)
    }
}

} // verus!
