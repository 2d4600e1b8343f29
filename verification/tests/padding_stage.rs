use ngrams::{Pad, Padded, Padding, Side, Upstream, WORD_SEP};

fn drain<I: Iterator>(mut stage: Padded<I>) -> Vec<I::Item>
where
    I::Item: Clone,
{
    let mut out = Vec::new();
    while let Some(item) = stage.next() {
        out.push(item);
    }
    out
}

/// An item type with a sentinel and a pad count of its own.
#[derive(Clone, Debug, PartialEq)]
struct Token(u32);

impl Pad for Token {
    fn symbol() -> Token {
        Token(0)
    }

    fn len(_n: usize) -> usize {
        1
    }
}

#[test]
fn sentinels_stand_before_and_after_the_items() {
    let stage = Padded::with_padding(vec![1, 2, 3].into_iter(), 0, Padding::both(2, 1));
    assert_eq!(drain(stage), vec![0, 0, 1, 2, 3, 0]);
}

#[test]
fn zero_counts_pass_the_items_through() {
    let stage = Padded::with_padding(vec![1, 2, 3].into_iter(), 0, Padding::none());
    assert_eq!(drain(stage), vec![1, 2, 3]);
}

#[test]
fn empty_source_yields_only_sentinels() {
    let empty: Vec<u8> = Vec::new();
    let stage = Padded::with_padding(empty.into_iter(), 9, Padding::both(2, 3));
    assert_eq!(drain(stage), vec![9, 9, 9, 9, 9]);
}

#[test]
fn empty_source_without_padding_yields_nothing() {
    let empty: Vec<u8> = Vec::new();
    let mut stage = Padded::with_padding(empty.into_iter(), 9, Padding::none());
    assert_eq!(stage.next(), None);
    assert_eq!(stage.next(), None);
}

#[test]
fn left_only_and_right_only() {
    let left = Padded::with_padding(vec!['a'].into_iter(), '_', Padding::left(2));
    assert_eq!(drain(left), vec!['_', '_', 'a']);
    let right = Padded::with_padding(vec!['a'].into_iter(), '_', Padding::right(2));
    assert_eq!(drain(right), vec!['a', '_', '_']);
}

#[test]
fn default_padding_for_a_window_size() {
    let stage: Padded<_> = Padded::new(vec!["a", "b"].into_iter(), 3);
    assert_eq!(drain(stage), vec![WORD_SEP, WORD_SEP, "a", "b", WORD_SEP, WORD_SEP]);
    let stage: Padded<_> = Padded::new(vec!["a", "b"].into_iter(), 1);
    assert_eq!(drain(stage), vec!["a", "b"]);
}

#[test]
fn item_type_overrides_sentinel_and_count() {
    let stage = Padded::new(vec![Token(7), Token(8)].into_iter(), 5);
    assert_eq!(drain(stage), vec![Token(0), Token(7), Token(8), Token(0)]);
}

#[test]
fn padded_end_is_permanent() {
    let mut stage = Padded::with_padding(vec![1].into_iter(), 0, Padding::both(1, 1));
    assert_eq!(stage.next(), Some(0));
    assert_eq!(stage.next(), Some(1));
    assert_eq!(stage.next(), Some(0));
    for _ in 0..4 {
        assert_eq!(stage.next(), None);
    }
}

#[test]
fn padded_does_not_pull_after_the_end() {
    // yields 1, then None once, then 2 for ever
    let mut calls = 0;
    let source = std::iter::from_fn(move || {
        calls += 1;
        match calls {
            1 => Some(1),
            2 => None,
            _ => Some(2),
        }
    });
    let mut stage = Padded::with_padding(source, 0, Padding::right(2));
    assert_eq!(stage.next(), Some(1));
    assert_eq!(stage.next(), Some(0));
    assert_eq!(stage.next(), Some(0));
    assert_eq!(stage.next(), None);
    assert_eq!(stage.next(), None);
}

#[test]
fn upstream_hands_on_what_its_producer_yields() {
    let mut raw = Upstream::Raw(vec![1, 2].into_iter());
    assert_eq!(raw.next(), Some(1));
    assert_eq!(raw.next(), Some(2));
    assert_eq!(raw.next(), None);
    let mut padded =
        Upstream::Padded(Padded::with_padding(vec![1].into_iter(), 0, Padding::left(1)));
    assert_eq!(padded.next(), Some(0));
    assert_eq!(padded.next(), Some(1));
    assert_eq!(padded.next(), None);
}

#[test]
fn default_sentinels_of_the_item_types() {
    assert_eq!(WORD_SEP, "\u{2060}");
    assert_eq!(<&str as Pad>::symbol(), "\u{2060}");
    assert_eq!(<String as Pad>::symbol(), "\u{2060}".to_string());
    assert_eq!(<Vec<u8> as Pad>::symbol(), vec![0xE2u8, 0x81, 0xA0]);
    assert_eq!(<char as Pad>::symbol(), '\u{2060}');
}

#[test]
fn default_pad_count_is_size_minus_one() {
    assert_eq!(<&str as Pad>::len(1), 0);
    assert_eq!(<String as Pad>::len(2), 1);
    assert_eq!(<Vec<u8> as Pad>::len(4), 3);
    assert_eq!(<char as Pad>::len(10), 9);
}

#[test]
fn padding_policies() {
    assert_eq!(Padding::none(), Padding { left: 0, right: 0 });
    assert_eq!(Padding::left(3), Padding { left: 3, right: 0 });
    assert_eq!(Padding::right(4), Padding { left: 0, right: 4 });
    assert_eq!(Padding::both(1, 2), Padding { left: 1, right: 2 });
    assert_eq!(Padding::full(1), Padding { left: 0, right: 0 });
    assert_eq!(Padding::full(4), Padding { left: 3, right: 3 });
}

#[test]
fn padding_by_side_selector() {
    assert_eq!(Padding::on(Side::Neither, 5), Padding { left: 0, right: 0 });
    assert_eq!(Padding::on(Side::Left, 5), Padding { left: 5, right: 0 });
    assert_eq!(Padding::on(Side::Right, 5), Padding { left: 0, right: 5 });
    assert_eq!(Padding::on(Side::Both, 5), Padding { left: 5, right: 5 });
    assert_eq!(Padding::on(Side::Both, 0), Padding::none());
}

#[test]
fn bytes_are_padded_with_the_encoded_sentinel() {
    let source: Vec<Vec<u8>> = vec![b"ab".to_vec()];
    let stage = Padded::new(source.into_iter(), 2);
    assert_eq!(
        drain(stage),
        vec![vec![0xE2u8, 0x81, 0xA0], b"ab".to_vec(), vec![0xE2u8, 0x81, 0xA0]]
    );
}

#[test]
fn chars_are_padded_with_the_sentinel_char() {
    let stage = Padded::new("hi".chars(), 2);
    assert_eq!(drain(stage), vec!['\u{2060}', 'h', 'i', '\u{2060}']);
}

#[test]
fn relay_hands_items_on_and_starts_the_trailing_sentinels() {
    let mut stage = Padded::with_padding(std::iter::empty::<u8>(), 0, Padding::right(2));
    assert_eq!(stage.relay(Some(5)), Some(5));
    assert_eq!(stage.relay(Some(6)), Some(6));
    assert_eq!(stage.relay(None), Some(0));
    assert_eq!(stage.next(), Some(0));
    assert_eq!(stage.next(), None);
    assert_eq!(stage.next(), None);
}

#[test]
fn relay_without_trailing_sentinels_ends_at_once() {
    let mut stage = Padded::with_padding(vec![1u8, 2].into_iter(), 0, Padding::none());
    assert_eq!(stage.relay(None), None);
    // the end was recorded: the wrapped iterator is not pulled any more
    assert_eq!(stage.next(), None);
    assert_eq!(stage.next(), None);
}
