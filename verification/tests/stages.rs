use ngrams::{Ngrams, NgramsError, Pad, Padded, TokenSource};
use std::collections::VecDeque;

fn drain<T: Pad, S: TokenSource<T>>(mut source: S) -> Vec<T> {
    let mut out = Vec::new();
    while let Some(t) = source.next() {
        out.push(t);
    }
    assert!(source.next().is_none());
    out
}

#[test]
fn test_symbols() {
    assert_eq!(<char as Pad>::symbol(), '\u{2060}');
    assert_eq!(<&str as Pad>::symbol(), "\u{2060}");
    assert_eq!(<String as Pad>::symbol(), "\u{2060}".to_owned());
    assert_eq!(<Vec<u8> as Pad>::symbol(), vec![0xE2u8, 0x81, 0xA0]);
    assert_eq!(
        <Vec<u8> as Pad>::symbol(),
        "\u{2060}".to_owned().into_bytes()
    );
}

#[test]
fn test_pad_lengths() {
    assert_eq!(<char as Pad>::len(1), 0);
    assert_eq!(<char as Pad>::len(2), 1);
    assert_eq!(<&str as Pad>::len(4), 3);
    assert_eq!(<String as Pad>::len(7), 6);
    assert_eq!(<Vec<u8> as Pad>::len(usize::MAX), usize::MAX - 1);
}

#[test]
fn test_queue_is_a_source() {
    let tokens: VecDeque<char> = "abc".chars().collect();
    assert_eq!(drain(tokens), vec!['a', 'b', 'c']);
    let mut tokens: VecDeque<&str> = "x y".split(' ').collect();
    assert_eq!(TokenSource::next(&mut tokens), Some("x"));
    assert_eq!(TokenSource::next(&mut tokens), Some("y"));
    assert_eq!(TokenSource::next(&mut tokens), None);
    assert_eq!(TokenSource::next(&mut tokens), None);
}

#[test]
fn test_padded_stream() {
    let tokens: VecDeque<&str> = "one two three".split(' ').collect();
    let stream = drain(Padded::new(tokens, 3));
    assert_eq!(
        stream,
        vec!["\u{2060}", "\u{2060}", "one", "two", "three", "\u{2060}", "\u{2060}"]
    );
}

#[test]
fn test_padding_stands_at_the_ends_only() {
    let text: Vec<char> = "interior".chars().collect();
    for n in 1usize..6 {
        let tokens: VecDeque<char> = text.iter().copied().collect();
        let stream = drain(Padded::new(tokens, n));
        assert_eq!(stream.len(), text.len() + 2 * (n - 1));
        assert!(stream[..n - 1].iter().all(|c| *c == '\u{2060}'));
        assert_eq!(stream[n - 1..n - 1 + text.len()], text[..]);
        assert!(stream[n - 1 + text.len()..].iter().all(|c| *c == '\u{2060}'));
    }
}

#[test]
fn test_padded_without_sentinels_passes_through() {
    let tokens: VecDeque<char> = "abc".chars().collect();
    let mut stage = Padded::new(tokens, 1);
    assert_eq!(stage.next(), Some('a'));
    assert_eq!(stage.next(), Some('b'));
    assert_eq!(stage.next(), Some('c'));
    assert_eq!(stage.next(), None);
    assert_eq!(stage.next(), None);
}

#[test]
fn test_padded_empty_source() {
    let tokens: VecDeque<String> = VecDeque::new();
    let stream = drain(Padded::new(tokens, 2));
    assert_eq!(stream, vec!["\u{2060}".to_owned(), "\u{2060}".to_owned()]);
    let tokens: VecDeque<String> = VecDeque::new();
    assert_eq!(drain(Padded::new(tokens, 1)), Vec::<String>::new());
}

#[test]
fn test_padded_stays_exhausted() {
    let tokens: VecDeque<char> = "a".chars().collect();
    let mut stage = Padded::new(tokens, 2);
    assert_eq!(stage.next(), Some('\u{2060}'));
    assert_eq!(stage.next(), Some('a'));
    assert_eq!(stage.next(), Some('\u{2060}'));
    for _ in 0..5 {
        assert_eq!(stage.next(), None);
    }
}

#[test]
fn test_window_size_zero_is_turned_down() {
    let tokens: VecDeque<char> = "abc".chars().collect();
    match Ngrams::try_new(tokens, 0) {
        Err(e) => assert_eq!(e, NgramsError::InvalidWindowSize),
        Ok(_) => panic!("a window of no token was accepted"),
    }
}

#[test]
fn test_checked_construction() {
    let tokens: VecDeque<char> = "abc".chars().collect();
    match Ngrams::try_new(tokens, 2) {
        Ok(grams) => assert_eq!(grams.collect(), vec![vec!['a', 'b'], vec!['b', 'c']]),
        Err(_) => panic!("a window of two tokens was turned down"),
    }
}

#[test]
fn test_insufficient_input() {
    let tokens: VecDeque<char> = "ab".chars().collect();
    let mut grams = Ngrams::new(tokens, 4);
    assert_eq!(grams.fill_memory(), Err(NgramsError::InsufficientInput));
    assert_eq!(grams.fill_memory(), Err(NgramsError::InsufficientInput));
    assert_eq!(grams.next(), None);
    assert_eq!(grams.next(), None);
}

#[test]
fn test_fill_memory_with_just_enough() {
    let tokens: VecDeque<char> = "abc".chars().collect();
    let mut grams = Ngrams::new(tokens, 4);
    assert_eq!(grams.fill_memory(), Ok(()));
    assert_eq!(grams.next(), None);
    assert_eq!(grams.fill_memory(), Ok(()));
}

#[test]
fn test_fill_memory_takes_no_window() {
    let tokens: VecDeque<char> = "abcd".chars().collect();
    let mut grams = Ngrams::new(tokens, 3);
    assert_eq!(grams.fill_memory(), Ok(()));
    assert_eq!(grams.fill_memory(), Ok(()));
    assert_eq!(grams.next(), Some(vec!['a', 'b', 'c']));
    assert_eq!(grams.fill_memory(), Ok(()));
    assert_eq!(grams.next(), Some(vec!['b', 'c', 'd']));
    assert_eq!(grams.next(), None);
}

#[test]
fn test_padding_makes_short_input_sufficient() {
    let tokens: VecDeque<char> = "a".chars().collect();
    let mut grams = Ngrams::new(tokens, 4).pad();
    assert_eq!(grams.fill_memory(), Ok(()));
    assert_eq!(
        grams.collect(),
        vec![
            vec!['\u{2060}', '\u{2060}', '\u{2060}', 'a'],
            vec!['\u{2060}', '\u{2060}', 'a', '\u{2060}'],
            vec!['\u{2060}', 'a', '\u{2060}', '\u{2060}'],
            vec!['a', '\u{2060}', '\u{2060}', '\u{2060}'],
        ]
    );
}

#[test]
fn test_exhaustion_is_reported() {
    let tokens: VecDeque<char> = "abc".chars().collect();
    let mut grams = Ngrams::new(tokens, 2);
    assert!(!grams.is_exhausted());
    assert_eq!(grams.next(), Some(vec!['a', 'b']));
    assert!(!grams.is_exhausted());
    assert_eq!(grams.next(), Some(vec!['b', 'c']));
    assert!(!grams.is_exhausted());
    assert_eq!(grams.next(), None);
    assert!(grams.is_exhausted());
    assert_eq!(grams.next(), None);
    assert!(grams.is_exhausted());
}

#[test]
fn test_insufficient_input_exhausts() {
    let tokens: VecDeque<char> = "a".chars().collect();
    let mut grams = Ngrams::new(tokens, 3);
    assert!(!grams.is_exhausted());
    assert_eq!(grams.fill_memory(), Err(NgramsError::InsufficientInput));
    assert!(grams.is_exhausted());
    assert_eq!(grams.collect(), Vec::<Vec<char>>::new());
}

#[test]
fn test_largest_window_size() {
    let tokens: VecDeque<char> = "abc".chars().collect();
    let mut grams = Ngrams::new(tokens, usize::MAX);
    assert_eq!(grams.fill_memory(), Err(NgramsError::InsufficientInput));
    assert_eq!(grams.next(), None);
}

#[test]
fn test_padding_after_exhaustion_starts_anew() {
    let tokens: VecDeque<char> = "a".chars().collect();
    let mut grams = Ngrams::new(tokens, 2);
    assert_eq!(grams.next(), None);
    assert!(grams.is_exhausted());
    let mut padded = grams.pad();
    assert!(!padded.is_exhausted());
    assert_eq!(padded.next(), Some(vec!['a', '\u{2060}']));
    assert_eq!(padded.next(), Some(vec!['\u{2060}', '\u{2060}']));
    assert_eq!(padded.next(), None);
    assert!(padded.is_exhausted());
}
