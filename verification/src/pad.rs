//! The sentinel with which a token type is padded.

use vstd::prelude::*;

verus! {

/// The code point of the sentinel: U+2060, the word joiner.
pub open spec fn word_sep() -> char {
    '\u{2060}'
}

/// The sentinel as text: the word joiner alone.
pub open spec fn word_sep_text() -> Seq<char> {
    seq![word_sep()]
}

/// The sentinel as bytes: the UTF-8 encoding of the word joiner.
pub open spec fn word_sep_bytes() -> Seq<u8> {
    seq![0xE2u8, 0x81u8, 0xA0u8]
}

/// A token type that can be padded: it names its sentinel and says how many
/// sentinels go on each side of the tokens.
///
/// Tokens are told apart by their view: a window "holds" a token of the
/// source when it holds a value with the same view.
pub trait Pad: Sized + Clone + View {
    /// The view of the sentinel.
    spec fn spec_symbol() -> Self::V;

    /// The number of sentinels on each side for windows of `n` tokens:
    /// `n - 1` unless the token type says otherwise. Any number is allowed,
    /// also one above `n - 1`; the outermost windows then hold sentinels
    /// only.
    open spec fn spec_len(n: nat) -> nat {
        (n - 1) as nat
    }

    /// The sentinel that stands before the first and after the last token.
    fn symbol() -> (s: Self)
        ensures
            s@ == Self::spec_symbol(),
    ;

    /// How many sentinels to put on each side for windows of `n` tokens.
    fn len(n: usize) -> (l: usize)
        requires
            n >= 1,
        ensures
            l == Self::spec_len(n as nat),
    ;

    /// A clone of a token is the same token.
    proof fn lemma_clone_view(a: Self, b: Self)
        requires
            cloned(a, b),
        ensures
            a@ == b@,
    ;
}

impl Pad for char {
    open spec fn spec_symbol() -> char {
        word_sep()
    }

    fn symbol() -> (s: Self) {
        '\u{2060}'
    }

    fn len(n: usize) -> (l: usize) {
        n - 1
    }

    proof fn lemma_clone_view(a: Self, b: Self) {
    }
}

impl<'a> Pad for &'a str {
    open spec fn spec_symbol() -> Seq<char> {
        word_sep_text()
    }

    fn symbol() -> (s: Self) {
        proof {
            reveal_strlit("\u{2060}");
        }
        let s = "\u{2060}";
        assert(s@ =~= word_sep_text());
        s
    }

    fn len(n: usize) -> (l: usize) {
        n - 1
    }

    proof fn lemma_clone_view(a: Self, b: Self) {
    }
}

impl Pad for String {
    open spec fn spec_symbol() -> Seq<char> {
        word_sep_text()
    }

    fn symbol() -> (s: Self) {
        <&str as Pad>::symbol().to_owned()
    }

    fn len(n: usize) -> (l: usize) {
        n - 1
    }

    proof fn lemma_clone_view(a: Self, b: Self) {
    }
}

impl Pad for Vec<u8> {
    open spec fn spec_symbol() -> Seq<u8> {
        word_sep_bytes()
    }

    fn symbol() -> (s: Self) {
        let mut s: Vec<u8> = Vec::with_capacity(3);
        s.push(0xE2u8);
        s.push(0x81u8);
        s.push(0xA0u8);
        assert(s@ =~= word_sep_bytes());
        s
    }

    fn len(n: usize) -> (l: usize) {
        n - 1
    }

    proof fn lemma_clone_view(a: Self, b: Self) {
        if a != b {
            assert(a@ =~= b@) by {
                assert forall|i: int| 0 <= i < a.len() implies a@[i] == b@[i] by {
                    assert(cloned::<u8>(a[i], b[i]));
                }
            }
        }
    }
}

} // verus!
