//! The padding stage: a source with sentinels before and after its tokens.

use crate::pad::Pad;
use crate::source::TokenSource;
use vstd::prelude::*;

verus! {

/// `k` copies of the sentinel `sym`.
pub open spec fn sentinels<V>(k: nat, sym: V) -> Seq<V> {
    Seq::new(k, |i: int| sym)
}

/// The tokens `s` with `p` sentinels before the first and `p` after the last.
pub open spec fn padded<V>(s: Seq<V>, p: nat, sym: V) -> Seq<V> {
    sentinels(p, sym) + s + sentinels(p, sym)
}

/// A source that hands out sentinels, then the tokens of another source
/// unchanged, then as many sentinels again.
#[derive(Debug)]
pub struct Padded<T: Pad, S: TokenSource<T>> {
    source: S,
    len: usize,
    symbol: T,
    remaining: usize,
    end: bool,
}

impl<T: Pad, S: TokenSource<T>> Padded<T, S> {
    /// Wraps `source` for windows of `n` tokens: the sentinel and the number
    /// of sentinels on each side are those of the token type.
    pub fn new(source: S, n: usize) -> (p: Self)
        requires
            n >= 1,
        ensures
            p.stream() == padded(source.stream(), T::spec_len(n as nat), T::spec_symbol()),
    {
        let l = T::len(n);
        Padded { source, len: l, symbol: T::symbol(), remaining: l, end: false }
    }

    /// The sentinels that follow the wrapped source's tokens: all of them
    /// until the source has run dry, none once the countdown has been set
    /// for them.
    closed spec fn trailing(&self) -> Seq<T::V> {
        if self.end {
            Seq::empty()
        } else {
            sentinels(self.len as nat, self.symbol@)
        }
    }

    /// Hands out one sentinel and counts it off.
    fn emit(&mut self) -> (t: T)
        requires
            old(self).remaining > 0,
        ensures
            t@ == old(self).symbol@,
            final(self).remaining == old(self).remaining - 1,
            final(self).source == old(self).source,
            final(self).len == old(self).len,
            final(self).symbol == old(self).symbol,
            final(self).end == old(self).end,
    {
        self.remaining -= 1;
        let t = self.symbol.clone();
        proof {
            T::lemma_clone_view(self.symbol, t);
        }
        t
    }
}

impl<T: Pad, S: TokenSource<T>> TokenSource<T> for Padded<T, S> {
    closed spec fn stream(&self) -> Seq<T::V> {
        sentinels(self.remaining as nat, self.symbol@) + self.source.stream() + self.trailing()
    }

    fn next(&mut self) -> (r: Option<T>) {
        if self.remaining > 0 {
            let t = self.emit();
            assert(self.stream() =~= old(self).stream().skip(1));
            return Some(t);
        }
        let result = self.source.next();
        if result.is_none() {
            if !self.end {
                self.end = true;
                self.remaining = self.len;
            }
            assert(self.stream() =~= old(self).stream());
            if self.remaining > 0 {
                let t = self.emit();
                assert(self.stream() =~= old(self).stream().skip(1));
                return Some(t);
            }
        } else {
            assert(self.stream() =~= old(self).stream().skip(1));
        }
        result
    }
}

} // verus!
