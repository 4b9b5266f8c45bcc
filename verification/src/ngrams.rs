//! The windowing stage: every run of `n` consecutive tokens of a source.

use crate::pad::Pad;
use crate::padded::{padded, Padded};
use crate::source::{token_views, TokenSource};
use crate::windows::{window_at, window_count, window_views, windows};
use std::collections::VecDeque;
use vstd::prelude::*;

verus! {

/// Why no window can be produced.
#[derive(Debug, Clone, Copy, PartialEq, Eq, Structural)]
pub enum NgramsError {
    /// A window must hold at least one token.
    InvalidWindowSize,
    /// The tokens, sentinels included, do not fill the lookback buffer, so
    /// not even a first window can be started.
    InsufficientInput,
}

/// Lets a source be turned into its windows by a method call on the source.
pub trait Ngram<T: Pad>: TokenSource<T> {
    /// The windowing stage over this source, for windows of `n` tokens.
    fn ngrams(self, n: usize) -> (r: Ngrams<T, Self>)
        requires
            n >= 1,
        ensures
            r.wf(),
            r.window_size() == n,
            !r.is_padded(),
            !r.exhausted(),
            r.buffered() == Seq::<T::V>::empty(),
            r.upcoming() == self.stream(),
    ;
}

impl<T: Pad, S: TokenSource<T>> Ngram<T> for S {
    fn ngrams(self, n: usize) -> (r: Ngrams<T, Self>) {
        Ngrams::new(self, n)
    }
}

/// Produces the windows of `n` tokens of a source, one per pull, sliding by
/// one token each time. It keeps the last `n - 1` tokens it has seen and
/// nothing else.
#[derive(Debug)]
pub struct Ngrams<T: Pad, S: TokenSource<T>> {
    source: S,
    num: usize,
    memsize: usize,
    memory: VecDeque<T>,
    pad: bool,
    done: bool,
}

impl<T: Pad, S: TokenSource<T>> Ngrams<T, S> {
    /// The stage is in order: a window holds at least one token, the
    /// lookback buffer never holds as many tokens as a window, and once a
    /// pull has found no window the source is dry.
    pub closed spec fn wf(&self) -> bool {
        &&& self.num >= 1
        &&& self.memsize == self.num - 1
        &&& self.memory@.len() <= self.memsize
        &&& self.done ==> self.source.stream().len() == 0 && self.pending().len() < self.num
    }

    /// The number of tokens in a window.
    pub closed spec fn window_size(&self) -> nat {
        self.num as nat
    }

    /// Whether the source has been wrapped in a padding stage.
    pub closed spec fn is_padded(&self) -> bool {
        self.pad
    }

    /// Whether a pull has found that no window is left. From then on no
    /// pull produces one.
    pub closed spec fn exhausted(&self) -> bool {
        self.done
    }

    /// The tokens in the lookback buffer, oldest first.
    pub closed spec fn buffered(&self) -> Seq<T::V> {
        token_views(self.memory@)
    }

    /// The tokens that the source has not handed out yet.
    pub closed spec fn upcoming(&self) -> Seq<T::V> {
        self.source.stream()
    }

    /// The tokens from which the windows still to come are cut: the
    /// buffered ones, then those of the source.
    pub open spec fn pending(&self) -> Seq<T::V> {
        self.buffered() + self.upcoming()
    }

    /// The windowing stage over `source`, for windows of `n` tokens. The
    /// source is expected to be tokenized already.
    pub fn new(source: S, n: usize) -> (r: Self)
        requires
            n >= 1,
        ensures
            r.wf(),
            r.window_size() == n,
            !r.is_padded(),
            !r.exhausted(),
            r.buffered() == Seq::<T::V>::empty(),
            r.upcoming() == source.stream(),
    {
        let memsize = n - 1;
        let r = Ngrams {
            source,
            num: n,
            memsize,
            memory: VecDeque::new(),
            pad: false,
            done: false,
        };
        assert(r.buffered() =~= Seq::<T::V>::empty());
        r
    }

    /// As [`Ngrams::new`], for a window size that has not been checked: a
    /// size of zero is turned down here, before any token is pulled.
    pub fn try_new(source: S, n: usize) -> (r: Result<Self, NgramsError>)
        ensures
            match r {
                Ok(g) => {
                    &&& n >= 1
                    &&& g.wf()
                    &&& g.window_size() == n
                    &&& !g.is_padded()
                    &&& !g.exhausted()
                    &&& g.buffered() == Seq::<T::V>::empty()
                    &&& g.upcoming() == source.stream()
                },
                Err(e) => n == 0 && e == NgramsError::InvalidWindowSize,
            },
    {
        if n == 0 {
            Err(NgramsError::InvalidWindowSize)
        } else {
            Ok(Ngrams::new(source, n))
        }
    }

    /// Puts sentinels before the first and after the last token that the
    /// source has still to hand out, as many on each side as the token type
    /// asks for. Meant to be called right after construction, before any
    /// pull; tokens already in the lookback buffer stay where they are.
    pub fn pad(self) -> (r: Ngrams<T, Padded<T, S>>)
        requires
            self.wf(),
        ensures
            r.wf(),
            r.window_size() == self.window_size(),
            r.is_padded(),
            !r.exhausted(),
            r.buffered() == self.buffered(),
            r.upcoming() == padded(
                self.upcoming(),
                T::spec_len(self.window_size()),
                T::spec_symbol(),
            ),
    {
        Ngrams {
            source: Padded::new(self.source, self.num),
            num: self.num,
            memsize: self.memsize,
            memory: self.memory,
            pad: true,
            done: false,
        }
    }

    /// Pulls tokens into the lookback buffer until it holds one token less
    /// than a window. Fails when the source runs dry before that: then every
    /// token is in the buffer and no window will ever be produced.
    pub fn fill_memory(&mut self) -> (r: Result<(), NgramsError>)
        requires
            old(self).wf(),
        ensures
            final(self).wf(),
            final(self).window_size() == old(self).window_size(),
            final(self).is_padded() == old(self).is_padded(),
            final(self).pending() == old(self).pending(),
            final(self).exhausted() == (old(self).exhausted() || r is Err),
            match r {
                Ok(_) => {
                    &&& old(self).pending().len() >= old(self).window_size() - 1
                    &&& final(self).buffered().len() == old(self).window_size() - 1
                },
                Err(e) => {
                    &&& e == NgramsError::InsufficientInput
                    &&& old(self).pending().len() < old(self).window_size() - 1
                    &&& final(self).upcoming().len() == 0
                },
            },
    {
        while self.memory.len() < self.memsize
            invariant
                self.num == old(self).num,
                self.memsize == old(self).memsize,
                self.memsize == self.num - 1,
                self.pad == old(self).pad,
                self.done == old(self).done,
                self.memory@.len() <= self.memsize,
                self.pending() == old(self).pending(),
            decreases self.memsize - self.memory@.len(),
        {
            let ghost before = *self;
            match self.source.next() {
                Some(a) => {
                    self.memory.push_back(a);
                    assert(self.pending() =~= before.pending());
                },
                None => {
                    self.done = true;
                    return Err(NgramsError::InsufficientInput);
                },
            }
        }
        Ok(())
    }

    /// Produces the next window: the tokens of the lookback buffer, oldest
    /// first, and one new token from the source. The buffer then drops its
    /// oldest token and takes the new one. `None` means that fewer tokens
    /// than a window are left; that stays so on every later pull.
    pub fn next(&mut self) -> (r: Option<Vec<T>>)
        requires
            old(self).wf(),
        ensures
            final(self).wf(),
            final(self).window_size() == old(self).window_size(),
            final(self).is_padded() == old(self).is_padded(),
            final(self).buffered().len() <= old(self).window_size() - 1,
            final(self).exhausted() == (r is None),
            match r {
                Some(w) => {
                    &&& old(self).pending().len() >= old(self).window_size()
                    &&& token_views(w@) == window_at(
                        old(self).pending(),
                        old(self).window_size(),
                        0,
                    )
                    &&& final(self).pending() == old(self).pending().skip(1)
                    &&& final(self).buffered().len() == old(self).window_size() - 1
                },
                None => {
                    &&& old(self).pending().len() < old(self).window_size()
                    &&& final(self).pending() == old(self).pending()
                    &&& final(self).upcoming().len() == 0
                },
            },
    {
        if self.done || self.fill_memory().is_err() {
            return None;
        }
        match self.source.next() {
            None => {
                self.done = true;
                None
            },
            Some(n) => {
                let ghost pulled = *self;
                let mut result: Vec<T> = Vec::with_capacity(self.num);
                let mut i: usize = 0;
                while i < self.memory.len()
                    invariant
                        *self == pulled,
                        i <= self.memory@.len(),
                        result@.len() == i,
                        forall|j: int| 0 <= j < i ==> result@[j]@ == self.memory@[j]@,
                    decreases self.memory@.len() - i,
                {
                    let elem = self.memory[i].clone();
                    proof {
                        T::lemma_clone_view(self.memory@[i as int], elem);
                    }
                    result.push(elem);
                    i += 1;
                }
                let last = n.clone();
                proof {
                    T::lemma_clone_view(n, last);
                }
                result.push(last);
                let _ = self.memory.pop_front();
                if self.memsize > 0 {
                    self.memory.push_back(n);
                }
                proof {
                    let p = old(self).pending();
                    assert(token_views(result@) =~= window_at(p, old(self).window_size(), 0));
                    assert(self.pending() =~= p.skip(1));
                }
                Some(result)
            },
        }
    }

    /// Whether a pull has found that no window is left.
    pub fn is_exhausted(&self) -> (r: bool)
        requires
            self.wf(),
        ensures
            r == self.exhausted(),
            r ==> self.pending().len() < self.window_size(),
    {
        self.done
    }

    /// Produces every window that is left, in order.
    pub fn collect(self) -> (r: Vec<Vec<T>>)
        requires
            self.wf(),
        ensures
            r@.len() == window_count(self.pending().len(), self.window_size()),
            forall|i: int| 0 <= i < r@.len() ==> (#[trigger] r@[i])@.len() == self.window_size(),
            window_views(r@) == windows(self.pending(), self.window_size()),
    {
        let ghost all = self.pending();
        let ghost n = self.window_size();
        let mut rest = self;
        let mut out: Vec<Vec<T>> = Vec::new();
        loop
            invariant
                rest.wf(),
                rest.window_size() == n,
                out@.len() <= window_count(all.len(), n),
                rest.pending() == all.skip(out@.len() as int),
                forall|k: int|
                    0 <= k < out@.len() ==> token_views(#[trigger] out@[k]@) == window_at(
                        all,
                        n,
                        k,
                    ),
            ensures
                out@.len() == window_count(all.len(), n),
            decreases rest.pending().len(),
        {
            match rest.next() {
                Some(w) => {
                    out.push(w);
                },
                None => {
                    break ;
                },
            }
        }
        assert(window_views(out@) =~= windows(all, n));
        out
    }
}

} // verus!
