//! Token sources: anything that hands out tokens one at a time, front first.

use crate::pad::Pad;
use std::collections::VecDeque;
use vstd::prelude::*;

verus! {

/// The tokens of `s`, each by its view.
pub open spec fn token_views<T: Pad>(s: Seq<T>) -> Seq<T::V> {
    s.map_values(|t: T| t@)
}

/// A forward-only, single-pass supply of tokens.
///
/// `stream` is everything the source will still hand out. A pull takes the
/// front token off it; once the stream is empty every pull gives `None`.
pub trait TokenSource<T: Pad>: Sized {
    /// The tokens still to come, each by its view, the next one first.
    spec fn stream(&self) -> Seq<T::V>;

    /// Pulls the next token, or `None` when no token is left.
    fn next(&mut self) -> (r: Option<T>)
        ensures
            match r {
                Some(t) => {
                    &&& old(self).stream().len() > 0
                    &&& t@ == old(self).stream()[0]
                    &&& final(self).stream() == old(self).stream().skip(1)
                },
                None => {
                    &&& old(self).stream().len() == 0
                    &&& final(self).stream() == old(self).stream()
                },
            },
    ;
}

/// A queue of tokens is a source: it hands out its front token.
impl<T: Pad> TokenSource<T> for VecDeque<T> {
    open spec fn stream(&self) -> Seq<T::V> {
        token_views(self@)
    }

    fn next(&mut self) -> (r: Option<T>) {
        let r = self.pop_front();
        proof {
            if r is Some {
                assert(token_views(self@) =~= token_views(old(self)@).skip(1));
            }
        }
        r
    }
}

} // verus!
