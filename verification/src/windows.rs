//! What the windows of a sequence of tokens are.

use crate::pad::Pad;
use crate::source::token_views;
use vstd::prelude::*;

verus! {

/// How many windows of `n` tokens a sequence of `len` tokens has: one for
/// each position at which `n` tokens are left, none if it is shorter.
pub open spec fn window_count(len: nat, n: nat) -> nat {
    if len >= n {
        (len - n + 1) as nat
    } else {
        0
    }
}

/// The window of `n` tokens that starts at position `i` of `s`.
pub open spec fn window_at<V>(s: Seq<V>, n: nat, i: int) -> Seq<V> {
    s.subrange(i, i + n)
}

/// All windows of `n` tokens of `s`, by their starting position.
pub open spec fn windows<V>(s: Seq<V>, n: nat) -> Seq<Seq<V>> {
    Seq::new(window_count(s.len(), n), |i: int| window_at(s, n, i))
}

/// Windows as they are handed out, each token by its view.
pub open spec fn window_views<T: Pad>(ws: Seq<Vec<T>>) -> Seq<Seq<T::V>> {
    ws.map_values(|w: Vec<T>| token_views(w@))
}

} // verus!
