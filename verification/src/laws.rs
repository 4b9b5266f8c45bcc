//! What holds of windows and of padding, whatever the tokens are.

use crate::padded::{padded, sentinels};
use crate::windows::{window_at, window_count, windows};
use vstd::prelude::*;

verus! {

/// Every window holds exactly `n` tokens, and the window at position `i`
/// holds the tokens at positions `i` to `i + n - 1`, in order.
pub proof fn lemma_window_contents<V>(s: Seq<V>, n: nat, i: int)
    requires
        0 <= i < windows(s, n).len(),
    ensures
        windows(s, n)[i].len() == n,
        forall|j: int| 0 <= j < n ==> windows(s, n)[i][j] == s[i + j],
{
}

/// A sequence of `L` tokens with `L >= n - 1` has `L - n + 1` windows of `n`
/// tokens: none when `L` is `n - 1`.
pub proof fn lemma_window_count_unpadded<V>(s: Seq<V>, n: nat)
    requires
        n >= 1,
        s.len() >= n - 1,
    ensures
        windows(s, n).len() == s.len() - n + 1,
{
}

/// `L` tokens padded with `n - 1` sentinels on each side are `L + 2(n - 1)`
/// tokens and have `L + n - 1` windows of `n` tokens.
pub proof fn lemma_window_count_padded<V>(s: Seq<V>, n: nat, sym: V)
    requires
        n >= 1,
    ensures
        padded(s, (n - 1) as nat, sym).len() == s.len() + 2 * (n - 1),
        windows(padded(s, (n - 1) as nat, sym), n).len() == s.len() + n - 1,
{
}

/// Two windows that follow each other overlap in `n - 1` tokens: the first
/// one without its first token is the second one without its last.
pub proof fn lemma_windows_overlap<V>(s: Seq<V>, n: nat, i: int)
    requires
        n >= 1,
        0 <= i,
        i + 1 < windows(s, n).len(),
    ensures
        windows(s, n)[i].skip(1) == windows(s, n)[i + 1].take(n - 1),
{
    assert(windows(s, n)[i].skip(1) =~= windows(s, n)[i + 1].take(n - 1));
}

/// In a padded sequence the sentinels stand in the first `p` and the last
/// `p` places only, and the tokens between them are the source's own,
/// unchanged and in order.
pub proof fn lemma_padding_at_ends_only<V>(s: Seq<V>, p: nat, sym: V)
    ensures
        padded(s, p, sym).len() == s.len() + 2 * p,
        padded(s, p, sym).subrange(0, p as int) == sentinels(p, sym),
        padded(s, p, sym).subrange(p as int, (p + s.len()) as int) == s,
        padded(s, p, sym).subrange((p + s.len()) as int, (s.len() + 2 * p) as int) == sentinels(p, sym),
        forall|i: int| 0 <= i < p ==> padded(s, p, sym)[i] == sym,
        forall|i: int| p <= i < p + s.len() ==> padded(s, p, sym)[i] == s[i - p],
        forall|i: int| p + s.len() <= i < s.len() + 2 * p ==> padded(s, p, sym)[i] == sym,
{
    let q = padded(s, p, sym);
    assert(q.subrange(0, p as int) =~= sentinels(p, sym));
    assert(q.subrange(p as int, (p + s.len()) as int) =~= s);
    assert(q.subrange((p + s.len()) as int, (s.len() + 2 * p) as int) =~= sentinels(p, sym));
}

/// A sequence of exactly `n` tokens has one window of `n` tokens: itself.
pub proof fn lemma_single_window<V>(s: Seq<V>, n: nat)
    requires
        n >= 1,
        s.len() == n,
    ensures
        windows(s, n) == seq![s],
{
    assert(windows(s, n).len() == 1);
    assert(windows(s, n)[0] =~= s);
    assert(windows(s, n) =~= seq![s]);
}

/// The windows of one token are the tokens themselves, one window each.
pub proof fn lemma_windows_of_one<V>(s: Seq<V>)
    ensures
        windows(s, 1).len() == s.len(),
        forall|i: int| 0 <= i < s.len() ==> windows(s, 1)[i] == seq![s[i]],
{
    assert forall|i: int| 0 <= i < s.len() implies windows(s, 1)[i] == seq![s[i]] by {
        assert(windows(s, 1)[i] =~= seq![s[i]]);
    }
}

/// Padding with no sentinel changes nothing, so the windows are those of
/// the tokens alone.
pub proof fn lemma_no_padding<V>(s: Seq<V>, n: nat, sym: V)
    ensures
        padded(s, 0, sym) == s,
        windows(padded(s, 0, sym), n) == windows(s, n),
{
    assert(padded(s, 0, sym) =~= s);
}

/// Once fewer tokens than a window are left, there is no window: with the
/// tokens unchanged a later pull cannot produce one either.
pub proof fn lemma_no_window_left<V>(s: Seq<V>, n: nat)
    requires
        s.len() < n,
    ensures
        windows(s, n) == Seq::<Seq<V>>::empty(),
{
    assert(windows(s, n) =~= Seq::<Seq<V>>::empty());
}

/// Taking the first window off leaves the windows of the tokens without
/// their first: pulling one window at a time yields all of them in order.
pub proof fn lemma_windows_step<V>(s: Seq<V>, n: nat)
    requires
        n >= 1,
        s.len() >= n,
    ensures
        windows(s, n) == seq![window_at(s, n, 0)] + windows(s.skip(1), n),
{
    let rest = windows(s.skip(1), n);
    assert(window_count(s.len(), n) == 1 + window_count(s.skip(1).len(), n));
    assert forall|i: int| 0 <= i < rest.len() implies rest[i] == windows(s, n)[i + 1] by {
        assert(rest[i] =~= windows(s, n)[i + 1]);
    }
    assert(windows(s, n) =~= seq![window_at(s, n, 0)] + rest);
}

} // verus!
