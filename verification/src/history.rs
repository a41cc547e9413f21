//! Bounded histories: a list that keeps only its newest entries.
use vstd::prelude::*;

verus! {

/// The newest `max` entries of `s`, in their order; all of `s` when it is no
/// longer than `max`.
pub open spec fn newest<T>(s: Seq<T>, max: nat) -> Seq<T> {
    if s.len() > max {
        s.subrange(s.len() - max, s.len() as int)
    } else {
        s
    }
}

/// Drops the oldest entries of `items` until at most `max_len` remain.
pub fn trim_vec<T>(items: &mut Vec<T>, max_len: usize)
    ensures
        final(items)@ == newest(old(items)@, max_len as nat),
{
    if items.len() > max_len {
        let extra = items.len() - max_len;
        let kept = items.split_off(extra);
        *items = kept;
    }
}

/// A trimmed history holds at most `max` entries, and exactly `max` when
/// there were more.
pub proof fn lemma_newest_len<T>(s: Seq<T>, max: nat)
    ensures
        newest(s, max).len() == if s.len() > max { max } else { s.len() },
        newest(s, max).len() <= max,
{
}

/// Trimming keeps the newest entries: each entry of the trimmed history is
/// the entry at the same distance from the end of the untrimmed one.
pub proof fn lemma_newest_is_suffix<T>(s: Seq<T>, max: nat)
    ensures
        forall|i: int|
            0 <= i < newest(s, max).len() ==> #[trigger] newest(s, max)[i] == s[s.len()
                - newest(s, max).len() + i],
{
}

/// Trimming twice to the same bound trims no more than once.
pub proof fn lemma_newest_idempotent<T>(s: Seq<T>, max: nat)
    ensures
        newest(newest(s, max), max) == newest(s, max),
{
}

/// Appending in batches and trimming after each batch keeps the same
/// entries as appending everything and trimming once.
pub proof fn lemma_newest_batches<T>(a: Seq<T>, b: Seq<T>, max: nat)
    ensures
        newest(newest(a, max) + b, max) == newest(a + b, max),
{
    let x = newest(a, max) + b;
    let y = a + b;
    if a.len() > max {
        assert(newest(x, max) =~= newest(y, max));
    } else {
        assert(x =~= y);
    }
}

} // verus!
