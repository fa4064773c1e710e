//! Response chunker: partitions a response string into an ordered sequence
//! of substrings, each at most `max_len` characters long, whose in-order
//! concatenation reproduces the input exactly.

use vstd::prelude::*;

verus! {

/// The greedy left-to-right partition of `s` into pieces of exactly
/// `max_len` characters, except possibly a shorter final piece.
pub open spec fn chunk_spec(s: Seq<char>, max_len: int) -> Seq<Seq<char>>
    recommends
        max_len > 0,
    decreases s.len(),
{
    if max_len <= 0 || s.len() == 0 {
        Seq::empty()
    } else if s.len() <= max_len {
        seq![s]
    } else {
        seq![s.subrange(0, max_len)] + chunk_spec(s.subrange(max_len, s.len() as int), max_len)
    }
}

/// Concatenating the chunks of `s` in order yields `s` back: the partition
/// loses, adds and reorders nothing.
pub proof fn lemma_chunk_round_trip(s: Seq<char>, max_len: int)
    requires
        max_len > 0,
    ensures
        chunk_spec(s, max_len).flatten() == s,
    decreases s.len(),
{
    broadcast use Seq::<_>::lemma_flatten_singleton;

    if s.len() == 0 {
        assert(chunk_spec(s, max_len).flatten() =~= s);
    } else if s.len() <= max_len {
        assert(chunk_spec(s, max_len).flatten() =~= s);
    } else {
        let head = s.subrange(0, max_len);
        let tail = s.subrange(max_len, s.len() as int);
        lemma_chunk_round_trip(tail, max_len);
        vstd::seq_lib::lemma_flatten_concat(seq![head], chunk_spec(tail, max_len));
        assert(seq![head] + chunk_spec(tail, max_len) == chunk_spec(s, max_len));
        assert(head + tail =~= s);
    }
}

/// Every chunk is at most `max_len` characters long, and every chunk but
/// the last is exactly `max_len` characters long.
pub proof fn lemma_chunk_bound(s: Seq<char>, max_len: int)
    requires
        max_len > 0,
    ensures
        forall|i: int|
            0 <= i < chunk_spec(s, max_len).len() ==> #[trigger] chunk_spec(s, max_len)[i].len()
                <= max_len,
        forall|i: int|
            0 <= i < chunk_spec(s, max_len).len() - 1 ==> #[trigger] chunk_spec(
                s,
                max_len,
            )[i].len() == max_len,
    decreases s.len(),
{
    if s.len() == 0 {
    } else if s.len() <= max_len {
        assert(chunk_spec(s, max_len) == seq![s]);
        assert(chunk_spec(s, max_len)[0] == s);
    } else {
        let head = s.subrange(0, max_len);
        let tail = s.subrange(max_len, s.len() as int);
        lemma_chunk_bound(tail, max_len);
        let cs = chunk_spec(s, max_len);
        assert(cs == seq![head] + chunk_spec(tail, max_len));
        assert forall|i: int| 0 <= i < cs.len() implies #[trigger] cs[i].len() <= max_len by {
            if i > 0 {
                assert(cs[i] == chunk_spec(tail, max_len)[i - 1]);
            }
        }
        assert forall|i: int| 0 <= i < cs.len() - 1 implies #[trigger] cs[i].len() == max_len by {
            if i > 0 {
                assert(cs[i] == chunk_spec(tail, max_len)[i - 1]);
            }
        }
    }
}

/// An empty input yields an empty sequence of chunks — zero chunks, not
/// one empty chunk.
pub proof fn lemma_chunk_empty(max_len: int)
    ensures
        chunk_spec(Seq::<char>::empty(), max_len) == Seq::<Seq<char>>::empty(),
{
}

/// The number of chunks: zero for an empty input, otherwise the length of
/// `s` divided by `max_len`, rounded up.
pub proof fn lemma_chunk_count(s: Seq<char>, max_len: int)
    requires
        max_len > 0,
    ensures
        chunk_spec(s, max_len).len() == (s.len() + max_len - 1) / max_len,
    decreases s.len(),
{
    let m = max_len;
    let n = s.len() as int;
    if n == 0 {
        vstd::arithmetic::div_mod::lemma_fundamental_div_mod_converse(n + m - 1, m, 0, m - 1);
    } else if n <= m {
        vstd::arithmetic::div_mod::lemma_fundamental_div_mod_converse(n + m - 1, m, 1, n - 1);
    } else {
        let tail = s.subrange(m, n);
        lemma_chunk_count(tail, m);
        vstd::arithmetic::div_mod::lemma_fundamental_div_mod(n - 1, m);
        vstd::arithmetic::div_mod::lemma_mod_pos_bound(n - 1, m);
        let q = (n - 1) / m;
        let r = (n - 1) % m;
        assert((q + 1) * m == m * q + m) by (nonlinear_arith);
        vstd::arithmetic::div_mod::lemma_fundamental_div_mod_converse(n + m - 1, m, q + 1, r);
        assert(tail.len() + m - 1 == n - 1);
    }
}

/// Splits `text` into chunks of at most `max_len` characters, greedily from
/// the left, so that the chunks concatenate back to `text` in order.  An
/// empty input yields no chunks at all.
pub fn chunk(text: &str, max_len: usize) -> (r: Vec<String>)
    requires
        max_len > 0,
    ensures
        r.deep_view() == chunk_spec(text@, max_len as int),
{
    let len = text.unicode_len();
    let mut r: Vec<String> = Vec::new();
    let mut i: usize = 0;
    proof {
        assert(text@.subrange(0, len as int) =~= text@);
        assert(r.deep_view() =~= Seq::<Seq<char>>::empty());
        assert(r.deep_view() + chunk_spec(text@, max_len as int) =~= chunk_spec(
            text@,
            max_len as int,
        ));
    }
    while i < len
        invariant
            max_len > 0,
            i <= len,
            len == text@.len(),
            chunk_spec(text@, max_len as int) =~= r.deep_view() + chunk_spec(
                text@.subrange(i as int, len as int),
                max_len as int,
            ),
        decreases len - i,
    {
        let k = if len - i >= max_len {
            max_len
        } else {
            len - i
        };
        let piece = text.substring_char(i, i + k);
        let ghost rest = text@.subrange(i as int, len as int);
        r.push(piece.to_owned());
        proof {
            assert(rest.subrange(0, k as int) =~= text@.subrange(i as int, (i + k) as int));
            assert(rest.subrange(k as int, rest.len() as int) =~= text@.subrange(
                (i + k) as int,
                len as int,
            ));
            if rest.len() <= max_len {
                assert(chunk_spec(rest, max_len as int) == seq![rest]);
                assert(rest =~= text@.subrange(i as int, (i + k) as int));
            }
        }
        i = i + k;
    }
    proof {
        assert(text@.subrange(i as int, len as int) =~= Seq::<char>::empty());
        assert(r.deep_view() =~= r.deep_view() + Seq::<Seq<char>>::empty());
    }
    r
}

} // verus!
