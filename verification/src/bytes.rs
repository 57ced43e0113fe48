//! Byte-sequence utilities the parser and router are built on:
//! splitting on a separator, prefix tests, stripping, and decimal
//! formatting, each verified against a direct mathematical model.

use vstd::prelude::*;

verus! {

/// The separator `sep` occurs in `s` at position `i`.
pub open spec fn is_sep_at(s: Seq<u8>, sep: Seq<u8>, i: int) -> bool {
    0 <= i && i + sep.len() <= s.len() && s.subrange(i, i + sep.len() as int) == sep
}

/// Greedy left-to-right split of `s` on the separator `sep`.
/// The result always has at least one piece; a separator at the very
/// start or end contributes an empty piece, as does an empty `s`.
pub open spec fn spec_split(s: Seq<u8>, sep: Seq<u8>) -> Seq<Seq<u8>>
    decreases s.len(),
{
    if sep.len() == 0 {
        seq![s]
    } else if s.len() >= sep.len() && s.take(sep.len() as int) == sep {
        seq![Seq::<u8>::empty()] + spec_split(s.skip(sep.len() as int), sep)
    } else if s.len() > 0 {
        let rest = spec_split(s.skip(1), sep);
        seq![seq![s[0]] + rest[0]] + rest.skip(1)
    } else {
        seq![Seq::<u8>::empty()]
    }
}

/// A split never yields an empty sequence of pieces.
pub proof fn lemma_split_len(s: Seq<u8>, sep: Seq<u8>)
    ensures
        spec_split(s, sep).len() >= 1,
    decreases s.len(),
{
    if sep.len() == 0 {
    } else if s.len() >= sep.len() && s.take(sep.len() as int) == sep {
        lemma_split_len(s.skip(sep.len() as int), sep);
    } else if s.len() > 0 {
        lemma_split_len(s.skip(1), sep);
    }
}

/// A separator occurrence in a suffix of `s` is one in `s`, shifted.
pub proof fn lemma_sep_skip(s: Seq<u8>, sep: Seq<u8>, d: int, k: int)
    requires
        0 <= d <= s.len(),
        0 <= k,
    ensures
        is_sep_at(s.skip(d), sep, k) == is_sep_at(s, sep, k + d),
{
    if k + sep.len() <= s.skip(d).len() {
        assert(s.skip(d).subrange(k, k + sep.len() as int) =~= s.subrange(
            k + d,
            k + d + sep.len() as int,
        ));
    }
}

/// Skipping past a separator-free region of `s` leaves the split
/// intact: the skipped bytes are a prefix of the first piece.
pub proof fn lemma_split_skip(s: Seq<u8>, sep: Seq<u8>, j: int)
    requires
        sep.len() >= 1,
        0 <= j <= s.len(),
        forall|k: int| 0 <= k < j ==> !is_sep_at(s, sep, k),
    ensures
        spec_split(s, sep).len() >= 1,
        spec_split(s.skip(j), sep).len() >= 1,
        spec_split(s, sep) == seq![s.take(j) + spec_split(s.skip(j), sep)[0]] + spec_split(
            s.skip(j),
            sep,
        ).skip(1),
    decreases j,
{
    lemma_split_len(s, sep);
    lemma_split_len(s.skip(j), sep);
    if j == 0 {
        assert(s.skip(0) == s);
        assert(s.take(0) + spec_split(s, sep)[0] =~= spec_split(s, sep)[0]);
        assert(seq![spec_split(s, sep)[0]] + spec_split(s, sep).skip(1) =~= spec_split(s, sep));
    } else {
        assert(!is_sep_at(s, sep, 0));
        let rest = spec_split(s.skip(1), sep);
        assert forall|k: int| 0 <= k < j - 1 implies !is_sep_at(s.skip(1), sep, k) by {
            lemma_sep_skip(s, sep, 1, k);
            assert(!is_sep_at(s, sep, k + 1));
        }
        lemma_split_skip(s.skip(1), sep, j - 1);
        let tail = spec_split(s.skip(j), sep);
        assert(s.skip(1).skip(j - 1) =~= s.skip(j));
        assert(s.skip(1).take(j - 1) =~= s.subrange(1, j));
        assert(rest == seq![s.subrange(1, j) + tail[0]] + tail.skip(1));
        assert(rest[0] == s.subrange(1, j) + tail[0]);
        assert(rest.skip(1) =~= tail.skip(1));
        assert(seq![s[0]] + (s.subrange(1, j) + tail[0]) =~= s.take(j) + tail[0]);
        assert(spec_split(s, sep) == seq![seq![s[0]] + rest[0]] + rest.skip(1));
        assert(spec_split(s, sep) =~= seq![s.take(j) + tail[0]] + tail.skip(1));
    }
}

/// The separator `sep` occurs nowhere in `s`.
pub open spec fn sep_free(s: Seq<u8>, sep: Seq<u8>) -> bool {
    forall|k: int| !is_sep_at(s, sep, k)
}

/// A separator-free byte string splits into itself alone.
pub proof fn lemma_split_whole(s: Seq<u8>, sep: Seq<u8>)
    requires
        sep.len() >= 1,
        sep_free(s, sep),
    ensures
        spec_split(s, sep) == seq![s],
{
    lemma_split_skip(s, sep, s.len() as int);
    assert(s.skip(s.len() as int) =~= Seq::<u8>::empty());
    assert(s.take(s.len() as int) =~= s);
    assert(s + Seq::<u8>::empty() =~= s);
    assert(spec_split(s, sep) =~= seq![s]);
}

/// Splitting `a + sep + rest` peels off `a` whole when no separator
/// occurrence begins inside `a`.
pub proof fn lemma_split_cons(a: Seq<u8>, sep: Seq<u8>, rest: Seq<u8>)
    requires
        sep.len() >= 1,
        forall|k: int| 0 <= k < a.len() ==> !is_sep_at(a + sep + rest, sep, k),
    ensures
        spec_split(a + sep + rest, sep) == seq![a] + spec_split(rest, sep),
{
    let s = a + sep + rest;
    lemma_split_skip(s, sep, a.len() as int);
    assert(s.skip(a.len() as int) =~= sep + rest);
    assert((sep + rest).take(sep.len() as int) =~= sep);
    assert((sep + rest).skip(sep.len() as int) =~= rest);
    lemma_split_len(rest, sep);
    assert(spec_split(sep + rest, sep) == seq![Seq::<u8>::empty()] + spec_split(rest, sep));
    assert(s.take(a.len() as int) =~= a);
    assert((seq![Seq::<u8>::empty()] + spec_split(rest, sep))[0] == Seq::<u8>::empty());
    assert((seq![Seq::<u8>::empty()] + spec_split(rest, sep)).skip(1) =~= spec_split(rest, sep));
    assert(a + Seq::<u8>::empty() =~= a);
    assert(spec_split(s, sep) =~= seq![a] + spec_split(rest, sep));
}

/// For a one-byte separator absent from `a`, no occurrence begins
/// inside `a` within `a + sep + rest`.
pub proof fn lemma_sep1_free_prefix(a: Seq<u8>, sep: Seq<u8>, rest: Seq<u8>)
    requires
        sep.len() == 1,
        sep_free(a, sep),
    ensures
        forall|k: int| 0 <= k < a.len() ==> !is_sep_at(a + sep + rest, sep, k),
{
    let s = a + sep + rest;
    assert forall|k: int| 0 <= k < a.len() implies !is_sep_at(s, sep, k) by {
        assert(!is_sep_at(a, sep, k));
        if is_sep_at(s, sep, k) {
            assert(s.subrange(k, k + 1) =~= a.subrange(k, k + 1));
        }
    }
}

/// A one-byte separator is absent from a concatenation exactly when it
/// is absent from both parts.
pub proof fn lemma_sep1_free_concat(a: Seq<u8>, b: Seq<u8>, sep: Seq<u8>)
    requires
        sep.len() == 1,
        sep_free(a, sep),
        sep_free(b, sep),
    ensures
        sep_free(a + b, sep),
{
    assert forall|k: int| !is_sep_at(a + b, sep, k) by {
        if 0 <= k && k + 1 <= a.len() + b.len() {
            if k < a.len() {
                assert(!is_sep_at(a, sep, k));
                if is_sep_at(a + b, sep, k) {
                    assert((a + b).subrange(k, k + 1) =~= a.subrange(k, k + 1));
                }
            } else {
                assert(!is_sep_at(b, sep, k - a.len()));
                if is_sep_at(a + b, sep, k) {
                    assert((a + b).subrange(k, k + 1) =~= b.subrange(
                        k - a.len(),
                        k - a.len() + 1,
                    ));
                }
            }
        }
    }
}

/// For a two-byte separator whose bytes differ and which is absent
/// from `a`, no occurrence begins inside `a` within `a + sep + rest`:
/// an occurrence straddling the boundary would have to start with the
/// separator's own first byte in its second position.
pub proof fn lemma_sep2_free_prefix(a: Seq<u8>, sep: Seq<u8>, rest: Seq<u8>)
    requires
        sep.len() == 2,
        sep[0] != sep[1],
        sep_free(a, sep),
    ensures
        forall|k: int| 0 <= k < a.len() ==> !is_sep_at(a + sep + rest, sep, k),
{
    let s = a + sep + rest;
    assert forall|k: int| 0 <= k < a.len() implies !is_sep_at(s, sep, k) by {
        if k + 2 <= a.len() {
            assert(!is_sep_at(a, sep, k));
            if is_sep_at(s, sep, k) {
                assert(s.subrange(k, k + 2) =~= a.subrange(k, k + 2));
            }
        } else {
            if is_sep_at(s, sep, k) {
                assert(s.subrange(k, k + 2)[1] == s[k + 1]);
                assert(s[k + 1] == sep[0]);
            }
        }
    }
}

/// A two-byte separator with distinct bytes is absent from a
/// concatenation when it is absent from both parts and does not
/// straddle their boundary.
pub proof fn lemma_sep2_free_concat(a: Seq<u8>, b: Seq<u8>, sep: Seq<u8>)
    requires
        sep.len() == 2,
        sep_free(a, sep),
        sep_free(b, sep),
        a.len() == 0 || b.len() == 0 || !(a[a.len() - 1] == sep[0] && b[0] == sep[1]),
    ensures
        sep_free(a + b, sep),
{
    assert forall|k: int| !is_sep_at(a + b, sep, k) by {
        if 0 <= k && k + 2 <= a.len() + b.len() {
            if k + 2 <= a.len() {
                assert(!is_sep_at(a, sep, k));
                if is_sep_at(a + b, sep, k) {
                    assert((a + b).subrange(k, k + 2) =~= a.subrange(k, k + 2));
                }
            } else if k >= a.len() {
                assert(!is_sep_at(b, sep, k - a.len()));
                if is_sep_at(a + b, sep, k) {
                    assert((a + b).subrange(k, k + 2) =~= b.subrange(
                        k - a.len(),
                        k - a.len() + 2,
                    ));
                }
            } else {
                if is_sep_at(a + b, sep, k) {
                    assert((a + b).subrange(k, k + 2)[0] == a[k]);
                    assert((a + b).subrange(k, k + 2)[1] == b[0]);
                }
            }
        }
    }
}

/// A byte string in which the separator's first byte never occurs is
/// separator-free.
pub proof fn lemma_first_byte_absent_sep_free(t: Seq<u8>, sep: Seq<u8>)
    requires
        1 <= sep.len(),
        forall|i: int| 0 <= i < t.len() ==> t[i] != sep[0],
    ensures
        sep_free(t, sep),
{
    assert forall|k: int| !is_sep_at(t, sep, k) by {
        if 0 <= k && k + sep.len() <= t.len() {
            if is_sep_at(t, sep, k) {
                assert(t.subrange(k, k + sep.len() as int)[0] == t[k]);
            }
        }
    }
}

/// The views of a sequence of byte vectors.
pub open spec fn views(vs: Seq<Vec<u8>>) -> Seq<Seq<u8>> {
    vs.map_values(|v: Vec<u8>| v@)
}

/// Whether `sep` occurs in `buf` at position `i`.
pub fn sep_matches_at(buf: &[u8], sep: &[u8], i: usize) -> (r: bool)
    requires
        i <= buf@.len(),
    ensures
        r == is_sep_at(buf@, sep@, i as int),
{
    if sep.len() > buf.len() - i {
        return false;
    }
    let mut k: usize = 0;
    while k < sep.len()
        invariant
            i + sep@.len() <= buf@.len(),
            buf@.len() <= usize::MAX,
            k <= sep@.len(),
            forall|m: int| 0 <= m < k ==> buf@[i + m] == sep@[m],
        decreases sep@.len() - k,
    {
        if buf[i + k] != sep[k] {
            proof {
                assert(buf@.subrange(i as int, i + sep@.len() as int)[k as int] == buf@[i + k]);
            }
            return false;
        }
        k += 1;
    }
    proof {
        assert(buf@.subrange(i as int, i + sep@.len() as int) =~= sep@);
    }
    true
}

/// Split `buf` greedily on the separator `sep`.
pub fn split_bytes(buf: &[u8], sep: &[u8]) -> (r: Vec<Vec<u8>>)
    requires
        sep@.len() >= 1,
    ensures
        views(r@) == spec_split(buf@, sep@),
        r@.len() >= 1,
{
    let mut r: Vec<Vec<u8>> = Vec::new();
    let mut cur: Vec<u8> = Vec::new();
    let ghost mut start: int = 0;
    let mut i: usize = 0;
    proof {
        assert(buf@.skip(0) == buf@);
        assert(views(r@) =~= Seq::<Seq<u8>>::empty());
    }
    while i < buf.len()
        invariant
            sep@.len() >= 1,
            0 <= start <= i as int,
            i <= buf@.len(),
            cur@ == buf@.subrange(start, i as int),
            forall|k: int| start <= k < i as int ==> !is_sep_at(buf@, sep@, k),
            spec_split(buf@, sep@) == views(r@) + spec_split(buf@.skip(start), sep@),
        decreases buf@.len() - i,
    {
        if sep_matches_at(buf, sep, i) {
            proof {
                assert forall|k: int| 0 <= k < i as int - start implies !is_sep_at(
                    buf@.skip(start),
                    sep@,
                    k,
                ) by {
                    lemma_sep_skip(buf@, sep@, start, k);
                }
                lemma_split_skip(buf@.skip(start), sep@, i as int - start);
                let suffix = buf@.skip(start);
                assert(suffix.take(i as int - start) =~= cur@);
                assert(suffix.skip(i as int - start) =~= buf@.skip(i as int));
                lemma_sep_skip(buf@, sep@, i as int, 0);
                assert(is_sep_at(buf@.skip(i as int), sep@, 0));
                let after = buf@.skip(i as int);
                assert(after.take(sep@.len() as int) =~= after.subrange(0, sep@.len() as int));
                assert(spec_split(after, sep@) == seq![Seq::<u8>::empty()] + spec_split(
                    after.skip(sep@.len() as int),
                    sep@,
                ));
                assert(after.skip(sep@.len() as int) =~= buf@.skip(i as int + sep@.len() as int));
                lemma_split_len(buf@.skip(i as int + sep@.len() as int), sep@);
                assert(spec_split(after, sep@)[0] == Seq::<u8>::empty());
                assert(spec_split(after, sep@).skip(1) =~= spec_split(
                    buf@.skip(i as int + sep@.len() as int),
                    sep@,
                ));
                assert(cur@ + Seq::<u8>::empty() =~= cur@);
                assert(spec_split(buf@.skip(start), sep@) =~= seq![cur@] + spec_split(
                    buf@.skip(i as int + sep@.len() as int),
                    sep@,
                ));
            }
            let ghost old_r = r@;
            let ghost old_cur = cur@;
            let ghost old_start = start;
            r.push(cur);
            cur = Vec::new();
            i = i + sep.len();
            proof {
                start = i as int;
                assert(views(r@) =~= views(old_r) + seq![old_cur]);
                assert(spec_split(buf@.skip(old_start), sep@) == seq![old_cur] + spec_split(
                    buf@.skip(start),
                    sep@,
                ));
                assert(cur@ =~= buf@.subrange(start, i as int));
            }
        } else {
            cur.push(buf[i]);
            proof {
                assert(cur@ =~= buf@.subrange(start, i + 1 as int));
            }
            i = i + 1;
        }
    }
    proof {
        assert forall|k: int| 0 <= k < i as int - start implies !is_sep_at(
            buf@.skip(start),
            sep@,
            k,
        ) by {
            lemma_sep_skip(buf@, sep@, start, k);
        }
        lemma_split_skip(buf@.skip(start), sep@, i as int - start);
        assert(buf@.skip(start).skip(i as int - start) =~= buf@.skip(i as int));
        assert(buf@.skip(i as int) =~= Seq::<u8>::empty());
        assert(buf@.skip(start).take(i as int - start) =~= cur@);
        assert(spec_split(buf@.skip(start), sep@) =~= seq![cur@]);
    }
    let ghost old_r = r@;
    r.push(cur);
    proof {
        assert(views(r@) =~= views(old_r) + spec_split(buf@.skip(start), sep@));
        assert(views(r@) == spec_split(buf@, sep@));
    }
    r
}

/// A fresh vector holding `s[from..to]`.
pub fn subrange_vec(s: &[u8], from: usize, to: usize) -> (r: Vec<u8>)
    requires
        from <= to <= s@.len(),
    ensures
        r@ == s@.subrange(from as int, to as int),
{
    let mut r: Vec<u8> = Vec::new();
    let mut i: usize = from;
    proof {
        assert(r@ =~= s@.subrange(from as int, from as int));
    }
    while i < to
        invariant
            from <= i <= to <= s@.len(),
            r@ == s@.subrange(from as int, i as int),
        decreases to - i,
    {
        r.push(s[i]);
        proof {
            assert(r@ =~= s@.subrange(from as int, (i + 1) as int));
        }
        i += 1;
    }
    r
}

/// `pre` is a prefix of `s`.
pub open spec fn spec_starts_with(s: Seq<u8>, pre: Seq<u8>) -> bool {
    pre.len() <= s.len() && s.take(pre.len() as int) == pre
}

/// Whether `pre` is a prefix of `s`.
pub fn starts_with(s: &[u8], pre: &[u8]) -> (r: bool)
    ensures
        r == spec_starts_with(s@, pre@),
{
    let m = sep_matches_at(s, pre, 0);
    proof {
        if pre@.len() <= s@.len() {
            assert(s@.subrange(0, pre@.len() as int) =~= s@.take(pre@.len() as int));
        }
    }
    m
}

/// `s` with the prefix `pre` removed when present, `s` itself otherwise.
pub open spec fn spec_strip_prefix(s: Seq<u8>, pre: Seq<u8>) -> Seq<u8> {
    if spec_starts_with(s, pre) {
        s.skip(pre.len() as int)
    } else {
        s
    }
}

/// Strip the prefix `pre` from `s` when present.
pub fn strip_prefix(s: &[u8], pre: &[u8]) -> (r: Vec<u8>)
    ensures
        r@ == spec_strip_prefix(s@, pre@),
{
    if starts_with(s, pre) {
        let r = subrange_vec(s, pre.len(), s.len());
        proof {
            assert(s@.subrange(pre@.len() as int, s@.len() as int) =~= s@.skip(pre@.len() as int));
        }
        r
    } else {
        let r = subrange_vec(s, 0, s.len());
        proof {
            assert(s@.subrange(0, s@.len() as int) =~= s@);
        }
        r
    }
}

/// `s` without its trailing run of zero bytes.
pub open spec fn spec_strip_nuls(s: Seq<u8>) -> Seq<u8>
    decreases s.len(),
{
    if s.len() > 0 && s[s.len() - 1] == 0u8 {
        spec_strip_nuls(s.take(s.len() - 1))
    } else {
        s
    }
}

/// Strip the trailing zero padding a fixed-size read buffer leaves.
pub fn strip_trailing_nuls(s: &[u8]) -> (r: Vec<u8>)
    ensures
        r@ == spec_strip_nuls(s@),
{
    let mut end: usize = s.len();
    proof {
        assert(s@.take(end as int) =~= s@);
    }
    while end > 0 && s[end - 1] == 0
        invariant
            end <= s@.len(),
            spec_strip_nuls(s@) == spec_strip_nuls(s@.take(end as int)),
        decreases end,
    {
        proof {
            assert(s@.take(end as int)[end - 1] == s@[end - 1]);
            assert(s@.take(end as int).take(end - 1) =~= s@.take((end - 1) as int));
        }
        end -= 1;
    }
    let r = subrange_vec(s, 0, end);
    proof {
        assert(s@.subrange(0, end as int) =~= s@.take(end as int));
        if end > 0 {
            assert(s@.take(end as int)[end - 1] == s@[end - 1]);
        }
    }
    r
}

/// Append all of `s` to `v`.
pub fn append_bytes(v: &mut Vec<u8>, s: &[u8])
    ensures
        final(v)@ == old(v)@ + s@,
{
    let mut i: usize = 0;
    proof {
        assert(v@ =~= old(v)@ + s@.subrange(0, 0));
    }
    while i < s.len()
        invariant
            i <= s@.len(),
            v@ == old(v)@ + s@.subrange(0, i as int),
        decreases s@.len() - i,
    {
        v.push(s[i]);
        proof {
            assert(v@ =~= old(v)@ + s@.subrange(0, (i + 1) as int));
        }
        i += 1;
    }
    proof {
        assert(s@.subrange(0, s@.len() as int) =~= s@);
    }
}

/// The shortest decimal digit string for `n` (no leading zeros except
/// for `n == 0` itself).
pub open spec fn spec_dec(n: nat) -> Seq<u8>
    decreases n,
{
    if n < 10 {
        seq![(48 + n) as u8]
    } else {
        spec_dec(n / 10).push((48 + n % 10) as u8)
    }
}

/// The number a digit string denotes in base ten, reading `48..=57`
/// as the digits `0..=9`.
pub open spec fn sp_digits_value(s: Seq<u8>) -> int
    decreases s.len(),
{
    if s.len() == 0 {
        0
    } else {
        sp_digits_value(s.take(s.len() - 1)) * 10 + (s[s.len() - 1] - 48)
    }
}

/// The decimal formatting of `n` consists of digit bytes alone and
/// denotes exactly `n`, so a `Content-Length` built from it announces
/// precisely the length it was built from.
pub proof fn lemma_dec_value(n: nat)
    ensures
        spec_dec(n).len() >= 1,
        forall|i: int| 0 <= i < spec_dec(n).len() ==> 48 <= #[trigger] spec_dec(n)[i] <= 57,
        sp_digits_value(spec_dec(n)) == n,
    decreases n,
{
    if n < 10 {
        let one = spec_dec(n);
        assert(one == seq![(48 + n) as u8]);
        assert(one.len() == 1);
        assert(one.take(0) =~= Seq::<u8>::empty());
        assert(sp_digits_value(one.take(0)) == 0);
        assert(one[0] == (48 + n) as u8);
        assert(one[0] == 48 + n);
        assert(sp_digits_value(one) == sp_digits_value(one.take(0)) * 10 + (one[0] - 48));
        assert(sp_digits_value(one) == n);
    } else {
        lemma_dec_value(n / 10);
        let d = spec_dec(n / 10);
        let whole = spec_dec(n);
        assert(whole == d.push((48 + n % 10) as u8));
        assert(whole.take(whole.len() - 1) =~= d);
        assert(sp_digits_value(whole) == sp_digits_value(d) * 10 + n % 10);
        vstd::arithmetic::div_mod::lemma_fundamental_div_mod(n as int, 10);
    }
}

/// Format `n` in decimal.
pub fn dec_bytes(n: usize) -> (r: Vec<u8>)
    ensures
        r@ == spec_dec(n as nat),
    decreases n,
{
    if n < 10 {
        let mut v: Vec<u8> = Vec::new();
        v.push(48 + n as u8);
        proof {
            assert(v@ =~= spec_dec(n as nat));
        }
        v
    } else {
        let mut v = dec_bytes(n / 10);
        v.push(48 + (n % 10) as u8);
        v
    }
}

/// Byte-for-byte equality of two slices.
pub fn eq_bytes(a: &[u8], b: &[u8]) -> (r: bool)
    ensures
        r == (a@ == b@),
{
    if a.len() != b.len() {
        return false;
    }
    let mut i: usize = 0;
    while i < a.len()
        invariant
            a@.len() == b@.len(),
            i <= a@.len(),
            forall|k: int| 0 <= k < i ==> a@[k] == b@[k],
        decreases a@.len() - i,
    {
        if a[i] != b[i] {
            return false;
        }
        i += 1;
    }
    proof {
        assert(a@ =~= b@);
    }
    true
}

/// ASCII lower-casing of one byte; bytes outside `A`..`Z` are kept.
pub open spec fn lower_byte(b: u8) -> u8 {
    if 65 <= b <= 90 {
        (b + 32) as u8
    } else {
        b
    }
}

/// ASCII lower-casing of a byte string.
pub open spec fn spec_lower(s: Seq<u8>) -> Seq<u8> {
    s.map_values(|b: u8| lower_byte(b))
}

/// Lower-case the ASCII letters of `s`.
pub fn lower_bytes(s: &[u8]) -> (r: Vec<u8>)
    ensures
        r@ == spec_lower(s@),
{
    let mut r: Vec<u8> = Vec::new();
    let mut i: usize = 0;
    proof {
        assert(r@ =~= spec_lower(s@.subrange(0, 0)));
    }
    while i < s.len()
        invariant
            i <= s@.len(),
            r@ == spec_lower(s@.subrange(0, i as int)),
        decreases s@.len() - i,
    {
        let b = s[i];
        if 65 <= b && b <= 90 {
            r.push(b + 32);
        } else {
            r.push(b);
        }
        proof {
            assert(r@ =~= spec_lower(s@.subrange(0, (i + 1) as int)));
        }
        i += 1;
    }
    proof {
        assert(s@.subrange(0, s@.len() as int) =~= s@);
    }
    r
}

} // verus!
