//! Byte-level text helpers shared by the version parser, the manifest size
//! decoder and the patch script inspector: decimal digit strings, splitting
//! on a separator byte, substring search and substring replacement.

use vstd::prelude::*;

verus! {

/// An ASCII decimal digit, `'0'` through `'9'`.
pub open spec fn is_digit(b: u8) -> bool {
    48 <= b <= 57
}

/// Every byte of `s` is an ASCII decimal digit.
pub open spec fn is_digits(s: Seq<u8>) -> bool {
    forall|i: int| 0 <= i < s.len() ==> is_digit(#[trigger] s[i])
}

/// Numeric value of a decimal digit string, most significant digit first.
pub open spec fn dec_val(s: Seq<u8>) -> int
    decreases s.len(),
{
    if s.len() == 0 {
        0
    } else {
        dec_val(s.drop_last()) * 10 + s.last() - 48
    }
}

/// Shortest decimal digit string denoting the non-negative number `n`.
pub open spec fn dec_rep(n: int) -> Seq<u8>
    decreases n,
{
    if n < 10 {
        seq![(48 + if n >= 0 { n } else { 0 }) as u8]
    } else {
        dec_rep(n / 10).push((48 + n % 10) as u8)
    }
}

pub proof fn lemma_dec_rep_digits(n: int)
    requires
        0 <= n,
    ensures
        is_digits(dec_rep(n)),
        dec_rep(n).len() >= 1,
    decreases n,
{
    if n >= 10 {
        lemma_dec_rep_digits(n / 10);
    }
}

pub proof fn lemma_dec_val_dec_rep(n: int)
    requires
        0 <= n,
    ensures
        dec_val(dec_rep(n)) == n,
    decreases n,
{
    if n < 10 {
        let s = dec_rep(n);
        assert(s =~= seq![(48 + n) as u8]);
        assert(s.drop_last() =~= Seq::<u8>::empty());
        assert(dec_val(s) == dec_val(s.drop_last()) * 10 + s.last() - 48);
        assert(dec_val(s.drop_last()) == 0);
    } else {
        lemma_dec_val_dec_rep(n / 10);
        assert(dec_rep(n).drop_last() =~= dec_rep(n / 10));
        assert(dec_val(dec_rep(n)) == dec_val(dec_rep(n).drop_last()) * 10 + dec_rep(n).last()
            - 48);
    }
}

pub proof fn lemma_dec_val_nonneg(s: Seq<u8>)
    requires
        is_digits(s),
    ensures
        dec_val(s) >= 0,
    decreases s.len(),
{
    if s.len() > 0 {
        assert(is_digits(s.drop_last()));
        lemma_dec_val_nonneg(s.drop_last());
    }
}

/// Parses a whole byte string as a decimal `u64`: the value when the string
/// is non-empty, all digits and the value fits; `None` otherwise.
pub open spec fn parse_dec_u64(s: Seq<u8>) -> Option<u64> {
    if s.len() > 0 && is_digits(s) && dec_val(s) <= u64::MAX {
        Some(dec_val(s) as u64)
    } else {
        None
    }
}

/// Decimal `u64` parser matching `parse_dec_u64` on every input.
pub fn u64_from_dec(s: &Vec<u8>) -> (r: Option<u64>)
    ensures
        r == parse_dec_u64(s@),
{
    if s.len() == 0 {
        return None;
    }
    let mut acc: u64 = 0;
    let mut i: usize = 0;
    while i < s.len()
        invariant
            0 <= i <= s@.len(),
            is_digits(s@.take(i as int)),
            acc == dec_val(s@.take(i as int)),
        decreases s@.len() - i,
    {
        let b = s[i];
        if b < 48 || b > 57 {
            assert(!is_digit(s@[i as int]));
            return None;
        }
        let d: u64 = (b - 48) as u64;
        if acc > (u64::MAX - d) / 10 {
            proof {
                assert(is_digit(s@[i as int]));
                assert(s@.take(i as int + 1).drop_last() =~= s@.take(i as int));
                assert(is_digits(s@.take(i as int + 1)));
                assert(dec_val(s@.take(i as int + 1)) == acc * 10 + d);
                assert(acc * 10 + d > u64::MAX) by {
                    assert(acc >= (u64::MAX - d) / 10 + 1);
                    assert(((u64::MAX - d) / 10 + 1) * 10 >= u64::MAX - d + 1) by (nonlinear_arith);
                    assert(acc * 10 >= ((u64::MAX - d) / 10 + 1) * 10) by (nonlinear_arith)
                        requires
                            acc >= (u64::MAX - d) / 10 + 1,
                    ;
                }
                if is_digits(s@) {
                    lemma_dec_val_prefix_bound(s@, i as int + 1);
                }
            }
            return None;
        }
        acc = acc * 10 + d;
        proof {
            assert(s@.take(i as int + 1).drop_last() =~= s@.take(i as int));
        }
        i = i + 1;
    }
    proof {
        assert(s@.take(s@.len() as int) =~= s@);
    }
    Some(acc)
}

/// If a prefix of a digit string already exceeds `u64::MAX`, so does the
/// whole string.
pub proof fn lemma_dec_val_prefix_bound(s: Seq<u8>, i: int)
    requires
        0 <= i <= s.len(),
        is_digits(s),
        dec_val(s.take(i)) > u64::MAX,
    ensures
        dec_val(s) > u64::MAX,
    decreases s.len() - i,
{
    if i < s.len() {
        assert(s.take(i + 1).drop_last() =~= s.take(i));
        assert(is_digits(s.take(i)));
        lemma_dec_val_nonneg(s.take(i));
        assert(dec_val(s.take(i + 1)) == dec_val(s.take(i)) * 10 + s[i] - 48);
        assert(dec_val(s.take(i)) * 10 >= dec_val(s.take(i)) * 1) by (nonlinear_arith)
            requires
                dec_val(s.take(i)) >= 0,
        ;
        lemma_dec_val_prefix_bound(s, i + 1);
    } else {
        assert(s.take(i) =~= s);
    }
}

/// Splits `s` on the separator byte `sep`. The result always holds at least
/// one part; a separator at the end yields a trailing empty part.
pub open spec fn split_byte(s: Seq<u8>, sep: u8) -> Seq<Seq<u8>>
    decreases s.len(),
{
    if s.len() == 0 {
        seq![Seq::<u8>::empty()]
    } else if s.last() == sep {
        split_byte(s.drop_last(), sep).push(Seq::<u8>::empty())
    } else {
        let r = split_byte(s.drop_last(), sep);
        r.update(r.len() - 1, r.last().push(s.last()))
    }
}

pub proof fn lemma_split_byte_len(s: Seq<u8>, sep: u8)
    ensures
        split_byte(s, sep).len() >= 1,
    decreases s.len(),
{
    if s.len() > 0 {
        lemma_split_byte_len(s.drop_last(), sep);
    }
}

/// A string free of the separator splits into itself alone.
pub proof fn lemma_split_byte_no_sep(s: Seq<u8>, sep: u8)
    requires
        forall|i: int| 0 <= i < s.len() ==> s[i] != sep,
    ensures
        split_byte(s, sep) =~~= seq![s],
    decreases s.len(),
{
    if s.len() > 0 {
        lemma_split_byte_no_sep(s.drop_last(), sep);
    }
}

/// A separator after a separator-free prefix cuts the split exactly there.
pub proof fn lemma_split_byte_prefix(a: Seq<u8>, rest: Seq<u8>, sep: u8)
    requires
        forall|i: int| 0 <= i < a.len() ==> a[i] != sep,
    ensures
        split_byte(a + seq![sep] + rest, sep) =~~= seq![a] + split_byte(rest, sep),
    decreases rest.len(),
{
    lemma_split_byte_len(rest, sep);
    if rest.len() == 0 {
        assert(a + seq![sep] + rest =~= a + seq![sep]);
        assert((a + seq![sep]).drop_last() =~= a);
        lemma_split_byte_no_sep(a, sep);
    } else {
        lemma_split_byte_prefix(a, rest.drop_last(), sep);
        lemma_split_byte_len(rest.drop_last(), sep);
        assert((a + seq![sep] + rest).drop_last() =~= a + seq![sep] + rest.drop_last());
        assert((a + seq![sep] + rest).last() == rest.last());
    }
}

/// Separator split matching `split_byte` on every input.
pub fn split_byte_vec(s: &Vec<u8>, sep: u8) -> (r: Vec<Vec<u8>>)
    ensures
        r.deep_view() == split_byte(s@, sep),
{
    let mut done: Vec<Vec<u8>> = Vec::new();
    let mut cur: Vec<u8> = Vec::new();
    let mut i: usize = 0;
    while i < s.len()
        invariant
            0 <= i <= s@.len(),
            split_byte(s@.take(i as int), sep) =~~= done.deep_view().push(cur@),
        decreases s@.len() - i,
    {
        proof {
            assert(s@.take(i as int + 1).drop_last() =~= s@.take(i as int));
            lemma_split_byte_len(s@.take(i as int), sep);
        }
        if s[i] == sep {
            done.push(cur);
            cur = Vec::new();
        } else {
            cur.push(s[i]);
        }
        i = i + 1;
    }
    proof {
        assert(s@.take(s@.len() as int) =~= s@);
    }
    let ghost prev = done.deep_view();
    done.push(cur);
    proof {
        assert(done.deep_view() =~~= prev.push(cur@));
        assert(done.deep_view() =~~= split_byte(s@, sep));
    }
    done
}

/// Copies a byte string, preserving the value.
pub fn copy_bytes(v: &Vec<u8>) -> (r: Vec<u8>)
    ensures
        r@ == v@,
{
    sub_bytes(v, 0, v.len())
}

/// Compares two byte strings by value.
pub fn eq_bytes(a: &Vec<u8>, b: &Vec<u8>) -> (r: bool)
    ensures
        r == (a@ == b@),
{
    if a.len() != b.len() {
        return false;
    }
    let mut i: usize = 0;
    while i < a.len()
        invariant
            0 <= i <= a@.len(),
            a@.len() == b@.len(),
            forall|k: int| 0 <= k < i ==> a@[k] == b@[k],
        decreases a@.len() - i,
    {
        if a[i] != b[i] {
            return false;
        }
        i = i + 1;
    }
    proof {
        assert(a@ =~= b@);
    }
    true
}

/// Copies the byte range `[from, to)` of `s`.
pub fn sub_bytes(s: &Vec<u8>, from: usize, to: usize) -> (r: Vec<u8>)
    requires
        from <= to <= s@.len(),
    ensures
        r@ == s@.subrange(from as int, to as int),
{
    let mut out: Vec<u8> = Vec::new();
    let mut i: usize = from;
    while i < to
        invariant
            from <= i <= to <= s@.len(),
            out@ =~= s@.subrange(from as int, i as int),
        decreases to - i,
    {
        proof {
            assert(s@.subrange(from as int, i as int + 1) =~= s@.subrange(
                from as int,
                i as int,
            ).push(s@[i as int]));
        }
        out.push(s[i]);
        i = i + 1;
    }
    out
}

/// Appends `src` to `dst`.
pub fn append_bytes(dst: &mut Vec<u8>, src: &Vec<u8>)
    ensures
        final(dst)@ == old(dst)@ + src@,
{
    let mut i: usize = 0;
    while i < src.len()
        invariant
            0 <= i <= src@.len(),
            dst@ =~= old(dst)@ + src@.take(i as int),
        decreases src@.len() - i,
    {
        proof {
            assert(src@.take(i as int + 1) =~= src@.take(i as int).push(src@[i as int]));
        }
        dst.push(src[i]);
        i = i + 1;
    }
    proof {
        assert(src@.take(src@.len() as int) =~= src@);
    }
}

/// Lowercase hex digit for a value below 16.
pub open spec fn hex_digit(n: int) -> u8 {
    if n < 10 {
        (48 + n) as u8
    } else {
        (87 + n) as u8
    }
}

/// Lowercase hex text of a byte string, two digits per byte.
pub open spec fn hex_of(s: Seq<u8>) -> Seq<u8>
    decreases s.len(),
{
    if s.len() == 0 {
        Seq::<u8>::empty()
    } else {
        hex_of(s.drop_last()) + seq![
            hex_digit(s.last() as int / 16),
            hex_digit(s.last() as int % 16),
        ]
    }
}

/// Hex encoder matching `hex_of` on every input.
pub fn bytes_to_hex(s: &Vec<u8>) -> (r: Vec<u8>)
    ensures
        r@ == hex_of(s@),
        r@.len() == 2 * s@.len(),
{
    let mut out: Vec<u8> = Vec::new();
    let mut i: usize = 0;
    while i < s.len()
        invariant
            0 <= i <= s@.len(),
            out@ =~= hex_of(s@.take(i as int)),
            out@.len() == 2 * i,
        decreases s@.len() - i,
    {
        let b = s[i];
        let hi = b / 16;
        let lo = b % 16;
        out.push(
            if hi < 10 {
                48 + hi
            } else {
                87 + hi
            },
        );
        out.push(
            if lo < 10 {
                48 + lo
            } else {
                87 + lo
            },
        );
        proof {
            assert(s@.take(i as int + 1).drop_last() =~= s@.take(i as int));
            assert(out@ =~= hex_of(s@.take(i as int + 1)));
        }
        i = i + 1;
    }
    proof {
        assert(s@.take(s@.len() as int) =~= s@);
    }
    out
}

/// The pattern `pat` occurs in `s` starting at index `i`.
pub open spec fn match_at(s: Seq<u8>, pat: Seq<u8>, i: int) -> bool {
    0 <= i && i + pat.len() <= s.len() && s.subrange(i, i + pat.len()) == pat
}

/// The pattern occurs somewhere in `s`.
pub open spec fn contains_seq(s: Seq<u8>, pat: Seq<u8>) -> bool {
    exists|i: int| match_at(s, pat, i)
}

/// Compares `pat` against `s` at position `i`.
pub fn bytes_match_at(s: &Vec<u8>, pat: &Vec<u8>, i: usize) -> (r: bool)
    requires
        i + pat@.len() <= s@.len(),
    ensures
        r == match_at(s@, pat@, i as int),
{
    let n = s.len();
    let mut j: usize = 0;
    while j < pat.len()
        invariant
            0 <= j <= pat@.len(),
            i + pat@.len() <= s@.len(),
            n == s@.len(),
            forall|k: int| 0 <= k < j ==> s@[i + k] == pat@[k],
        decreases pat@.len() - j,
    {
        assert(i + j < s@.len());
        if s[i + j] != pat[j] {
            assert(s@.subrange(i as int, i + pat@.len()) != pat@) by {
                assert(s@.subrange(i as int, i + pat@.len())[j as int] != pat@[j as int]);
            }
            return false;
        }
        j = j + 1;
    }
    assert(s@.subrange(i as int, i + pat@.len()) =~= pat@);
    true
}

/// Substring search matching `contains_seq` on every input.
pub fn contains_bytes(s: &Vec<u8>, pat: &Vec<u8>) -> (r: bool)
    ensures
        r == contains_seq(s@, pat@),
{
    if pat.len() == 0 {
        assert(s@.subrange(0, 0) =~= pat@);
        assert(match_at(s@, pat@, 0));
        return true;
    }
    if pat.len() > s.len() {
        assert(forall|i: int| !match_at(s@, pat@, i));
        return false;
    }
    let last_start = s.len() - pat.len();
    let mut i: usize = 0;
    while i <= last_start
        invariant
            0 <= i <= last_start + 1,
            pat@.len() >= 1,
            last_start == s@.len() - pat@.len(),
            last_start < usize::MAX,
            forall|k: int| 0 <= k < i ==> !match_at(s@, pat@, k),
        decreases last_start - i + 1,
    {
        if bytes_match_at(s, pat, i) {
            return true;
        }
        i = i + 1;
    }
    assert(forall|k: int| !match_at(s@, pat@, k));
    false
}

/// Replaces every occurrence of `pat` in `s` by `rep`, scanning left to
/// right and never rescanning replaced text. An empty pattern replaces
/// nothing.
pub open spec fn replace_seq(s: Seq<u8>, pat: Seq<u8>, rep: Seq<u8>) -> Seq<u8>
    decreases s.len(),
{
    if pat.len() == 0 || s.len() < pat.len() {
        s
    } else if s.subrange(0, pat.len() as int) == pat {
        rep + replace_seq(s.skip(pat.len() as int), pat, rep)
    } else {
        seq![s[0]] + replace_seq(s.drop_first(), pat, rep)
    }
}

/// Substring replacement matching `replace_seq` on every input.
pub fn replace_bytes(s: &Vec<u8>, pat: &Vec<u8>, rep: &Vec<u8>) -> (r: Vec<u8>)
    ensures
        r@ == replace_seq(s@, pat@, rep@),
{
    let mut out: Vec<u8> = Vec::new();
    if pat.len() == 0 {
        let mut k: usize = 0;
        while k < s.len()
            invariant
                0 <= k <= s@.len(),
                out@ =~= s@.take(k as int),
            decreases s@.len() - k,
        {
            out.push(s[k]);
            k = k + 1;
        }
        assert(s@.take(s@.len() as int) =~= s@);
        return out;
    }
    let mut i: usize = 0;
    proof {
        assert(s@.skip(0) =~= s@);
        assert(out@ + replace_seq(s@, pat@, rep@) =~= replace_seq(s@, pat@, rep@));
    }
    while i < s.len()
        invariant
            0 <= i <= s@.len(),
            pat@.len() > 0,
            replace_seq(s@, pat@, rep@) == out@ + replace_seq(s@.skip(i as int), pat@, rep@),
        decreases s@.len() - i,
    {
        if pat.len() <= s.len() - i && bytes_match_at(s, pat, i) {
            proof {
                assert(s@.skip(i as int).subrange(0, pat@.len() as int) =~= s@.subrange(
                    i as int,
                    i + pat@.len(),
                ));
                assert(s@.skip(i as int).skip(pat@.len() as int) =~= s@.skip(i + pat@.len()));
            }
            let mut k: usize = 0;
            while k < rep.len()
                invariant
                    0 <= k <= rep@.len(),
                    replace_seq(s@, pat@, rep@) == out@ + rep@.skip(k as int) + replace_seq(
                        s@.skip(i + pat@.len()),
                        pat@,
                        rep@,
                    ),
                decreases rep@.len() - k,
            {
                proof {
                    assert(rep@.skip(k as int) =~= seq![rep@[k as int]] + rep@.skip(k as int + 1));
                }
                out.push(rep[k]);
                k = k + 1;
            }
            proof {
                assert(rep@.skip(rep@.len() as int) =~= Seq::<u8>::empty());
            }
            i = i + pat.len();
        } else {
            proof {
                if pat@.len() <= s@.len() - i {
                    assert(s@.skip(i as int).subrange(0, pat@.len() as int) =~= s@.subrange(
                        i as int,
                        i + pat@.len(),
                    ));
                }
                assert(s@.skip(i as int).drop_first() =~= s@.skip(i as int + 1));
                assert(seq![s@.skip(i as int)[0]] =~= seq![s@[i as int]]);
            }
            out.push(s[i]);
            i = i + 1;
        }
    }
    proof {
        assert(s@.skip(s@.len() as int) =~= Seq::<u8>::empty());
    }
    out
}

} // verus!
