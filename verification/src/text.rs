//! Byte-level text utilities: occurrence of one byte sequence inside
//! another, runs of digit and whitespace bytes, and decimal number
//! parsing with an exact overflow story.  The log lines the supervisor
//! inspects are handled as raw bytes; the application layer decodes
//! them for display.

use vstd::prelude::*;

verus! {

/// A decimal digit byte, `'0'` through `'9'`.
pub open spec fn is_digit(b: u8) -> bool {
    '0' as u8 <= b && b <= '9' as u8
}

/// A horizontal whitespace byte: space or tab.
pub open spec fn is_space(b: u8) -> bool {
    b == ' ' as u8 || b == '\t' as u8
}

/// The sequence `pat` occurs in `s` starting at position `i`.
pub open spec fn occurs_at(s: Seq<u8>, pat: Seq<u8>, i: int) -> bool {
    0 <= i && i + pat.len() <= s.len() && s.subrange(i, i + pat.len() as int) == pat
}

/// Some position of `s` holds `pat`.
pub open spec fn contains_seq(s: Seq<u8>, pat: Seq<u8>) -> bool {
    exists|i: int| occurs_at(s, pat, i)
}

/// Length of the maximal run of decimal digit bytes starting at `i`.
pub open spec fn digit_run_len(s: Seq<u8>, i: int) -> nat
    decreases s.len() - i,
{
    if 0 <= i && i < s.len() && is_digit(s[i]) {
        (digit_run_len(s, i + 1) + 1) as nat
    } else {
        0
    }
}

/// Length of the maximal run of space or tab bytes starting at `i`.
pub open spec fn space_run_len(s: Seq<u8>, i: int) -> nat
    decreases s.len() - i,
{
    if 0 <= i && i < s.len() && is_space(s[i]) {
        (space_run_len(s, i + 1) + 1) as nat
    } else {
        0
    }
}

/// Length of the maximal run of non-whitespace bytes starting at `i`.
pub open spec fn token_run_len(s: Seq<u8>, i: int) -> nat
    decreases s.len() - i,
{
    if 0 <= i && i < s.len() && !is_space(s[i]) {
        (token_run_len(s, i + 1) + 1) as nat
    } else {
        0
    }
}

/// The value of a sequence of decimal digit bytes, most significant first.
pub open spec fn decimal_value(s: Seq<u8>) -> nat
    decreases s.len(),
{
    if s.len() == 0 {
        0
    } else {
        (decimal_value(s.drop_last()) * 10 + (s.last() - ('0' as u8))) as nat
    }
}

/// Prepending more digits never lowers the value: the value of a prefix
/// of a digit run is at most the value of the whole run.
pub proof fn lemma_decimal_prefix_le(s: Seq<u8>, i: int, j: int)
    requires
        0 <= i <= j <= s.len(),
        forall|k: int| 0 <= k < s.len() ==> is_digit(#[trigger] s[k]),
    ensures
        decimal_value(s.subrange(0, i)) <= decimal_value(s.subrange(0, j)),
    decreases j - i,
{
    if i < j {
        lemma_decimal_prefix_le(s, i, j - 1);
        assert(s.subrange(0, j).drop_last() =~= s.subrange(0, j - 1));
        assert(decimal_value(s.subrange(0, j - 1)) <= decimal_value(s.subrange(0, j)));
    } else {
        assert(s.subrange(0, i) =~= s.subrange(0, j));
    }
}

/// Every position inside a digit run holds a digit.
pub proof fn lemma_digit_run_digits(s: Seq<u8>, i: int)
    requires
        0 <= i,
    ensures
        forall|k: int| i <= k < i + digit_run_len(s, i) ==> is_digit(#[trigger] s[k]),
    decreases s.len() - i,
{
    if 0 <= i && i < s.len() && is_digit(s[i]) {
        lemma_digit_run_digits(s, i + 1);
    }
}

/// The first position at or after `i` holding the byte `b`, or the end.
pub open spec fn find_byte(s: Seq<u8>, b: u8, i: int) -> int
    decreases s.len() - i,
{
    if i < 0 || i >= s.len() {
        s.len() as int
    } else if s[i] == b {
        i
    } else {
        find_byte(s, b, i + 1)
    }
}

/// Scanning forward over positions without the byte does not change
/// where it is first found.
pub proof fn lemma_find_byte_skip(s: Seq<u8>, b: u8, a: int, i: int)
    requires
        0 <= a <= i <= s.len(),
        forall|k: int| a <= k < i ==> s[k] != b,
    ensures
        find_byte(s, b, a) == find_byte(s, b, i),
    decreases i - a,
{
    if a < i {
        lemma_find_byte_skip(s, b, a + 1, i);
    }
}

/// Searching a suffix finds the same position, shifted.
pub proof fn lemma_find_byte_shift(s: Seq<u8>, b: u8, p: int, i: int)
    requires
        0 <= p <= i <= s.len(),
    ensures
        find_byte(s.subrange(p, s.len() as int), b, i - p) == find_byte(s, b, i) - p,
    decreases s.len() - i,
{
    if i < s.len() && s[i] != b {
        lemma_find_byte_shift(s, b, p, i + 1);
    }
}

/// The first position at or after `from` holding the byte `b`, or the
/// length of `s`.
pub fn find_byte_at(s: &Vec<u8>, b: u8, from: usize) -> (r: usize)
    requires
        from <= s@.len(),
    ensures
        r == find_byte(s@, b, from as int),
        from <= r <= s@.len(),
{
    let n: usize = s.len();
    let mut i: usize = from;
    while i < n
        invariant
            n == s@.len(),
            from <= i <= n,
            forall|k: int| from <= k < i ==> s@[k] != b,
        decreases n - i,
    {
        if s[i] == b {
            proof {
                lemma_find_byte_skip(s@, b, from as int, i as int);
            }
            return i;
        }
        i += 1;
    }
    proof {
        lemma_find_byte_skip(s@, b, from as int, n as int);
    }
    n
}

/// Does `pat` occur in `s` at position `i`?
pub fn starts_with_at(s: &Vec<u8>, pat: &Vec<u8>, i: usize) -> (r: bool)
    ensures
        r == occurs_at(s@, pat@, i as int),
{
    if s.len() < pat.len() || i > s.len() - pat.len() {
        return false;
    }
    let n: usize = s.len();
    let mut j: usize = 0;
    while j < pat.len()
        invariant
            n == s@.len(),
            j <= pat@.len(),
            i + pat@.len() <= n,
            forall|k: int| 0 <= k < j ==> s@[i + k] == pat@[k],
        decreases pat@.len() - j,
    {
        if s[i + j] != pat[j] {
            proof {
                if occurs_at(s@, pat@, i as int) {
                    assert(s@.subrange(i as int, i + pat@.len() as int)[j as int] == s@[i + j]);
                }
            }
            return false;
        }
        j += 1;
    }
    proof {
        assert(s@.subrange(i as int, i + pat@.len() as int) =~= pat@);
    }
    true
}

/// Does `pat` occur anywhere in `s`?
pub fn contains_pat(s: &Vec<u8>, pat: &Vec<u8>) -> (r: bool)
    ensures
        r == contains_seq(s@, pat@),
{
    if pat.len() > s.len() {
        return false;
    }
    if pat.len() == 0 {
        proof {
            assert(s@.subrange(0, 0) =~= pat@);
            assert(occurs_at(s@, pat@, 0));
        }
        return true;
    }
    let last_start: usize = s.len() - pat.len();
    let mut i: usize = 0;
    while i <= last_start
        invariant
            pat@.len() >= 1,
            last_start < usize::MAX,
            last_start == s@.len() - pat@.len(),
            i <= last_start + 1,
            forall|k: int| 0 <= k < i ==> !occurs_at(s@, pat@, k),
        decreases last_start + 1 - i,
    {
        if starts_with_at(s, pat, i) {
            return true;
        }
        i += 1;
    }
    proof {
        assert forall|k: int| !occurs_at(s@, pat@, k) by {
            if k >= i {
                assert(k + pat@.len() > s@.len());
            }
        }
    }
    false
}

/// The end of the maximal digit run starting at `i`.
pub fn digit_run_end(s: &Vec<u8>, i: usize) -> (r: usize)
    requires
        i <= s@.len(),
    ensures
        r == i + digit_run_len(s@, i as int),
        r <= s@.len(),
{
    let mut j: usize = i;
    while j < s.len() && s[j] >= '0' as u8 && s[j] <= '9' as u8
        invariant
            i <= j <= s@.len(),
            digit_run_len(s@, i as int) == (j - i) + digit_run_len(s@, j as int),
        decreases s@.len() - j,
    {
        j += 1;
    }
    j
}

/// The end of the maximal space-or-tab run starting at `i`.
pub fn space_run_end(s: &Vec<u8>, i: usize) -> (r: usize)
    requires
        i <= s@.len(),
    ensures
        r == i + space_run_len(s@, i as int),
        r <= s@.len(),
{
    let mut j: usize = i;
    while j < s.len() && (s[j] == ' ' as u8 || s[j] == '\t' as u8)
        invariant
            i <= j <= s@.len(),
            space_run_len(s@, i as int) == (j - i) + space_run_len(s@, j as int),
        decreases s@.len() - j,
    {
        j += 1;
    }
    j
}

/// The end of the maximal non-whitespace run starting at `i`.
pub fn token_run_end(s: &Vec<u8>, i: usize) -> (r: usize)
    requires
        i <= s@.len(),
    ensures
        r == i + token_run_len(s@, i as int),
        r <= s@.len(),
{
    let mut j: usize = i;
    while j < s.len() && s[j] != ' ' as u8 && s[j] != '\t' as u8
        invariant
            i <= j <= s@.len(),
            token_run_len(s@, i as int) == (j - i) + token_run_len(s@, j as int),
        decreases s@.len() - j,
    {
        j += 1;
    }
    j
}

/// Parses the digit bytes `s[start..end]` as a decimal number.
/// Returns `None` exactly when the value does not fit in `u64`.
pub fn parse_decimal_u64(s: &Vec<u8>, start: usize, end: usize) -> (r: Option<u64>)
    requires
        start <= end <= s@.len(),
        forall|k: int| start <= k < end ==> is_digit(#[trigger] s@[k]),
    ensures
        decimal_value(s@.subrange(start as int, end as int)) <= u64::MAX ==> r == Some(
            decimal_value(s@.subrange(start as int, end as int)) as u64,
        ),
        decimal_value(s@.subrange(start as int, end as int)) > u64::MAX ==> r is None,
{
    let ghost t = s@.subrange(start as int, end as int);
    let mut acc: u128 = 0;
    let mut j: usize = start;
    while j < end
        invariant
            start <= j <= end <= s@.len(),
            t == s@.subrange(start as int, end as int),
            forall|k: int| start <= k < end ==> is_digit(#[trigger] s@[k]),
            acc == decimal_value(t.subrange(0, j - start)),
            acc <= u64::MAX,
        decreases end - j,
    {
        let d: u128 = (s[j] - '0' as u8) as u128;
        let next: u128 = acc * 10 + d;
        proof {
            assert(t.subrange(0, j + 1 - start).drop_last() =~= t.subrange(0, j - start));
            assert(t.subrange(0, j + 1 - start).last() == s@[j as int]);
        }
        if next > u64::MAX as u128 {
            proof {
                assert(forall|k: int| 0 <= k < t.len() ==> is_digit(#[trigger] t[k]));
                lemma_decimal_prefix_le(t, j + 1 - start, t.len() as int);
                assert(t.subrange(0, t.len() as int) =~= t);
            }
            return None;
        }
        acc = next;
        j += 1;
    }
    proof {
        assert(t.subrange(0, end - start) =~= t);
    }
    Some(acc as u64)
}

/// A fresh copy of a byte vector.
pub fn copy_bytes(v: &Vec<u8>) -> (r: Vec<u8>)
    ensures
        r@ == v@,
{
    let mut out: Vec<u8> = Vec::new();
    let mut i: usize = 0;
    while i < v.len()
        invariant
            i <= v@.len(),
            out@ == v@.subrange(0, i as int),
        decreases v@.len() - i,
    {
        out.push(v[i]);
        proof {
            assert(out@ =~= v@.subrange(0, i + 1));
        }
        i += 1;
    }
    proof {
        assert(out@ =~= v@);
    }
    out
}

/// A fresh copy of the bytes `v[a..b]`.
pub fn copy_range(v: &Vec<u8>, a: usize, b: usize) -> (r: Vec<u8>)
    requires
        a <= b <= v@.len(),
    ensures
        r@ == v@.subrange(a as int, b as int),
{
    let mut out: Vec<u8> = Vec::new();
    let mut i: usize = a;
    while i < b
        invariant
            a <= i <= b <= v@.len(),
            out@ == v@.subrange(a as int, i as int),
        decreases b - i,
    {
        out.push(v[i]);
        proof {
            assert(out@ =~= v@.subrange(a as int, i + 1));
        }
        i += 1;
    }
    out
}

/// Appends the bytes of `src` to `dst`.
pub fn append_bytes(dst: &mut Vec<u8>, src: &Vec<u8>)
    ensures
        final(dst)@ == old(dst)@ + src@,
{
    let mut i: usize = 0;
    while i < src.len()
        invariant
            i <= src@.len(),
            dst@ == old(dst)@ + src@.subrange(0, i as int),
        decreases src@.len() - i,
    {
        dst.push(src[i]);
        proof {
            assert(dst@ =~= old(dst)@ + src@.subrange(0, i + 1));
        }
        i += 1;
    }
    proof {
        assert(dst@ =~= old(dst)@ + src@);
    }
}

/// The views of a sequence of byte vectors.
pub open spec fn vec_views(s: Seq<Vec<u8>>) -> Seq<Seq<u8>> {
    s.map_values(|v: Vec<u8>| v@)
}

/// The lines of `s`: the segments between newline bytes, the separators
/// dropped.  A trailing newline closes the last line; it does not open
/// an empty one.
pub open spec fn split_lines_spec(s: Seq<u8>) -> Seq<Seq<u8>>
    decreases s.len(),
{
    if s.len() == 0 {
        Seq::empty()
    } else {
        let j = find_byte(s, '\n' as u8, 0);
        if 0 <= j && j < s.len() {
            seq![s.subrange(0, j)] + split_lines_spec(s.subrange(j + 1, s.len() as int))
        } else {
            seq![s]
        }
    }
}

/// Splits a byte vector into its lines, exactly as [`split_lines_spec`]
/// gives them.
pub fn split_lines(content: &Vec<u8>) -> (r: Vec<Vec<u8>>)
    ensures
        vec_views(r@) == split_lines_spec(content@),
{
    let n: usize = content.len();
    let mut out: Vec<Vec<u8>> = Vec::new();
    let mut pos: usize = 0;
    proof {
        assert(content@.subrange(0, n as int) =~= content@);
        assert(vec_views(out@) + split_lines_spec(content@) =~= split_lines_spec(content@));
    }
    while pos < n
        invariant
            n == content@.len(),
            pos <= n,
            vec_views(out@) + split_lines_spec(content@.subrange(pos as int, n as int))
                == split_lines_spec(content@),
        decreases n - pos,
    {
        let ghost t = content@.subrange(pos as int, n as int);
        let j = find_byte_at(content, '\n' as u8, pos);
        proof {
            lemma_find_byte_shift(content@, '\n' as u8, pos as int, pos as int);
            assert(find_byte(t, '\n' as u8, 0) == j - pos);
        }
        let ghost prev = out@;
        if j == n {
            let seg = copy_range(content, pos, n);
            out.push(seg);
            proof {
                assert(split_lines_spec(t) == seq![t]);
                assert(vec_views(out@) =~= vec_views(prev).push(t));
                assert(vec_views(out@) =~= vec_views(prev) + seq![t]);
                assert(vec_views(prev) + (seq![t] + Seq::<Seq<u8>>::empty()) =~= vec_views(out@));
                assert(content@.subrange(n as int, n as int).len() == 0);
                assert(vec_views(out@) + split_lines_spec(content@.subrange(n as int, n as int))
                    =~= split_lines_spec(content@));
            }
            pos = n;
        } else {
            let seg = copy_range(content, pos, j);
            out.push(seg);
            proof {
                assert(t.subrange(0, j - pos) =~= content@.subrange(pos as int, j as int));
                assert(t.subrange(j - pos + 1, t.len() as int) =~= content@.subrange(
                    j + 1,
                    n as int,
                ));
                assert(split_lines_spec(t) == seq![content@.subrange(pos as int, j as int)]
                    + split_lines_spec(content@.subrange(j + 1, n as int)));
                assert(vec_views(out@) =~= vec_views(prev).push(
                    content@.subrange(pos as int, j as int),
                ));
                assert(vec_views(out@) + split_lines_spec(content@.subrange(j + 1, n as int))
                    =~= vec_views(prev) + split_lines_spec(t));
            }
            pos = j + 1;
        }
    }
    proof {
        assert(content@.subrange(pos as int, n as int).len() == 0);
        assert(vec_views(out@) =~= vec_views(out@) + split_lines_spec(
            content@.subrange(pos as int, n as int),
        ));
    }
    out
}

} // verus!
