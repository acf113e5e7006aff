//! The `key=value` line format of the server-side properties file: the
//! exact reading of each line and the exact text written back.  The
//! surrounding application only moves the bytes to and from disk.

use vstd::prelude::*;
use crate::text::{append_bytes, copy_bytes, copy_range, find_byte, find_byte_at};

verus! {

/// The pair a properties line carries: none for a comment line
/// (starting with `#`) or a line without `=`; otherwise the text before
/// the first `=` and the text after it.
pub open spec fn property_of_line(s: Seq<u8>) -> Option<(Seq<u8>, Seq<u8>)> {
    if s.len() > 0 && s[0] == '#' as u8 {
        None
    } else {
        let j = find_byte(s, '=' as u8, 0);
        if 0 <= j && j < s.len() {
            Some((s.subrange(0, j), s.subrange(j + 1, s.len() as int)))
        } else {
            None
        }
    }
}

/// The pairs of a whole file, in line order; lines without a pair are
/// passed over.
pub open spec fn properties_of_lines(ls: Seq<Vec<u8>>) -> Seq<(Seq<u8>, Seq<u8>)>
    decreases ls.len(),
{
    if ls.len() == 0 {
        Seq::empty()
    } else {
        match property_of_line(ls[0]@) {
            Some(p) => seq![p] + properties_of_lines(ls.skip(1)),
            None => properties_of_lines(ls.skip(1)),
        }
    }
}

/// The views of a sequence of pairs of byte vectors.
pub open spec fn pair_views(s: Seq<(Vec<u8>, Vec<u8>)>) -> Seq<(Seq<u8>, Seq<u8>)> {
    s.map_values(|p: (Vec<u8>, Vec<u8>)| (p.0@, p.1@))
}

/// Reads one properties line, exactly as [`property_of_line`] gives it.
pub fn parse_property_line(line: &Vec<u8>) -> (r: Option<(Vec<u8>, Vec<u8>)>)
    ensures
        r is Some <==> property_of_line(line@) is Some,
        r matches Some(q) ==> (property_of_line(line@) matches Some(p) && q.0@ == p.0 && q.1@
            == p.1),
{
    if line.len() > 0 && line[0] == '#' as u8 {
        return None;
    }
    let j = find_byte_at(line, '=' as u8, 0);
    if j == line.len() {
        return None;
    }
    let key = copy_range(line, 0, j);
    let val = copy_range(line, j + 1, line.len());
    Some((key, val))
}

/// Reads the pairs of a whole file, exactly as [`properties_of_lines`]
/// gives them.
pub fn parse_properties(lines: &Vec<Vec<u8>>) -> (r: Vec<(Vec<u8>, Vec<u8>)>)
    ensures
        pair_views(r@) == properties_of_lines(lines@),
{
    let n: usize = lines.len();
    let mut out: Vec<(Vec<u8>, Vec<u8>)> = Vec::new();
    let mut i: usize = 0;
    proof {
        assert(lines@.skip(0) =~= lines@);
        assert(pair_views(out@) + properties_of_lines(lines@) =~= properties_of_lines(lines@));
    }
    while i < n
        invariant
            n == lines@.len(),
            i <= n,
            pair_views(out@) + properties_of_lines(lines@.skip(i as int)) == properties_of_lines(
                lines@,
            ),
        decreases n - i,
    {
        let ghost t = lines@.skip(i as int);
        let ghost prev = out@;
        proof {
            assert(t[0] == lines@[i as int]);
        }
        match parse_property_line(&lines[i]) {
            Some(kv) => {
                let ghost p = (kv.0@, kv.1@);
                out.push(kv);
                proof {
                    assert(pair_views(out@) =~= pair_views(prev).push(p));
                    assert(properties_of_lines(t) == seq![p] + properties_of_lines(t.skip(1)));
                    assert(pair_views(out@) + properties_of_lines(t.skip(1)) =~= pair_views(prev)
                        + properties_of_lines(t));
                }
            },
            None => {
                proof {
                    assert(properties_of_lines(t) == properties_of_lines(t.skip(1)));
                }
            },
        }
        proof {
            assert(t.skip(1) =~= lines@.skip(i + 1));
        }
        i += 1;
    }
    proof {
        assert(lines@.skip(n as int).len() == 0);
        assert(pair_views(out@) =~= pair_views(out@) + properties_of_lines(
            lines@.skip(n as int),
        ));
    }
    out
}

/// One line of a properties file: the key, `=`, the value, a newline.
pub open spec fn property_line_of(k: Seq<u8>, v: Seq<u8>) -> Seq<u8> {
    k + seq!['=' as u8] + v + seq!['\n' as u8]
}

/// The whole text written for a list of pairs, one line each, in order.
pub open spec fn properties_text(ps: Seq<(Vec<u8>, Vec<u8>)>) -> Seq<u8>
    decreases ps.len(),
{
    if ps.len() == 0 {
        Seq::empty()
    } else {
        property_line_of(ps[0].0@, ps[0].1@) + properties_text(ps.skip(1))
    }
}

/// Builds one properties line, exactly as [`property_line_of`] gives it.
pub fn build_property_line(k: &Vec<u8>, v: &Vec<u8>) -> (r: Vec<u8>)
    ensures
        r@ == property_line_of(k@, v@),
{
    let mut out = copy_bytes(k);
    out.push('=' as u8);
    append_bytes(&mut out, v);
    out.push('\n' as u8);
    proof {
        assert(out@ =~= property_line_of(k@, v@));
    }
    out
}

/// Builds the whole text for a list of pairs, exactly as
/// [`properties_text`] gives it.
pub fn build_properties(ps: &Vec<(Vec<u8>, Vec<u8>)>) -> (r: Vec<u8>)
    ensures
        r@ == properties_text(ps@),
{
    let n: usize = ps.len();
    let mut out: Vec<u8> = Vec::new();
    let mut i: usize = 0;
    proof {
        assert(ps@.skip(0) =~= ps@);
        assert(out@ + properties_text(ps@) =~= properties_text(ps@));
    }
    while i < n
        invariant
            n == ps@.len(),
            i <= n,
            out@ + properties_text(ps@.skip(i as int)) == properties_text(ps@),
        decreases n - i,
    {
        let ghost t = ps@.skip(i as int);
        let ghost prev = out@;
        proof {
            assert(t[0] == ps@[i as int]);
        }
        let pair = &ps[i];
        let line = build_property_line(&pair.0, &pair.1);
        append_bytes(&mut out, &line);
        proof {
            assert(t.skip(1) =~= ps@.skip(i + 1));
            assert(properties_text(t) == line@ + properties_text(t.skip(1)));
            assert(out@ + properties_text(t.skip(1)) =~= prev + properties_text(t));
        }
        i += 1;
    }
    proof {
        assert(ps@.skip(n as int).len() == 0);
        assert(out@ =~= out@ + properties_text(ps@.skip(n as int)));
    }
    out
}

} // verus!
