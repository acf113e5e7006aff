//! Resident-memory telemetry: the exact reading of the `VmRSS:` line of
//! an OS process status report.  The caller reads the report; this
//! module decides, for every possible content, what figure it yields —
//! an absent or unreadable report always degrades to zero, never to an
//! error.

use vstd::prelude::*;
use crate::text::{
    decimal_value, digit_run_end, digit_run_len, is_digit, lemma_digit_run_digits, occurs_at,
    parse_decimal_u64, space_run_end, space_run_len, starts_with_at, token_run_end, token_run_len,
};

verus! {

/// `"VmRSS:"`, the label of the resident-set line of a status report.
pub open spec fn lit_vm_rss() -> Seq<u8> {
    seq!['V' as u8, 'm' as u8, 'R' as u8, 'S' as u8, 'S' as u8, ':' as u8]
}

/// The kilobyte figure one report line carries: the line must start with
/// the `VmRSS:` label; the figure is the first whitespace-separated token
/// after it, provided that token is all digits and fits in `u64`.
pub open spec fn vm_rss_kb_of_line(s: Seq<u8>) -> Option<u64> {
    if !occurs_at(s, lit_vm_rss(), 0) {
        None
    } else {
        let t = lit_vm_rss().len() + space_run_len(s, lit_vm_rss().len() as int);
        let e = t + token_run_len(s, t as int);
        if e == t {
            None
        } else if digit_run_len(s, t as int) != e - t {
            None
        } else if decimal_value(s.subrange(t as int, e as int)) > u64::MAX {
            None
        } else {
            Some(decimal_value(s.subrange(t as int, e as int)) as u64)
        }
    }
}

/// The resident-set figure of a whole report: the first line labelled
/// `VmRSS:` decides; zero when no line is, or when that line's figure is
/// unreadable.
pub open spec fn vm_rss_kb_of_report(ls: Seq<Vec<u8>>) -> u64
    decreases ls.len(),
{
    if ls.len() == 0 {
        0
    } else if occurs_at(ls[0]@, lit_vm_rss(), 0) {
        match vm_rss_kb_of_line(ls[0]@) {
            Some(v) => v,
            None => 0,
        }
    } else {
        vm_rss_kb_of_report(ls.skip(1))
    }
}

/// `"VmRSS:"` as bytes.
fn bytes_vm_rss() -> (r: Vec<u8>)
    ensures
        r@ == lit_vm_rss(),
{
    let v: Vec<u8> = vec!['V' as u8, 'm' as u8, 'R' as u8, 'S' as u8, 'S' as u8, ':' as u8];
    proof {
        assert(v@ =~= lit_vm_rss());
    }
    v
}

/// Reads the kilobyte figure of one report line, exactly as
/// [`vm_rss_kb_of_line`] gives it.
pub fn parse_vm_rss_line(line: &Vec<u8>) -> (r: Option<u64>)
    ensures
        r == vm_rss_kb_of_line(line@),
{
    let p = bytes_vm_rss();
    if !starts_with_at(line, &p, 0) {
        return None;
    }
    let t: usize = space_run_end(line, p.len());
    let e: usize = token_run_end(line, t);
    if e == t {
        return None;
    }
    let de: usize = digit_run_end(line, t);
    if de != e {
        return None;
    }
    proof {
        lemma_digit_run_digits(line@, t as int);
    }
    parse_decimal_u64(line, t, e)
}

/// The resident-set figure of a whole report, exactly as
/// [`vm_rss_kb_of_report`] gives it.
pub fn vm_rss_kb(lines: &Vec<Vec<u8>>) -> (r: u64)
    ensures
        r == vm_rss_kb_of_report(lines@),
{
    let p = bytes_vm_rss();
    let n: usize = lines.len();
    let mut i: usize = 0;
    proof {
        assert(lines@.skip(0) =~= lines@);
    }
    while i < n
        invariant
            n == lines@.len(),
            i <= n,
            p@ == lit_vm_rss(),
            vm_rss_kb_of_report(lines@) == vm_rss_kb_of_report(lines@.skip(i as int)),
        decreases n - i,
    {
        proof {
            assert(lines@.skip(i as int)[0] == lines@[i as int]);
        }
        if starts_with_at(&lines[i], &p, 0) {
            let r = match parse_vm_rss_line(&lines[i]) {
                Some(v) => v,
                None => 0,
            };
            return r;
        }
        proof {
            assert(lines@.skip(i as int).skip(1) =~= lines@.skip(i + 1));
        }
        i += 1;
    }
    0
}

} // verus!
