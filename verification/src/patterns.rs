//! The fixed line patterns the log tailer applies to the supervised
//! process's standard output: the readiness marker and the player-count
//! report `There are <N> of [a max of ]<M> players online`.

use vstd::prelude::*;
use crate::text::{
    contains_pat, contains_seq, decimal_value, digit_run_end, digit_run_len, is_digit,
    lemma_digit_run_digits, occurs_at, parse_decimal_u64, starts_with_at,
};

verus! {

/// The readiness marker: a startup-complete line contains this text.
pub open spec fn lit_done() -> Seq<u8> {
    seq!['D' as u8, 'o' as u8, 'n' as u8, 'e' as u8, ' ' as u8, '(' as u8]
}

/// `"There are "`, the opening of the player-count report.
pub open spec fn lit_there_are() -> Seq<u8> {
    seq![
        'T' as u8, 'h' as u8, 'e' as u8, 'r' as u8, 'e' as u8, ' ' as u8, 'a' as u8, 'r' as u8,
        'e' as u8, ' ' as u8,
    ]
}

/// `" of "`, separating the two counts.
pub open spec fn lit_of() -> Seq<u8> {
    seq![' ' as u8, 'o' as u8, 'f' as u8, ' ' as u8]
}

/// `"a max of "`, the optional wording before the second count.
pub open spec fn lit_a_max_of() -> Seq<u8> {
    seq![
        'a' as u8, ' ' as u8, 'm' as u8, 'a' as u8, 'x' as u8, ' ' as u8, 'o' as u8, 'f' as u8,
        ' ' as u8,
    ]
}

/// `" players online"`, the closing of the player-count report.
pub open spec fn lit_players_online() -> Seq<u8> {
    seq![
        ' ' as u8, 'p' as u8, 'l' as u8, 'a' as u8, 'y' as u8, 'e' as u8, 'r' as u8, 's' as u8,
        ' ' as u8, 'o' as u8, 'n' as u8, 'l' as u8, 'i' as u8, 'n' as u8, 'e' as u8,
    ]
}

/// A line signals startup completion when it contains the readiness marker.
pub open spec fn is_ready_line(s: Seq<u8>) -> bool {
    contains_seq(s, lit_done())
}

/// The player-count pattern matches at position `i` of `s`: the literal
/// `There are `, a nonempty digit run, the literal ` of `, optionally the
/// literal `a max of `, a second nonempty digit run, and the literal
/// ` players online`.
pub open spec fn player_match_at(s: Seq<u8>, i: int) -> bool {
    occurs_at(s, lit_there_are(), i) && {
        let j = i + lit_there_are().len();
        let d1 = digit_run_len(s, j) as int;
        d1 > 0 && occurs_at(s, lit_of(), j + d1) && {
            let k0 = j + d1 + lit_of().len();
            let k = if occurs_at(s, lit_a_max_of(), k0) {
                k0 + lit_a_max_of().len()
            } else {
                k0
            };
            let d2 = digit_run_len(s, k) as int;
            d2 > 0 && occurs_at(s, lit_players_online(), k + d2)
        }
    }
}

/// The first count of a match at `i`: the value of the digit run after
/// `There are `.
pub open spec fn player_match_online(s: Seq<u8>, i: int) -> nat {
    let j = i + lit_there_are().len();
    decimal_value(s.subrange(j, j + digit_run_len(s, j)))
}

/// The second count of a match at `i`: the value of the digit run before
/// ` players online`.
pub open spec fn player_match_max(s: Seq<u8>, i: int) -> nat {
    let j = i + lit_there_are().len();
    let d1 = digit_run_len(s, j) as int;
    let k0 = j + d1 + lit_of().len();
    let k = if occurs_at(s, lit_a_max_of(), k0) {
        k0 + lit_a_max_of().len()
    } else {
        k0
    };
    decimal_value(s.subrange(k, k + digit_run_len(s, k)))
}

/// The leftmost position at or after `i` where the pattern matches.
pub open spec fn first_player_match(s: Seq<u8>, i: int) -> Option<int>
    decreases s.len() - i,
{
    if i < 0 || i > s.len() {
        None
    } else if player_match_at(s, i) {
        Some(i)
    } else if i == s.len() {
        None
    } else {
        first_player_match(s, i + 1)
    }
}

/// The counts a line reports: the two numbers of the leftmost occurrence
/// of the player-count pattern, provided both fit in `u32`; `None` when
/// the pattern does not occur or a number is out of range.
pub open spec fn player_counts(s: Seq<u8>) -> Option<(u32, u32)> {
    match first_player_match(s, 0) {
        Some(i) => {
            let n = player_match_online(s, i);
            let m = player_match_max(s, i);
            if n <= u32::MAX && m <= u32::MAX {
                Some((n as u32, m as u32))
            } else {
                None
            }
        },
        None => None,
    }
}

/// Scanning forward over positions without a match does not change the
/// leftmost match.
proof fn lemma_first_match_skip(s: Seq<u8>, a: int, b: int)
    requires
        0 <= a <= b <= s.len(),
        forall|k: int| a <= k < b ==> !player_match_at(s, k),
    ensures
        first_player_match(s, a) == first_player_match(s, b),
    decreases b - a,
{
    if a < b {
        lemma_first_match_skip(s, a + 1, b);
    }
}

/// The readiness marker as bytes.
pub fn bytes_done() -> (r: Vec<u8>)
    ensures
        r@ == lit_done(),
{
    let v: Vec<u8> = vec!['D' as u8, 'o' as u8, 'n' as u8, 'e' as u8, ' ' as u8, '(' as u8];
    proof {
        assert(v@ =~= lit_done());
    }
    v
}

fn bytes_there_are() -> (r: Vec<u8>)
    ensures
        r@ == lit_there_are(),
{
    let v: Vec<u8> = vec![
        'T' as u8, 'h' as u8, 'e' as u8, 'r' as u8, 'e' as u8, ' ' as u8, 'a' as u8, 'r' as u8,
        'e' as u8, ' ' as u8,
    ];
    proof {
        assert(v@ =~= lit_there_are());
    }
    v
}

fn bytes_of() -> (r: Vec<u8>)
    ensures
        r@ == lit_of(),
{
    let v: Vec<u8> = vec![' ' as u8, 'o' as u8, 'f' as u8, ' ' as u8];
    proof {
        assert(v@ =~= lit_of());
    }
    v
}

fn bytes_a_max_of() -> (r: Vec<u8>)
    ensures
        r@ == lit_a_max_of(),
{
    let v: Vec<u8> = vec![
        'a' as u8, ' ' as u8, 'm' as u8, 'a' as u8, 'x' as u8, ' ' as u8, 'o' as u8, 'f' as u8,
        ' ' as u8,
    ];
    proof {
        assert(v@ =~= lit_a_max_of());
    }
    v
}

fn bytes_players_online() -> (r: Vec<u8>)
    ensures
        r@ == lit_players_online(),
{
    let v: Vec<u8> = vec![
        ' ' as u8, 'p' as u8, 'l' as u8, 'a' as u8, 'y' as u8, 'e' as u8, 'r' as u8, 's' as u8,
        ' ' as u8, 'o' as u8, 'n' as u8, 'l' as u8, 'i' as u8, 'n' as u8, 'e' as u8,
    ];
    proof {
        assert(v@ =~= lit_players_online());
    }
    v
}

/// Does a line contain the readiness marker?
pub fn ready_line(line: &Vec<u8>) -> (r: bool)
    ensures
        r == is_ready_line(line@),
{
    let pat = bytes_done();
    contains_pat(line, &pat)
}

/// Checks the player-count pattern at position `i` and, on a match,
/// returns the bounds of the two digit runs.
fn player_match_positions(
    line: &Vec<u8>,
    i: usize,
    p_there: &Vec<u8>,
    p_of: &Vec<u8>,
    p_amo: &Vec<u8>,
    p_po: &Vec<u8>,
) -> (r: Option<(usize, usize, usize, usize)>)
    requires
        p_there@ == lit_there_are(),
        p_of@ == lit_of(),
        p_amo@ == lit_a_max_of(),
        p_po@ == lit_players_online(),
    ensures
        r is Some <==> player_match_at(line@, i as int),
        r matches Some((a, b, c, d)) ==> {
            &&& a == i + lit_there_are().len()
            &&& b == a + digit_run_len(line@, a as int)
            &&& b + lit_of().len() <= line@.len()
            &&& c == (if occurs_at(line@, lit_a_max_of(), b + lit_of().len() as int) {
                b + lit_of().len() + lit_a_max_of().len()
            } else {
                b + lit_of().len()
            })
            &&& d == c + digit_run_len(line@, c as int)
        },
{
    let n: usize = line.len();
    if !starts_with_at(line, p_there, i) {
        return None;
    }
    proof {
        assert(i + p_there@.len() <= n);
    }
    let a: usize = i + p_there.len();
    let b: usize = digit_run_end(line, a);
    if b == a {
        return None;
    }
    if !starts_with_at(line, p_of, b) {
        return None;
    }
    proof {
        assert(b + p_of@.len() <= n);
    }
    let k0: usize = b + p_of.len();
    let c: usize = if starts_with_at(line, p_amo, k0) {
        k0 + p_amo.len()
    } else {
        k0
    };
    let d: usize = digit_run_end(line, c);
    if d == c {
        return None;
    }
    if !starts_with_at(line, p_po, d) {
        return None;
    }
    Some((a, b, c, d))
}

/// Parses the counts a line reports, exactly as [`player_counts`] gives
/// them: the leftmost occurrence of the player-count pattern, `None` when
/// there is none or a count does not fit in `u32`.
pub fn parse_player_line(line: &Vec<u8>) -> (r: Option<(u32, u32)>)
    ensures
        r == player_counts(line@),
{
    let p_there = bytes_there_are();
    let p_of = bytes_of();
    let p_amo = bytes_a_max_of();
    let p_po = bytes_players_online();
    let n: usize = line.len();
    let mut i: usize = 0;
    while i < n
        invariant
            n == line@.len(),
            i <= n,
            p_there@ == lit_there_are(),
            p_of@ == lit_of(),
            p_amo@ == lit_a_max_of(),
            p_po@ == lit_players_online(),
            forall|k: int| 0 <= k < i ==> !player_match_at(line@, k),
        decreases n - i,
    {
        match player_match_positions(line, i, &p_there, &p_of, &p_amo, &p_po) {
            Some((a, b, c, d)) => {
                proof {
                    lemma_first_match_skip(line@, 0, i as int);
                    assert(first_player_match(line@, 0) == Some(i as int));
                    lemma_digit_run_digits(line@, a as int);
                    lemma_digit_run_digits(line@, c as int);
                }
                let nv = parse_decimal_u64(line, a, b);
                let mv = parse_decimal_u64(line, c, d);
                proof {
                    assert(player_match_online(line@, i as int) == decimal_value(
                        line@.subrange(a as int, b as int),
                    ));
                    assert(player_match_max(line@, i as int) == decimal_value(
                        line@.subrange(c as int, d as int),
                    ));
                }
                let online: u64 = match nv {
                    Some(v) => v,
                    None => {
                        return None;
                    },
                };
                let maxp: u64 = match mv {
                    Some(v) => v,
                    None => {
                        return None;
                    },
                };
                if online > u32::MAX as u64 || maxp > u32::MAX as u64 {
                    return None;
                }
                return Some((online as u32, maxp as u32));
            },
            None => {
                i += 1;
            },
        }
    }
    proof {
        lemma_first_match_skip(line@, 0, n as int);
    }
    None
}

} // verus!
