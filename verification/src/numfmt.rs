//! Decimal rendering of integers, for URL query parameters.

use vstd::prelude::*;

verus! {

/// The character for the decimal digit `d`.
pub open spec fn digit_char(d: int) -> char {
    if d == 0 {
        '0'
    } else if d == 1 {
        '1'
    } else if d == 2 {
        '2'
    } else if d == 3 {
        '3'
    } else if d == 4 {
        '4'
    } else if d == 5 {
        '5'
    } else if d == 6 {
        '6'
    } else if d == 7 {
        '7'
    } else if d == 8 {
        '8'
    } else {
        '9'
    }
}

/// The decimal representation of a non-negative integer, without leading
/// zeros (a single `'0'` for zero).
pub open spec fn dec_nat(n: nat) -> Seq<char>
    decreases n,
{
    if n < 10 {
        seq![digit_char(n as int)]
    } else {
        dec_nat(n / 10) + seq![digit_char((n % 10) as int)]
    }
}

/// The decimal representation of an integer: a leading `'-'` for negative
/// values, then the digits of its magnitude.
pub open spec fn dec_int(n: int) -> Seq<char> {
    if n < 0 {
        seq!['-'] + dec_nat((-n) as nat)
    } else {
        dec_nat(n as nat)
    }
}

/// The digits collected low-order first, read back as characters.
spec fn rev_chars(s: Seq<u64>) -> Seq<char>
    decreases s.len(),
{
    if s.len() == 0 {
        Seq::empty()
    } else {
        seq![digit_char(s.last() as int)] + rev_chars(s.drop_last())
    }
}

/// The one-character string for the decimal digit `d`.
fn digit_str(d: u64) -> (r: &'static str)
    requires
        d < 10,
    ensures
        r@ =~= seq![digit_char(d as int)],
{
    proof {
        reveal_strlit("0");
        reveal_strlit("1");
        reveal_strlit("2");
        reveal_strlit("3");
        reveal_strlit("4");
        reveal_strlit("5");
        reveal_strlit("6");
        reveal_strlit("7");
        reveal_strlit("8");
        reveal_strlit("9");
    }
    match d {
        0 => "0",
        1 => "1",
        2 => "2",
        3 => "3",
        4 => "4",
        5 => "5",
        6 => "6",
        7 => "7",
        8 => "8",
        _ => "9",
    }
}

/// Renders a non-negative value in decimal, appending to `out`.
fn append_u64_dec(out: &mut String, m: u64)
    ensures
        final(out)@ == old(out)@ + dec_nat(m as nat),
{
    let mut rev: Vec<u64> = Vec::new();
    let mut v: u64 = m;
    loop
        invariant_except_break
            forall|j: int| 0 <= j < rev@.len() ==> rev@[j] < 10,
            rev@.len() == 0 ==> v == m,
            rev@.len() > 0 ==> v > 0 && dec_nat(m as nat) == dec_nat(v as nat) + rev_chars(
                rev@,
            ),
        ensures
            dec_nat(m as nat) == rev_chars(rev@),
            forall|j: int| 0 <= j < rev@.len() ==> rev@[j] < 10,
        decreases v, (if rev@.len() == 0 { 1int } else { 0int }),
    {
        let ghost rev0 = rev@;
        let d = v % 10;
        v = v / 10;
        rev.push(d);
        proof {
            assert(rev@.drop_last() =~= rev0);
            assert(rev_chars(rev@) == seq![digit_char(d as int)] + rev_chars(rev0));
            if v == 0 {
                assert(dec_nat(m as nat) =~= rev_chars(rev@));
            } else {
                assert(dec_nat(m as nat) =~= dec_nat(v as nat) + rev_chars(rev@));
            }
        }
        if v == 0 {
            break ;
        }
    }
    let ghost all = rev@;
    proof {
        assert(all.subrange(0, all.len() as int) =~= all);
    }
    let mut i = rev.len();
    while i > 0
        invariant
            i <= rev@.len(),
            rev@ == all,
            forall|j: int| 0 <= j < rev@.len() ==> rev@[j] < 10,
            old(out)@ + rev_chars(all) == out@ + rev_chars(all.subrange(0, i as int)),
        decreases i,
    {
        i = i - 1;
        proof {
            assert(all.subrange(0, i as int + 1).drop_last() =~= all.subrange(0, i as int));
            assert(all.subrange(0, i as int + 1).last() == all[i as int]);
        }
        out.append(digit_str(rev[i]));
        proof {
            assert(rev_chars(all.subrange(0, i as int + 1)) == seq![
                digit_char(all[i as int] as int),
            ] + rev_chars(all.subrange(0, i as int)));
            assert(old(out)@ + rev_chars(all) =~= out@ + rev_chars(all.subrange(0, i as int)));
        }
    }
    proof {
        assert(all.subrange(0, 0) =~= Seq::<u64>::empty());
        assert(out@ =~= old(out)@ + rev_chars(all));
        assert(out@ =~= old(out)@ + dec_nat(m as nat));
    }
}

/// Renders `n` in decimal, as the standard library would.
pub fn i64_to_string(n: i64) -> (r: String)
    ensures
        r@ == dec_int(n as int),
{
    let mut out = String::new();
    if n < 0 {
        proof {
            reveal_strlit("-");
        }
        out.append("-");
        let m: u64 = ((-(n + 1)) as u64) + 1;
        append_u64_dec(&mut out, m);
        proof {
            assert(out@ =~= seq!['-'] + dec_nat((-(n as int)) as nat));
        }
        out
    } else {
        append_u64_dec(&mut out, n as u64);
        out
    }
}

} // verus!
