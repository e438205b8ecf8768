//! Decimal text for the integer attributes of a record, matching the default
//! decimal rendering of a signed integer: no leading zeros, a leading minus
//! sign for negative values.

use vstd::prelude::*;

verus! {

use crate::text::newline_free;
use vstd::string::StringExecFns;

/// The decimal digit character for a value below ten.
pub open spec fn dec_digit(d: int) -> char {
    if d == 0 {
        '0'
    } else if d == 1 {
        '1'
    } else if d == 2 {
        '2'
    } else if d == 3 {
        '3'
    } else if d == 4 {
        '4'
    } else if d == 5 {
        '5'
    } else if d == 6 {
        '6'
    } else if d == 7 {
        '7'
    } else if d == 8 {
        '8'
    } else {
        '9'
    }
}

/// The decimal digit sequence of a natural number, most significant first.
pub open spec fn dec_nat(n: nat) -> Seq<char>
    decreases n,
{
    if n < 10 {
        seq![dec_digit(n as int)]
    } else {
        dec_nat(n / 10) + seq![dec_digit((n % 10) as int)]
    }
}

/// The decimal text of an integer: its magnitude's digits, with a minus sign
/// in front when the value is negative.
pub open spec fn dec_int(i: int) -> Seq<char> {
    if i < 0 {
        seq!['-'] + dec_nat((-i) as nat)
    } else {
        dec_nat(i as nat)
    }
}

/// Decimal digits never include a line break.
pub proof fn lemma_dec_nat_newline_free(n: nat)
    ensures
        newline_free(dec_nat(n)),
    decreases n,
{
    if n >= 10 {
        lemma_dec_nat_newline_free(n / 10);
        crate::text::lemma_newline_free_concat(dec_nat(n / 10), seq![dec_digit((n % 10) as int)]);
    }
}

/// The decimal text of an integer never includes a line break.
pub proof fn lemma_dec_int_newline_free(i: int)
    ensures
        newline_free(dec_int(i)),
{
    if i < 0 {
        lemma_dec_nat_newline_free((-i) as nat);
        crate::text::lemma_newline_free_concat(seq!['-'], dec_nat((-i) as nat));
    } else {
        lemma_dec_nat_newline_free(i as nat);
    }
}

fn digit_str(d: u8) -> (s: &'static str)
    requires
        d < 10,
    ensures
        s@ == seq![dec_digit(d as int)],
{
    proof {
        reveal_strlit("0");
        reveal_strlit("1");
        reveal_strlit("2");
        reveal_strlit("3");
        reveal_strlit("4");
        reveal_strlit("5");
        reveal_strlit("6");
        reveal_strlit("7");
        reveal_strlit("8");
        reveal_strlit("9");
    }
    let s = if d == 0 {
        "0"
    } else if d == 1 {
        "1"
    } else if d == 2 {
        "2"
    } else if d == 3 {
        "3"
    } else if d == 4 {
        "4"
    } else if d == 5 {
        "5"
    } else if d == 6 {
        "6"
    } else if d == 7 {
        "7"
    } else if d == 8 {
        "8"
    } else {
        "9"
    };
    proof {
        assert(s@ =~= seq![dec_digit(d as int)]);
    }
    s
}

fn push_dec_u64(out: &mut String, n: u64)
    ensures
        final(out)@ == old(out)@ + dec_nat(n as nat),
    decreases n,
{
    if n < 10 {
        out.append(digit_str(n as u8));
    } else {
        push_dec_u64(out, n / 10);
        out.append(digit_str((n % 10) as u8));
        proof {
            assert(old(out)@ + dec_nat(n as nat) =~= old(out)@ + dec_nat(n as nat / 10) + seq![
                dec_digit((n as nat % 10) as int),
            ]);
        }
    }
}

/// The decimal text of a signed 32-bit value.
pub fn i32_to_decimal(i: i32) -> (r: String)
    ensures
        r@ == dec_int(i as int),
{
    let mut out = String::new();
    if i < 0 {
        proof {
            reveal_strlit("-");
        }
        out.append("-");
        proof {
            assert(out@ =~= seq!['-']);
        }
        let wide: i64 = i as i64;
        let mag: u64 = (-wide) as u64;
        proof {
            assert(mag as nat == (-(i as int)) as nat);
        }
        push_dec_u64(&mut out, mag);
    } else {
        push_dec_u64(&mut out, i as u64);
    }
    out
}

} // verus!
