//! Numbers as decimal text.

use vstd::prelude::*;
use vstd::string::StringExecFns;

verus! {

/// The character of a digit.
pub open spec fn digit(d: nat) -> char {
    (48 + d) as u8 as char
}

/// A number in decimal digits, without leading zeros.
pub open spec fn decimal(n: nat) -> Seq<char>
    decreases n,
{
    if n < 10 {
        seq![digit(n)]
    } else {
        decimal(n / 10).push(digit(n % 10))
    }
}

/// A signed number in decimal digits, with a minus sign where it is negative.
pub open spec fn signed_decimal(n: int) -> Seq<char> {
    if n < 0 {
        seq!['-'] + decimal((-n) as nat)
    } else {
        decimal(n as nat)
    }
}

/// The digit of a number below ten.
fn digit_text(d: u32) -> (r: &'static str)
    requires
        d < 10,
    ensures
        r@ == seq![digit(d as nat)],
{
    proof {
        reveal_strlit("0");
        reveal_strlit("1");
        reveal_strlit("2");
        reveal_strlit("3");
        reveal_strlit("4");
        reveal_strlit("5");
        reveal_strlit("6");
        reveal_strlit("7");
        reveal_strlit("8");
        reveal_strlit("9");
    }
    let r: &'static str = if d == 0 {
        "0"
    } else if d == 1 {
        "1"
    } else if d == 2 {
        "2"
    } else if d == 3 {
        "3"
    } else if d == 4 {
        "4"
    } else if d == 5 {
        "5"
    } else if d == 6 {
        "6"
    } else if d == 7 {
        "7"
    } else if d == 8 {
        "8"
    } else {
        "9"
    };
    proof {
        assert(r@ =~= seq![digit(d as nat)]);
    }
    r
}

/// Appends a number in decimal digits.
pub fn append_decimal(out: &mut String, n: u32)
    ensures
        final(out)@ == old(out)@ + decimal(n as nat),
    decreases n,
{
    let ghost start = out@;
    if n >= 10 {
        append_decimal(out, n / 10);
    }
    out.append(digit_text(n % 10));
    proof {
        assert(out@ =~= start + decimal(n as nat));
    }
}

/// Appends a signed number in decimal digits.
pub fn append_signed(out: &mut String, n: i32)
    ensures
        final(out)@ == old(out)@ + signed_decimal(n as int),
{
    let ghost start = out@;
    if n < 0 {
        proof {
            reveal_strlit("-");
        }
        out.append("-");
        let size: u32 = (-(n as i64)) as u32;
        append_decimal(out, size);
        proof {
            assert("-"@ =~= seq!['-']);
            assert(out@ =~= start + signed_decimal(n as int));
        }
    } else {
        append_decimal(out, n as u32);
    }
}

/// The number that a run of digits says, read from left to right.
pub open spec fn number_read(text: Seq<char>) -> int
    decreases text.len(),
{
    if text.len() == 0 {
        0
    } else {
        10 * number_read(text.drop_last()) + (text.last() as int - '0' as int)
    }
}

/// A number in decimal is made of digits only, reads as the number, and has no leading zero but for zero
/// itself.
pub proof fn decimal_reads_as_the_number(n: nat)
    ensures
        decimal(n).len() > 0,
        forall|i: int| 0 <= i < decimal(n).len() ==> '0' <= #[trigger] decimal(n)[i] <= '9',
        number_read(decimal(n)) == n,
        decimal(n)[0] == '0' ==> decimal(n).len() == 1,
    decreases n,
{
    if n < 10 {
        assert(seq![digit(n)].drop_last() =~= Seq::<char>::empty());
        assert(number_read(seq![digit(n)].drop_last()) == 0);
    } else {
        decimal_reads_as_the_number(n / 10);
        assert(decimal(n).drop_last() =~= decimal(n / 10));
        assert(decimal(n).last() == digit(n % 10));
        if decimal(n)[0] == '0' {
            assert(decimal(n / 10)[0] == '0');
            assert(number_read(decimal(n / 10)) < 10) by {
                assert(decimal(n / 10).drop_last() =~= Seq::<char>::empty());
                assert(number_read(decimal(n / 10).drop_last()) == 0);
            }
            assert(decimal(n / 10).last() == '0');
            assert(number_read(decimal(n / 10)) == 0);
        }
    }
}

/// A signed number starts with a minus sign exactly where it is negative, and then goes on with its size.
pub proof fn signs_are_written(n: int)
    ensures
        signed_decimal(n)[0] == '-' <==> n < 0,
        n >= 0 ==> number_read(signed_decimal(n)) == n,
        n < 0 ==> number_read(signed_decimal(n).skip(1)) == -n,
{
    if n < 0 {
        decimal_reads_as_the_number((-n) as nat);
        assert(signed_decimal(n).skip(1) =~= decimal((-n) as nat));
    } else {
        decimal_reads_as_the_number(n as nat);
    }
}

} // verus!
