use vstd::prelude::*;

verus! {

/// The decimal digit character for a value below ten.
pub open spec fn dec_digit_char(d: int) -> char {
    if d == 0 {
        '0'
    } else if d == 1 {
        '1'
    } else if d == 2 {
        '2'
    } else if d == 3 {
        '3'
    } else if d == 4 {
        '4'
    } else if d == 5 {
        '5'
    } else if d == 6 {
        '6'
    } else if d == 7 {
        '7'
    } else if d == 8 {
        '8'
    } else {
        '9'
    }
}

/// Decimal numeral of a non-negative value, most significant digit
/// first, with no leading zeros (a lone zero for 0).
pub open spec fn dec_str(n: int) -> Seq<char>
    decreases n,
{
    if n < 10 {
        seq![dec_digit_char(n)]
    } else {
        dec_str(n / 10).push(dec_digit_char(n % 10))
    }
}

/// A value rendered with at least two digits: one leading zero below
/// ten.
pub open spec fn two_digit_str(n: int) -> Seq<char> {
    if n < 10 {
        seq!['0'] + dec_str(n)
    } else {
        dec_str(n)
    }
}

/// A countdown in milliseconds rendered as `minutes:seconds`, the
/// seconds zero-padded to two digits.
pub open spec fn clock_str(ms: int) -> Seq<char> {
    let total = ms / 1000;
    dec_str(total / 60) + ":"@ + two_digit_str(total % 60)
}

fn digit_to_str(d: u64) -> (r: &'static str)
    requires
        d < 10,
    ensures
        r@ == seq![dec_digit_char(d as int)],
{
    proof {
        reveal_strlit("0");
        reveal_strlit("1");
        reveal_strlit("2");
        reveal_strlit("3");
        reveal_strlit("4");
        reveal_strlit("5");
        reveal_strlit("6");
        reveal_strlit("7");
        reveal_strlit("8");
        reveal_strlit("9");
    }
    let r = if d == 0 {
        "0"
    } else if d == 1 {
        "1"
    } else if d == 2 {
        "2"
    } else if d == 3 {
        "3"
    } else if d == 4 {
        "4"
    } else if d == 5 {
        "5"
    } else if d == 6 {
        "6"
    } else if d == 7 {
        "7"
    } else if d == 8 {
        "8"
    } else {
        "9"
    };
    proof {
        assert(r@ =~= seq![dec_digit_char(d as int)]);
    }
    r
}

/// Render a value as its decimal numeral.
pub fn u64_to_string(n: u64) -> (r: String)
    ensures
        r@ == dec_str(n as int),
    decreases n,
{
    if n < 10 {
        let s = digit_to_str(n);
        s.to_owned()
    } else {
        let mut prefix = u64_to_string(n / 10);
        let digit = digit_to_str(n % 10);
        prefix.append(digit);
        proof {
            assert(dec_str((n as int) / 10).push(dec_digit_char((n as int) % 10)) =~= dec_str(
                (n as int) / 10,
            ) + seq![dec_digit_char((n as int) % 10)]);
        }
        prefix
    }
}

/// Render a countdown in milliseconds as `minutes:seconds`, the seconds
/// zero-padded to two digits.
pub fn format_ms(ms: u64) -> (r: String)
    ensures
        r@ == clock_str(ms as int),
{
    let total = ms / 1000;
    let minutes = total / 60;
    let secs = total % 60;
    let mut out = u64_to_string(minutes);
    out.append(":");
    if secs < 10 {
        out.append("0");
        proof {
            reveal_strlit("0");
            assert("0"@ =~= seq!['0']);
        }
    }
    let secs_str = u64_to_string(secs);
    out.append(secs_str.as_str());
    proof {
        assert(out@ =~= clock_str(ms as int));
    }
    out
}

} // verus!
