use vstd::prelude::*;

verus! {

/// The view of an optional query parameter.
pub open spec fn param_view(p: Option<&str>) -> Option<Seq<char>> {
    match p {
        Some(s) => Some(s@),
        None => None,
    }
}

/// Whether `c` is a decimal digit.
pub open spec fn is_dec_digit(c: char) -> bool {
    48 <= c as int && c as int <= 57
}

/// Numeric value of a decimal digit character.
pub open spec fn digit_val(c: char) -> int {
    c as int - 48
}

pub open spec fn all_dec_digits(s: Seq<char>) -> bool {
    forall|i: int| 0 <= i < s.len() ==> is_dec_digit(#[trigger] s[i])
}

/// Value of a digit string read in base ten.
pub open spec fn digits_val(s: Seq<char>) -> int
    decreases s.len(),
{
    if s.len() == 0 {
        0
    } else {
        digits_val(s.drop_last()) * 10 + digit_val(s.last())
    }
}

/// The digits of a decimal numeral: everything after an optional
/// leading plus sign.
pub open spec fn digits_part(s: Seq<char>) -> Seq<char> {
    if s.len() > 0 && s[0] == '+' {
        s.subrange(1, s.len() as int)
    } else {
        s
    }
}

/// The unsigned-integer grammar of the standard library's string
/// parser: an optional leading `+`, then one or more decimal digits,
/// with the value within range of the target type.
pub open spec fn parse_u64_spec(s: Seq<char>) -> Option<u64> {
    let d = digits_part(s);
    if d.len() > 0 && all_dec_digits(d) && digits_val(d) <= u64::MAX {
        Some(digits_val(d) as u64)
    } else {
        None
    }
}

pub open spec fn parse_u16_spec(s: Seq<char>) -> Option<u16> {
    let d = digits_part(s);
    if d.len() > 0 && all_dec_digits(d) && digits_val(d) <= u16::MAX {
        Some(digits_val(d) as u16)
    } else {
        None
    }
}

proof fn lemma_digits_val_nonneg(s: Seq<char>)
    requires
        all_dec_digits(s),
    ensures
        digits_val(s) >= 0,
    decreases s.len(),
{
    if s.len() > 0 {
        assert(all_dec_digits(s.drop_last())) by {
            assert(forall|i: int| 0 <= i < s.len() - 1 ==> s.drop_last()[i] == s[i]);
        }
        lemma_digits_val_nonneg(s.drop_last());
    }
}

/// Reading more digits never lowers the value: the value of a digit
/// string is at least the value of any of its prefixes.
proof fn lemma_digits_val_prefix(s: Seq<char>, k: int)
    requires
        0 <= k <= s.len(),
        all_dec_digits(s),
    ensures
        digits_val(s.subrange(0, k)) <= digits_val(s),
    decreases s.len() - k,
{
    if k == s.len() {
        assert(s.subrange(0, k) =~= s);
    } else {
        let longer = s.subrange(0, k + 1);
        let shorter = s.subrange(0, k);
        assert(longer.drop_last() =~= shorter);
        assert(longer.last() == s[k]);
        assert(all_dec_digits(shorter)) by {
            assert(forall|i: int| 0 <= i < k ==> shorter[i] == s[i]);
        }
        lemma_digits_val_nonneg(shorter);
        assert(digits_val(longer) == digits_val(shorter) * 10 + digit_val(s[k]));
        lemma_digits_val_prefix(s, k + 1);
    }
}

/// Parse a decimal `u64` as the standard library's parser reads one:
/// an optional leading `+`, then one or more decimal digits; anything
/// else, or a value past `u64::MAX`, is rejected.
pub fn parse_u64(s: &str) -> (r: Option<u64>)
    ensures
        r == parse_u64_spec(s@),
{
    let n = s.unicode_len();
    let start: usize = if n > 0 && s.get_char(0) == '+' {
        1
    } else {
        0
    };
    let ghost d = digits_part(s@);
    proof {
        assert(d =~= s@.subrange(start as int, n as int));
    }
    if n == start {
        return None;
    }
    let mut acc: u64 = 0;
    let mut i: usize = start;
    while i < n
        invariant
            start <= i <= n,
            n == s@.len(),
            d == s@.subrange(start as int, n as int),
            d == digits_part(s@),
            all_dec_digits(s@.subrange(start as int, i as int)),
            acc as int == digits_val(s@.subrange(start as int, i as int)),
        decreases n - i,
    {
        let c = s.get_char(i);
        let code = c as u32;
        if code < 48 || code > 57 {
            proof {
                assert(d[i - start] == s@[i as int]);
                assert(!is_dec_digit(d[i - start]));
            }
            return None;
        }
        let digit = (code - 48) as u64;
        let ghost prefix = s@.subrange(start as int, i as int);
        let ghost prefix1 = s@.subrange(start as int, i + 1);
        proof {
            assert(prefix1.drop_last() =~= prefix);
            assert(prefix1.last() == s@[i as int]);
            assert(digits_val(prefix1) == acc * 10 + digit);
        }
        if acc > (u64::MAX - digit) / 10 {
            proof {
                assert(acc * 10 + digit > u64::MAX);
                if all_dec_digits(d) {
                    assert(prefix1 =~= d.subrange(0, i + 1 - start));
                    lemma_digits_val_prefix(d, i + 1 - start);
                    assert(digits_val(d) > u64::MAX);
                }
            }
            return None;
        }
        acc = acc * 10 + digit;
        i = i + 1;
        proof {
            assert(all_dec_digits(prefix1)) by {
                assert(forall|j: int| 0 <= j < prefix.len() ==> prefix1[j] == prefix[j]);
            }
        }
    }
    proof {
        assert(d =~= s@.subrange(start as int, i as int));
    }
    Some(acc)
}

/// Parse a decimal `u16` under the same grammar as [`parse_u64`].
pub fn parse_u16(s: &str) -> (r: Option<u16>)
    ensures
        r == parse_u16_spec(s@),
{
    proof {
        let d = digits_part(s@);
        if all_dec_digits(d) {
            lemma_digits_val_nonneg(d);
        }
    }
    match parse_u64(s) {
        Some(n) => {
            if n <= u16::MAX as u64 {
                Some(n as u16)
            } else {
                None
            }
        },
        None => None,
    }
}

/// Parse an optional parameter as a `u64`, falling back to `dflt` when
/// it is missing or malformed.
pub open spec fn u64_param_or_spec(p: Option<Seq<char>>, dflt: u64) -> u64 {
    match p {
        Some(s) => match parse_u64_spec(s) {
            Some(n) => n,
            None => dflt,
        },
        None => dflt,
    }
}

pub fn u64_param_or(p: Option<&str>, dflt: u64) -> (r: u64)
    ensures
        r == u64_param_or_spec(param_view(p), dflt),
{
    match p {
        Some(s) => match parse_u64(s) {
            Some(n) => n,
            None => dflt,
        },
        None => dflt,
    }
}

/// Parse an optional parameter as a `u16`, falling back to `dflt` when
/// it is missing or malformed.
pub open spec fn u16_param_or_spec(p: Option<Seq<char>>, dflt: u16) -> u16 {
    match p {
        Some(s) => match parse_u16_spec(s) {
            Some(n) => n,
            None => dflt,
        },
        None => dflt,
    }
}

pub fn u16_param_or(p: Option<&str>, dflt: u16) -> (r: u16)
    ensures
        r == u16_param_or_spec(param_view(p), dflt),
{
    match p {
        Some(s) => match parse_u16(s) {
            Some(n) => n,
            None => dflt,
        },
        None => dflt,
    }
}

/// The code point of `c` with an ASCII capital letter lowered.
pub open spec fn ascii_lower_code(c: char) -> int {
    if 65 <= c as int && c as int <= 90 {
        c as int + 32
    } else {
        c as int
    }
}

/// ASCII-case-insensitive equality of two character sequences.
pub open spec fn eq_ignore_ascii_case_spec(a: Seq<char>, b: Seq<char>) -> bool {
    a.len() == b.len() && forall|i: int|
        0 <= i < a.len() ==> ascii_lower_code(#[trigger] a[i]) == ascii_lower_code(b[i])
}

/// The lenient boolean grammar: an ASCII-case-insensitive match against
/// `true`, `t`, `yes`, `y` or exactly `1` reads as true; against
/// `false`, `f`, `no`, `n` or exactly `0` as false; anything else is
/// rejected.
pub open spec fn lenient_bool_spec(s: Seq<char>) -> Option<bool> {
    if eq_ignore_ascii_case_spec(s, "true"@) || eq_ignore_ascii_case_spec(s, "t"@)
        || eq_ignore_ascii_case_spec(s, "yes"@) || eq_ignore_ascii_case_spec(s, "y"@)
        || s == "1"@ {
        Some(true)
    } else if eq_ignore_ascii_case_spec(s, "false"@) || eq_ignore_ascii_case_spec(s, "f"@)
        || eq_ignore_ascii_case_spec(s, "no"@) || eq_ignore_ascii_case_spec(s, "n"@)
        || s == "0"@ {
        Some(false)
    } else {
        None
    }
}

/// Relies on `lenient_bool::LenientBool`'s `FromStr`: it matches the
/// input ASCII-case-insensitively against `true`/`t`/`yes`/`y` and
/// `false`/`f`/`no`/`n`, and exactly against `1` and `0`; every other
/// input is an error.
#[verifier::external_body]
fn parse_lenient_bool(s: &str) -> (r: Option<bool>)
    ensures
        r == lenient_bool_spec(s@),
{
    s.parse::<lenient_bool::LenientBool>().ok().map(|b| b.0)
}

/// Read an optional parameter as a lenient boolean, falling back to
/// false when it is missing or malformed.
pub open spec fn paused_param_spec(p: Option<Seq<char>>) -> bool {
    match p {
        Some(s) => match lenient_bool_spec(s) {
            Some(b) => b,
            None => false,
        },
        None => false,
    }
}

pub fn paused_from_param(p: Option<&str>) -> (r: bool)
    ensures
        r == paused_param_spec(param_view(p)),
{
    match p {
        Some(s) => match parse_lenient_bool(s) {
            Some(b) => b,
            None => false,
        },
        None => false,
    }
}

} // verus!
