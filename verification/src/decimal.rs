use vstd::prelude::*;

verus! {

/// The decimal digit character for `d` (meaningful for `d < 10`).
pub open spec fn digit_char(d: nat) -> char {
    if d == 0 {
        '0'
    } else if d == 1 {
        '1'
    } else if d == 2 {
        '2'
    } else if d == 3 {
        '3'
    } else if d == 4 {
        '4'
    } else if d == 5 {
        '5'
    } else if d == 6 {
        '6'
    } else if d == 7 {
        '7'
    } else if d == 8 {
        '8'
    } else {
        '9'
    }
}

/// The canonical decimal rendering of `n`: no leading zeroes, `"0"` for zero.
pub open spec fn dec_rep(n: nat) -> Seq<char>
    decreases n,
{
    if n < 10 {
        seq![digit_char(n)]
    } else {
        dec_rep(n / 10) + seq![digit_char(n % 10)]
    }
}

pub open spec fn is_dec_digit(c: char) -> bool {
    '0' <= c && c <= '9'
}

/// The numeric value of a decimal digit character.
pub open spec fn digit_val(c: char) -> nat {
    (c as int - '0' as int) as nat
}

pub open spec fn all_dec_digits(s: Seq<char>) -> bool {
    forall|i: int| 0 <= i < s.len() ==> is_dec_digit(s[i])
}

/// The numeric value of a digit string (most significant digit first).
pub open spec fn dec_val(s: Seq<char>) -> nat
    decreases s.len(),
{
    if s.len() == 0 {
        0
    } else {
        dec_val(s.drop_last()) * 10 + digit_val(s.last())
    }
}

fn digit_str(d: u64) -> (r: &'static str)
    requires
        d < 10,
    ensures
        r@ == seq![digit_char(d as nat)],
{
    proof {
        reveal_strlit("0");
        reveal_strlit("1");
        reveal_strlit("2");
        reveal_strlit("3");
        reveal_strlit("4");
        reveal_strlit("5");
        reveal_strlit("6");
        reveal_strlit("7");
        reveal_strlit("8");
        reveal_strlit("9");
    }
    let r = match d {
        0 => "0",
        1 => "1",
        2 => "2",
        3 => "3",
        4 => "4",
        5 => "5",
        6 => "6",
        7 => "7",
        8 => "8",
        _ => "9",
    };
    proof {
        assert(r@ =~= seq![digit_char(d as nat)]);
    }
    r
}

/// Renders `n` in decimal, without leading zeroes.
pub fn u64_to_decimal(n: u64) -> (r: String)
    ensures
        r@ == dec_rep(n as nat),
    decreases n,
{
    let d = digit_str(n % 10);
    if n < 10 {
        let r = d.to_owned();
        proof {
            assert(r@ =~= dec_rep(n as nat));
        }
        r
    } else {
        let mut s = u64_to_decimal(n / 10);
        s.append(d);
        proof {
            assert(s@ =~= dec_rep(n as nat));
        }
        s
    }
}

/// Why parsing a digit string failed.
#[derive(Copy, Clone, Debug, PartialEq, Eq, Structural)]
pub enum ParseIntReason {
    /// The string was empty.
    Empty,
    /// Some character was not a decimal digit.
    InvalidDigit,
    /// The value does not fit in the target type.
    Overflow,
}

/// Parses a non-empty string of decimal digits as a `u16`.
///
/// Succeeds exactly on the digit strings whose value fits; a non-digit
/// character is reported in preference to an overflow.
pub fn parse_u16_dec(s: &str) -> (r: Result<u16, ParseIntReason>)
    ensures
        match r {
            Ok(v) => s@.len() > 0 && all_dec_digits(s@) && dec_val(s@) == v as nat,
            Err(ParseIntReason::Empty) => s@.len() == 0,
            Err(ParseIntReason::InvalidDigit) => s@.len() > 0 && !all_dec_digits(s@),
            Err(ParseIntReason::Overflow) => s@.len() > 0 && all_dec_digits(s@) && dec_val(s@)
                > u16::MAX,
        },
{
    let n = s.unicode_len();
    if n == 0 {
        return Err(ParseIntReason::Empty);
    }
    let mut i: usize = 0;
    while i < n
        invariant
            n == s@.len(),
            0 <= i <= n,
            all_dec_digits(s@.take(i as int)),
        decreases n - i,
    {
        let c = s.get_char(i);
        if !('0' <= c && c <= '9') {
            return Err(ParseIntReason::InvalidDigit);
        }
        proof {
            assert(s@.take(i + 1 as int).drop_last() =~= s@.take(i as int));
        }
        i = i + 1;
    }
    proof {
        assert(s@.take(n as int) =~= s@);
    }
    let mut value: u32 = 0;
    let mut too_big = false;
    i = 0;
    while i < n
        invariant
            n == s@.len(),
            0 <= i <= n,
            all_dec_digits(s@),
            !too_big ==> value as nat == dec_val(s@.take(i as int)) && value <= u16::MAX,
            too_big ==> dec_val(s@.take(i as int)) > u16::MAX,
        decreases n - i,
    {
        let c = s.get_char(i);
        proof {
            assert(is_dec_digit(s@[i as int]));
            assert(s@.take(i + 1 as int).drop_last() =~= s@.take(i as int));
            assert(s@.take(i + 1 as int).last() == s@[i as int]);
        }
        if too_big {
            proof {
                assert(dec_val(s@.take(i + 1 as int)) == dec_val(s@.take(i as int)) * 10
                    + digit_val(s@[i as int]));
            }
        } else {
            let d = (c as u32) - ('0' as u32);
            let next = value * 10 + d;
            if next > 65535 {
                too_big = true;
            } else {
                value = next;
            }
        }
        i = i + 1;
    }
    proof {
        assert(s@.take(n as int) =~= s@);
    }
    if too_big {
        Err(ParseIntReason::Overflow)
    } else {
        Ok(value as u16)
    }
}

/// Every canonical rendering consists of decimal digits and is non-empty.
pub proof fn lemma_dec_rep_digits(n: nat)
    ensures
        dec_rep(n).len() >= 1,
        all_dec_digits(dec_rep(n)),
    decreases n,
{
    if n >= 10 {
        lemma_dec_rep_digits(n / 10);
    }
}

/// Rendering then parsing gives the number back.
pub proof fn lemma_dec_round_trip(n: nat)
    ensures
        dec_val(dec_rep(n)) == n,
    decreases n,
{
    assert(digit_val(digit_char(n % 10)) == n % 10);
    if n < 10 {
        assert(dec_rep(n).drop_last() =~= Seq::<char>::empty());
        assert(dec_val(dec_rep(n)) == dec_val(Seq::<char>::empty()) * 10 + digit_val(digit_char(n)));
    } else {
        lemma_dec_round_trip(n / 10);
        assert(dec_rep(n).drop_last() =~= dec_rep(n / 10));
        assert(dec_val(dec_rep(n)) == dec_val(dec_rep(n / 10)) * 10 + digit_val(digit_char(n % 10)));
        assert(dec_val(dec_rep(n)) == (n / 10) * 10 + n % 10);
    }
}

} // verus!
