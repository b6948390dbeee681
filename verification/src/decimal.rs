//! Numbers written and read in decimal.

use vstd::arithmetic::power::pow;
use vstd::prelude::*;

verus! {

/// The character of a decimal digit.
pub open spec fn digit_char(d: nat) -> char {
    (48 + d) as char
}

/// Whether a character is a decimal digit.
pub open spec fn is_digit(c: char) -> bool {
    '0' <= c <= '9'
}

/// A number in decimal, without leading zeros.
pub open spec fn decimal(n: nat) -> Seq<char>
    decreases n,
{
    if n < 10 {
        seq![digit_char(n)]
    } else {
        decimal(n / 10) + seq![digit_char(n % 10)]
    }
}

/// A number in decimal, with a minus sign where it is negative.
pub open spec fn signed_decimal(n: int) -> Seq<char> {
    if n < 0 {
        seq!['-'] + decimal((-n) as nat)
    } else {
        decimal(n as nat)
    }
}

/// A number in decimal, with a leading zero where it has a single digit.
pub open spec fn two_digits(n: nat) -> Seq<char> {
    if n < 10 {
        seq!['0'] + decimal(n)
    } else {
        decimal(n)
    }
}

/// The number that a run of digits denotes.
pub open spec fn digits_value(s: Seq<char>) -> nat
    decreases s.len(),
{
    if s.len() == 0 {
        0
    } else {
        10 * digits_value(s.drop_last()) + (s.last() as nat - 48) as nat
    }
}

/// The digits of a number text: what follows an optional plus sign.
pub open spec fn unsigned_part(s: Seq<char>) -> Seq<char> {
    if s.len() > 0 && s[0] == '+' {
        s.drop_first()
    } else {
        s
    }
}

/// The 64-bit number that a text denotes: an optional plus sign, then one or more digits and
/// nothing else, in range.
pub open spec fn u64_of_text(s: Seq<char>) -> Option<u64> {
    let digits = unsigned_part(s);
    if digits.len() > 0 && (forall|i: int| 0 <= i < digits.len() ==> is_digit(#[trigger] digits[i]))
        && digits_value(digits) <= u64::MAX {
        Some(digits_value(digits) as u64)
    } else {
        None
    }
}

/// What the standard library says of a text that denotes no 64-bit number.
pub uninterp spec fn u64_error_text(s: Seq<char>) -> Seq<char>;

/// Reads a 64-bit number with the standard library's `str::parse::<u64>`.
///
/// It succeeds exactly on an optional plus sign followed by one or more digits whose number is
/// in range, and gives that number. The wording of its error is a function of the text alone.
#[verifier::external_body]
pub(crate) fn parse_u64(s: &str) -> (r: Result<u64, String>)
    ensures
        match r {
            Ok(n) => u64_of_text(s@) == Some(n),
            Err(e) => u64_of_text(s@) is None && e@ == u64_error_text(s@),
        },
{
    s.parse::<u64>().map_err(|e| e.to_string())
}

/// The text of a number is one or more digits, and denotes that number.
pub proof fn law_decimal_denotes(n: nat)
    ensures
        decimal(n).len() > 0,
        forall|i: int| 0 <= i < decimal(n).len() ==> is_digit(#[trigger] decimal(n)[i]),
        digits_value(decimal(n)) == n,
    decreases n,
{
    if n < 10 {
        assert(seq![digit_char(n)].drop_last() =~= Seq::<char>::empty());
        assert(digits_value(Seq::<char>::empty()) == 0);
    } else {
        law_decimal_denotes(n / 10);
        assert(decimal(n).drop_last() =~= decimal(n / 10));
    }
}

/// Reading a written number gives it back.
pub proof fn law_number_round_trip(n: u64)
    ensures
        u64_of_text(decimal(n as nat)) == Some(n),
{
    law_decimal_denotes(n as nat);
    assert(is_digit(decimal(n as nat)[0]));
}

/// Different numbers have different texts.
pub proof fn law_decimal_injective(m: nat, n: nat)
    requires
        decimal(m) == decimal(n),
    ensures
        m == n,
{
    law_decimal_denotes(m);
    law_decimal_denotes(n);
}

/// The text of a number is positional and as short as can be: with `len` digits the number is
/// below 10^len and, unless it is 0, at least 10^(len - 1); digit `i` is that of 10^(len - 1 - i).
pub proof fn law_decimal_places(n: nat, i: int)
    requires
        0 <= i < decimal(n).len(),
    ensures
        n < pow(10, decimal(n).len()),
        n > 0 ==> n >= pow(10, (decimal(n).len() - 1) as nat),
        n == 0 ==> decimal(n) == seq!['0'],
        decimal(n)[i] as int == '0' as int + (n as int / pow(
            10,
            (decimal(n).len() - 1 - i) as nat,
        )) % 10,
    decreases n,
{
    reveal(pow);
    let len = decimal(n).len();
    if n < 10 {
        assert(pow(10, 0) == 1);
        assert(pow(10, 1) == 10 * pow(10, 0));
    } else {
        let m = n / 10;
        law_decimal_places(m, 0);
        let k = decimal(m).len();
        assert(len == k + 1);
        assert(pow(10, len) == 10 * pow(10, k));
        assert(pow(10, k) == 10 * pow(10, (k - 1) as nat));
        if i < k {
            law_decimal_places(m, i);
            let e = (k - 1 - i) as nat;
            assert(decimal(n)[i] == decimal(m)[i]);
            assert(pow(10, e + 1) == 10 * pow(10, e));
            vstd::arithmetic::power::lemma_pow_positive(10, e);
            vstd::arithmetic::div_mod::lemma_div_denominator(n as int, 10, pow(10, e));
            assert(n as int / pow(10, e + 1) == (m as int) / pow(10, e));
        } else {
            assert(pow(10, 0) == 1);
        }
    }
}

/// A number text: an optional plus sign, then any zeros, then the number.
pub open spec fn number_text(plus: bool, zeros: nat, n: nat) -> Seq<char> {
    (if plus {
        seq!['+']
    } else {
        Seq::<char>::empty()
    }) + Seq::new(zeros, |i: int| '0') + decimal(n)
}

/// Zeros before digits do not change the number.
proof fn lemma_leading_zeros(zeros: nat, digits: Seq<char>)
    ensures
        digits_value(Seq::new(zeros, |i: int| '0') + digits) == digits_value(digits),
    decreases digits.len(), zeros,
{
    let all = Seq::new(zeros, |i: int| '0') + digits;
    if digits.len() > 0 {
        lemma_leading_zeros(zeros, digits.drop_last());
        assert(all.drop_last() =~= Seq::new(zeros, |i: int| '0') + digits.drop_last());
        assert(all.last() == digits.last());
    } else if zeros > 0 {
        lemma_leading_zeros((zeros - 1) as nat, digits);
        assert(all.drop_last() =~= Seq::new((zeros - 1) as nat, |i: int| '0') + digits);
        assert(all.last() == '0');
    } else {
        assert(all =~= digits);
    }
}

/// A run of digits is some zeros and then the text of its number, which has at least one digit.
proof fn lemma_digits_are_number(digits: Seq<char>)
    requires
        digits.len() > 0,
        forall|i: int| 0 <= i < digits.len() ==> is_digit(#[trigger] digits[i]),
    ensures
        ({
            let n = digits_value(digits);
            let zeros = digits.len() - decimal(n).len();
            zeros >= 0 && digits == Seq::new(zeros as nat, |i: int| '0') + decimal(n)
        }),
    decreases digits.len(),
{
    let n = digits_value(digits);
    let d = (digits.last() as nat - 48) as nat;
    assert(is_digit(digits[digits.len() - 1]));
    assert(digit_char(d) == digits.last());
    let before = digits.drop_last();
    if before.len() == 0 {
        assert(digits_value(before) == 0);
        assert(digits =~= Seq::new(0, |i: int| '0') + decimal(n));
    } else {
        assert forall|i: int| 0 <= i < before.len() implies is_digit(#[trigger] before[i]) by {
            assert(before[i] == digits[i]);
        }
        lemma_digits_are_number(before);
        let m = digits_value(before);
        assert(n / 10 == m && n % 10 == d);
        let zeros = (before.len() - decimal(m).len()) as nat;
        assert(digits =~= before + seq![digits.last()]);
        if n < 10 {
            assert(m == 0);
            assert(decimal(m) =~= seq!['0']);
            assert(digits =~= Seq::new((zeros + 1) as nat, |i: int| '0') + decimal(n));
        } else {
            assert(digits =~= Seq::new(zeros, |i: int| '0') + decimal(n));
        }
    }
}

/// Which texts are read as a 64-bit number, and as which: exactly those that are an optional plus
/// sign, any zeros and the number itself.
pub proof fn law_number_texts(s: Seq<char>, n: u64)
    ensures
        u64_of_text(s) == Some(n) <==> exists|plus: bool, zeros: nat|
            s == #[trigger] number_text(plus, zeros, n as nat),
{
    if u64_of_text(s) == Some(n) {
        let digits = unsigned_part(s);
        lemma_digits_are_number(digits);
        let zeros = (digits.len() - decimal(n as nat).len()) as nat;
        let plus = s.len() > 0 && s[0] == '+';
        let sign = if plus {
            seq!['+']
        } else {
            Seq::<char>::empty()
        };
        assert(digits == Seq::new(zeros, |i: int| '0') + decimal(n as nat));
        assert(s =~= sign + digits);
        assert(sign + Seq::new(zeros, |i: int| '0') + decimal(n as nat) =~= sign + digits);
        assert(s == number_text(plus, zeros, n as nat));
    }
    assert forall|plus: bool, zeros: nat|
        s == #[trigger] number_text(plus, zeros, n as nat) implies u64_of_text(s) == Some(n) by {
        let digits = Seq::new(zeros, |i: int| '0') + decimal(n as nat);
        law_decimal_denotes(n as nat);
        lemma_leading_zeros(zeros, decimal(n as nat));
        assert forall|i: int| 0 <= i < digits.len() implies is_digit(#[trigger] digits[i]) by {
            if i >= zeros {
                assert(is_digit(decimal(n as nat)[i - zeros]));
            }
        }
        assert(is_digit(digits[0]));
        assert(unsigned_part(s) =~= digits);
    }
}

/// Padding to two digits: below 100 there are exactly two, tens and units; from 100 on nothing is
/// added.
pub proof fn law_two_digits(n: nat)
    ensures
        n < 100 ==> two_digits(n) == seq![('0' as int + n / 10) as char, ('0' as int + n % 10) as char],
        n >= 100 ==> two_digits(n) == decimal(n),
{
    if n < 100 {
        if n >= 10 {
            assert(decimal(n / 10) == seq![digit_char(n / 10)]);
        }
        assert(two_digits(n) =~= seq![
            ('0' as int + n / 10) as char,
            ('0' as int + n % 10) as char,
        ]);
    }
}

/// A number and its negative differ by a minus sign in front.
pub proof fn law_signed_decimal(n: nat)
    ensures
        signed_decimal(n as int) == decimal(n),
        n > 0 ==> signed_decimal(-n) == seq!['-'] + decimal(n),
{
}

/// The text of one digit.
fn digit_text(d: u64) -> (r: &'static str)
    requires
        d < 10,
    ensures
        r@ == seq![digit_char(d as nat)],
{
    proof {
        reveal_strlit("0");
        reveal_strlit("1");
        reveal_strlit("2");
        reveal_strlit("3");
        reveal_strlit("4");
        reveal_strlit("5");
        reveal_strlit("6");
        reveal_strlit("7");
        reveal_strlit("8");
        reveal_strlit("9");
    }
    match d {
        0 => "0",
        1 => "1",
        2 => "2",
        3 => "3",
        4 => "4",
        5 => "5",
        6 => "6",
        7 => "7",
        8 => "8",
        _ => "9",
    }
}

/// Appends a number in decimal.
pub fn push_decimal(out: &mut String, n: u64)
    ensures
        final(out)@ == old(out)@ + decimal(n as nat),
    decreases n,
{
    if n >= 10 {
        push_decimal(out, n / 10);
    }
    out.append(digit_text(n % 10));
}

/// Appends a number in decimal, padded to two digits.
pub fn push_two_digits(out: &mut String, n: u64)
    ensures
        final(out)@ == old(out)@ + two_digits(n as nat),
{
    if n < 10 {
        out.append(digit_text(0));
    }
    push_decimal(out, n);
}

/// Appends a signed number in decimal.
pub fn push_signed(out: &mut String, n: i32)
    ensures
        final(out)@ == old(out)@ + signed_decimal(n as int),
{
    if n < 0 {
        proof {
            reveal_strlit("-");
        }
        out.append("-");
        push_decimal(out, (-(n as i64)) as u64);
    } else {
        push_decimal(out, n as u64);
    }
}

} // verus!
