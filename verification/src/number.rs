//! Numbers as text: decimal, octal and hexadecimal digits, and reading them back.
use vstd::prelude::*;
use crate::text::chars_of;

verus! {

/// The decimal digit `d`.
pub open spec fn digit_char(d: nat) -> char {
    (d + '0' as nat) as char
}

/// Is `c` one of `0` to `9`?
pub open spec fn is_digit(c: char) -> bool {
    '0' <= c <= '9'
}

/// `n` written in decimal, without leading zeros.
pub open spec fn decimal(n: nat) -> Seq<char>
    decreases n,
{
    if n < 10 {
        seq![digit_char(n)]
    } else {
        decimal(n / 10).push(digit_char(n % 10))
    }
}

/// The number that a run of decimal digits stands for.
pub open spec fn digits_value(s: Seq<char>) -> nat
    decreases s.len(),
{
    if s.len() == 0 {
        0
    } else {
        digits_value(s.drop_last()) * 10 + (s.last() as nat - '0' as nat) as nat
    }
}

/// Are all characters of `s` decimal digits?
pub open spec fn all_digits(s: Seq<char>) -> bool {
    forall|i: int| 0 <= i < s.len() ==> is_digit(#[trigger] s[i])
}

/// `s` without the one `+` that may stand in front of an unsigned number.
pub open spec fn without_plus(s: Seq<char>) -> Seq<char> {
    if s.len() > 0 && s[0] == '+' {
        s.skip(1)
    } else {
        s
    }
}

/// The unsigned number written in `s`, where it is at most `max`: an optional
/// `+` and then one or more decimal digits.
pub open spec fn parsed(s: Seq<char>, max: nat) -> Option<nat> {
    let d = without_plus(s);
    if d.len() > 0 && all_digits(d) && digits_value(d) <= max {
        Some(digits_value(d))
    } else {
        None
    }
}

/// A decimal text consists of digits, is not empty, and reads back as its number.
pub proof fn decimal_reads_back(n: nat)
    ensures
        all_digits(decimal(n)),
        decimal(n).len() > 0,
        digits_value(decimal(n)) == n,
        decimal(n).len() > 1 ==> decimal(n)[0] != '0',
        n > 0 ==> decimal(n)[0] != '0',
    decreases n,
{
    if n < 10 {
        assert(decimal(n).drop_last() =~= Seq::<char>::empty());
        assert(digits_value(Seq::<char>::empty()) == 0);
        assert(decimal(n).last() == digit_char(n));
    } else {
        decimal_reads_back(n / 10);
        let d = decimal(n);
        assert(d.drop_last() =~= decimal(n / 10));
        assert(d.last() == digit_char(n % 10));
        assert(d[0] == decimal(n / 10)[0]);
        assert forall|i: int| 0 <= i < d.len() implies is_digit(#[trigger] d[i]) by {
            if i < d.len() - 1 {
                assert(d[i] == decimal(n / 10)[i]);
            }
        }
    }
}

/// Two numbers with the same decimal text are the same number.
pub proof fn decimal_injective(a: nat, b: nat)
    requires
        decimal(a) == decimal(b),
    ensures
        a == b,
{
    decimal_reads_back(a);
    decimal_reads_back(b);
}

/// What was written in decimal parses back to the number, under any bound that admits it.
pub proof fn law_decimal_round_trip(n: nat, max: nat)
    requires
        n <= max,
    ensures
        parsed(decimal(n), max) == Some(n),
{
    decimal_reads_back(n);
    assert(is_digit(decimal(n)[0]));
    assert(without_plus(decimal(n)) == decimal(n));
}

/// A digit run without a leading zero is the decimal text of its value.
pub proof fn decimal_of_digits(s: Seq<char>)
    requires
        s.len() > 0,
        all_digits(s),
        s.len() > 1 ==> s[0] != '0',
    ensures
        s == decimal(digits_value(s)),
    decreases s.len(),
{
    let v = digits_value(s);
    let last = (s.last() as nat - '0' as nat) as nat;
    assert(is_digit(s[s.len() - 1]));
    if s.len() == 1 {
        assert(digits_value(s.drop_last()) == 0);
        assert(v == last);
        assert(s =~= seq![digit_char(last)]);
    } else {
        let front = s.drop_last();
        assert(all_digits(front)) by {
            assert forall|i: int| 0 <= i < front.len() implies is_digit(#[trigger] front[i]) by {
                assert(front[i] == s[i]);
            }
        }
        assert(front[0] == s[0]);
        decimal_of_digits(front);
        let w = digits_value(front);
        decimal_reads_back(w);
        if w == 0 {
            assert(front == seq![digit_char(0)]);
            assert(front[0] == '0');
        }
        assert(v == w * 10 + last);
        assert(v / 10 == w);
        assert(v % 10 == last);
        assert(s =~= front.push(digit_char(last)));
    }
}

/// Appends `n` in decimal.
pub fn push_decimal(out: &mut String, n: u64)
    ensures
        final(out)@ == old(out)@ + decimal(n as nat),
    decreases n,
{
    if n >= 10 {
        push_decimal(out, n / 10);
    }
    let d: u8 = (n % 10) as u8 + 48;
    out.push(d as char);
    proof {
        let digit = digit_char(n as nat % 10);
        assert(d as char == digit);
        if n >= 10 {
            assert(old(out)@ + decimal((n / 10) as nat).push(digit) =~= (old(out)@ + decimal((n / 10) as nat)).push(digit));
        } else {
            assert(old(out)@ + seq![digit] =~= old(out)@.push(digit));
        }
    }
}

/// `n` in decimal.
pub fn decimal_text(n: u64) -> (r: String)
    ensures
        r@ == decimal(n as nat),
{
    let mut out = String::new();
    push_decimal(&mut out, n);
    assert(Seq::<char>::empty() + decimal(n as nat) =~= decimal(n as nat));
    out
}

/// A prefix of a digit run stands for no more than the run.
proof fn digits_value_prefix(s: Seq<char>, i: int)
    requires
        0 <= i <= s.len(),
        all_digits(s),
    ensures
        digits_value(s.take(i)) <= digits_value(s),
    decreases s.len(),
{
    if i < s.len() {
        let front = s.drop_last();
        assert(all_digits(front));
        digits_value_prefix(front, i);
        assert(front.take(i) =~= s.take(i));
        assert(is_digit(s[s.len() - 1]));
    } else {
        assert(s.take(i) =~= s);
    }
}

/// Reads the unsigned number written in `s`, where it is at most `max`.
pub fn parse_unsigned(s: &str, max: u64) -> (r: Option<u64>)
    ensures
        match r {
            Some(n) => parsed(s@, max as nat) == Some(n as nat),
            None => parsed(s@, max as nat) is None,
        },
{
    let v = chars_of(s);
    let start: usize = if v.len() > 0 && v[0] == '+' {
        1
    } else {
        0
    };
    let ghost d = without_plus(s@);
    assert(d =~= v@.skip(start as int));
    if start == v.len() {
        return None;
    }
    let mut i: usize = start;
    let mut acc: u64 = 0;
    while i < v.len()
        invariant
            start <= i <= v@.len(),
            d == v@.skip(start as int),
            forall|j: int| 0 <= j < i - start ==> is_digit(#[trigger] d[j]),
            acc as nat == digits_value(d.take(i - start)),
            acc <= max,
            d == without_plus(s@),
        decreases v@.len() - i,
    {
        let c = v[i];
        assert(d[i - start] == c);
        if !(c >= '0' && c <= '9') {
            assert(!is_digit(d[i - start]));
            return None;
        }
        let digit: u64 = (c as u32 - 48) as u64;
        proof {
            let t = d.take(i - start + 1);
            assert(t.drop_last() =~= d.take(i - start));
            assert(t.last() == c);
            assert(digits_value(t) == acc as nat * 10 + digit as nat);
            if all_digits(d) {
                digits_value_prefix(d, i - start + 1);
            }
        }
        if acc > (u64::MAX - digit) / 10 {
            assert(acc * 10 + digit > u64::MAX) by (nonlinear_arith)
                requires
                    acc > (u64::MAX - digit) / 10,
                    digit <= 9,
            ;
            return None;
        }
        assert(acc * 10 + digit <= u64::MAX) by (nonlinear_arith)
            requires
                acc <= (u64::MAX - digit) / 10,
                digit <= 9,
        ;
        acc = acc * 10 + digit;
        if acc > max {
            return None;
        }
        i += 1;
    }
    assert(d.take(i - start) =~= d);
    Some(acc)
}

// ---- hexadecimal ----------------------------------------------------------

/// The lower-case hexadecimal digit `d`.
pub open spec fn hex_char(d: nat) -> char {
    if d < 10 {
        (d + '0' as nat) as char
    } else {
        (d - 10 + 'a' as nat) as char
    }
}

/// The upper-case hexadecimal digit `d`.
pub open spec fn hex_upper_char(d: nat) -> char {
    if d < 10 {
        (d + '0' as nat) as char
    } else {
        (d - 10 + 'A' as nat) as char
    }
}

/// `n` in lower-case hexadecimal, in exactly `width` digits (the low ones).
pub open spec fn hex_fixed(n: nat, width: nat) -> Seq<char>
    decreases width,
{
    if width == 0 {
        Seq::empty()
    } else {
        hex_fixed(n / 16, (width - 1) as nat).push(hex_char(n % 16))
    }
}

/// The two upper-case hexadecimal digits of a byte.
pub open spec fn hex_byte_upper(b: nat) -> Seq<char> {
    seq![hex_upper_char(b / 16), hex_upper_char(b % 16)]
}

/// Fixed-width hexadecimal has that width.
pub proof fn hex_fixed_len(n: nat, width: nat)
    ensures
        hex_fixed(n, width).len() == width,
    decreases width,
{
    if width > 0 {
        hex_fixed_len(n / 16, (width - 1) as nat);
    }
}

/// Numbers below `16` to the width are told apart by their digits.
pub proof fn hex_fixed_injective(a: nat, b: nat, width: nat)
    requires
        a < vstd::arithmetic::power::pow(16, width),
        b < vstd::arithmetic::power::pow(16, width),
        hex_fixed(a, width) == hex_fixed(b, width),
    ensures
        a == b,
    decreases width,
{
    reveal(vstd::arithmetic::power::pow);
    if width > 0 {
        let x = hex_fixed(a, width);
        let y = hex_fixed(b, width);
        let w = (width - 1) as nat;
        assert(x.drop_last() =~= hex_fixed(a / 16, w));
        assert(y.drop_last() =~= hex_fixed(b / 16, w));
        assert(x.last() == hex_char(a % 16) && y.last() == hex_char(b % 16));
        assert(vstd::arithmetic::power::pow(16, width) == 16 * vstd::arithmetic::power::pow(16, w));
        hex_fixed_injective(a / 16, b / 16, w);
    }
}

/// Appends `n` in lower-case hexadecimal, in exactly `width` digits.
pub fn push_hex_fixed(out: &mut String, n: u64, width: u32)
    ensures
        final(out)@ == old(out)@ + hex_fixed(n as nat, width as nat),
    decreases width,
{
    if width > 0 {
        push_hex_fixed(out, n / 16, width - 1);
        let d: u8 = (n % 16) as u8;
        let c: char = if d < 10 {
            (d + 48) as char
        } else {
            (d + 87) as char
        };
        out.push(c);
        proof {
            assert(c == hex_char(n as nat % 16));
            assert(old(out)@ + hex_fixed((n / 16) as nat, (width - 1) as nat).push(c) =~= (old(out)@ + hex_fixed(
                (n / 16) as nat,
                (width - 1) as nat,
            )).push(c));
        }
    } else {
        assert(old(out)@ + Seq::<char>::empty() =~= old(out)@);
    }
}

/// `n` written in octal, without leading zeros.
pub open spec fn octal(n: nat) -> Seq<char>
    decreases n,
{
    if n < 8 {
        seq![digit_char(n)]
    } else {
        octal(n / 8).push(digit_char(n % 8))
    }
}

/// Appends `n` in octal.
pub fn push_octal(out: &mut String, n: u32)
    ensures
        final(out)@ == old(out)@ + octal(n as nat),
    decreases n,
{
    if n >= 8 {
        push_octal(out, n / 8);
    }
    let d: u8 = (n % 8) as u8 + 48;
    out.push(d as char);
    proof {
        let digit = digit_char(n as nat % 8);
        assert(d as char == digit);
        if n >= 8 {
            assert(old(out)@ + octal((n / 8) as nat).push(digit) =~= (old(out)@ + octal((n / 8) as nat)).push(digit));
        } else {
            assert(old(out)@ + seq![digit] =~= old(out)@.push(digit));
        }
    }
}

/// Appends the two upper-case hexadecimal digits of a byte.
pub fn push_hex_byte_upper(out: &mut String, b: u8)
    ensures
        final(out)@ == old(out)@ + hex_byte_upper(b as nat),
{
    let hi: u8 = b / 16;
    let lo: u8 = b % 16;
    let c1: char = if hi < 10 {
        (hi + 48) as char
    } else {
        (hi + 55) as char
    };
    let c2: char = if lo < 10 {
        (lo + 48) as char
    } else {
        (lo + 55) as char
    };
    out.push(c1);
    out.push(c2);
    assert(out@ =~= old(out)@ + hex_byte_upper(b as nat));
}

/// A text reads as a number digit by digit: one more digit makes it ten times
/// as large and adds the digit. A plus in front changes nothing, but only one
/// may stand there; and a text with anything else in it, or with nothing in
/// it, or with a number that is too large, reads as none.
pub proof fn law_how_a_number_reads(s: Seq<char>, c: char, max: nat)
    requires
        all_digits(s),
    ensures
        is_digit(c) <==> '0' <= c <= '9',
        is_digit(c) ==> digits_value(s.push(c)) == 10 * digits_value(s) + (c as int - '0' as int),
        s.len() == 0 ==> digits_value(s) == 0 && parsed(s, max) is None,
        s.len() > 0 ==> parsed(s, max) == if digits_value(s) <= max {
            Some(digits_value(s))
        } else {
            None
        },
        s.len() > 0 ==> parsed(seq!['+'] + s, max) == parsed(s, max),
        !is_digit(c) ==> parsed(s.push(c), max) is None,
        parsed(seq!['+', '+'] + s, max) is None,
        parsed(seq!['-'] + s, max) is None,
{
    let plus = seq!['+'] + s;
    assert(plus.skip(1) =~= s);
    assert(s.push(c).drop_last() =~= s);
    if s.len() > 0 {
        assert(is_digit(s[0]));
    }
    if !is_digit(c) {
        let d = without_plus(s.push(c));
        if d.len() > 0 {
            assert(d[d.len() - 1] == c);
        }
    }
    let two = without_plus(seq!['+', '+'] + s);
    assert(two[0] == '+');
    let minus = seq!['-'] + s;
    assert(minus[0] == '-');
}

/// The digits of fixed-width hexadecimal go from the highest to the lowest,
/// sixteen of them in lower case: from a place to the next the number is
/// divided by sixteen once less.
pub proof fn law_hexadecimal_digits(n: nat, width: nat, d: nat)
    requires
        d < 16,
    ensures
        hex_fixed(16 * n + d, width + 1) == hex_fixed(n, width).push("0123456789abcdef"@[d as int]),
        hex_fixed(n, 0).len() == 0,
        hex_byte_upper(d) == seq!['0', "0123456789ABCDEF"@[d as int]],
{
    reveal_strlit("0123456789abcdef");
    reveal_strlit("0123456789ABCDEF");
    assert((16 * n + d) / 16 == n && (16 * n + d) % 16 == d);
    assert(hex_byte_upper(d) =~= seq!['0', "0123456789ABCDEF"@[d as int]]);
}

} // verus!
