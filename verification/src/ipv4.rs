//! IPv4 addresses, held as the 32-bit number that they are.
use vstd::prelude::*;
use crate::number::{
    decimal, decimal_injective, decimal_of_digits, decimal_reads_back, is_digit, parse_unsigned, parsed, push_decimal,
    without_plus,
};
use crate::text::{chars_of, parted, parted_after, parted_rejoins, split_once};

verus! {

/// The four octets of an address, in front of one another.
pub open spec fn dotted(a: nat, b: nat, c: nat, d: nat) -> Seq<char> {
    decimal(a).push('.') + (decimal(b).push('.') + (decimal(c).push('.') + decimal(d)))
}

/// The address with the octets `a.b.c.d`.
pub open spec fn quad(a: nat, b: nat, c: nat, d: nat) -> nat {
    a * 16777216 + b * 65536 + c * 256 + d
}

/// An address written out: four decimal octets, high to low, parted by dots.
pub open spec fn ipv4_text(ip: nat) -> Seq<char> {
    dotted(ip / 16777216, ip / 65536 % 256, ip / 256 % 256, ip % 256)
}

/// The octets of an address make the address.
proof fn quad_of_octets(a: nat, b: nat, c: nat, d: nat)
    requires
        a < 256,
        b < 256,
        c < 256,
        d < 256,
    ensures
        quad(a, b, c, d) <= u32::MAX,
        ipv4_text(quad(a, b, c, d)) == dotted(a, b, c, d),
{
    let ip = quad(a, b, c, d);
    assert(ip / 16777216 == a);
    assert(ip / 65536 == a * 256 + b);
    assert(ip / 65536 % 256 == b);
    assert(ip / 256 == a * 65536 + b * 256 + c);
    assert(ip / 256 % 256 == c);
    assert(ip % 256 == d);
}

/// How the text of an address parts at its dots.
pub proof fn ipv4_text_parts(ip: nat)
    ensures
        parted(ipv4_text(ip), '.') == Some(
            (
                decimal(ip / 16777216),
                decimal(ip / 65536 % 256).push('.') + (decimal(ip / 256 % 256).push('.') + decimal(ip % 256)),
            ),
        ),
        parted(decimal(ip / 65536 % 256).push('.') + (decimal(ip / 256 % 256).push('.') + decimal(ip % 256)), '.') == Some(
            (decimal(ip / 65536 % 256), decimal(ip / 256 % 256).push('.') + decimal(ip % 256)),
        ),
        parted(decimal(ip / 256 % 256).push('.') + decimal(ip % 256), '.') == Some((decimal(ip / 256 % 256), decimal(ip % 256))),
{
    no_dot(ip / 16777216);
    no_dot(ip / 65536 % 256);
    no_dot(ip / 256 % 256);
    parted_after(
        decimal(ip / 16777216),
        '.',
        decimal(ip / 65536 % 256).push('.') + (decimal(ip / 256 % 256).push('.') + decimal(ip % 256)),
    );
    parted_after(decimal(ip / 65536 % 256), '.', decimal(ip / 256 % 256).push('.') + decimal(ip % 256));
    parted_after(decimal(ip / 256 % 256), '.', decimal(ip % 256));
}

/// A decimal text has no dot.
proof fn no_dot(n: nat)
    ensures
        forall|j: int| 0 <= j < decimal(n).len() ==> decimal(n)[j] != '.',
{
    decimal_reads_back(n);
    assert forall|j: int| 0 <= j < decimal(n).len() implies decimal(n)[j] != '.' by {
        assert(is_digit(decimal(n)[j]));
    }
}

/// Two addresses that are written the same are the same.
pub proof fn law_ipv4_text_injective(x: u32, y: u32)
    requires
        ipv4_text(x as nat) == ipv4_text(y as nat),
    ensures
        x == y,
{
    octets_injective(x as nat, y as nat);
}

/// Addresses that are written the same have the same octets, and so are the same.
proof fn octets_injective(x: nat, y: nat)
    requires
        ipv4_text(x) == ipv4_text(y),
    ensures
        x == y,
{
    assert(x / 16777216 == y / 16777216) by {
        ipv4_text_parts(x);
        ipv4_text_parts(y);
        decimal_injective(x / 16777216, y / 16777216);
    }
    assert(x / 65536 % 256 == y / 65536 % 256) by {
        ipv4_text_parts(x);
        ipv4_text_parts(y);
        decimal_injective(x / 65536 % 256, y / 65536 % 256);
    }
    assert(x / 256 % 256 == y / 256 % 256) by {
        ipv4_text_parts(x);
        ipv4_text_parts(y);
        decimal_injective(x / 256 % 256, y / 256 % 256);
    }
    assert(x % 256 == y % 256) by {
        ipv4_text_parts(x);
        ipv4_text_parts(y);
        decimal_injective(x % 256, y % 256);
    }
    same_octets_same_address(x, y);
}

/// The octets of an address determine it.
proof fn same_octets_same_address(x: nat, y: nat)
    requires
        x / 16777216 == y / 16777216,
        x / 65536 % 256 == y / 65536 % 256,
        x / 256 % 256 == y / 256 % 256,
        x % 256 == y % 256,
    ensures
        x == y,
{
    let (x1, y1) = (x / 256, y / 256);
    let (x2, y2) = (x1 / 256, y1 / 256);
    quotient_twice(x, 256);
    quotient_twice(y, 256);
    quotient_twice(x, 65536);
    quotient_twice(y, 65536);
    assert(x2 == x / 65536 && y2 == y / 65536);
    assert(x2 / 256 == x / 16777216 && y2 / 256 == y / 16777216);
    same_quotient_and_rest(x2, y2);
    same_quotient_and_rest(x1, y1);
    same_quotient_and_rest(x, y);
}

/// Dividing by 256 once more.
proof fn quotient_twice(x: nat, d: nat)
    requires
        d == 256 || d == 65536,
    ensures
        (x / d) / 256 == x / ((d * 256) as nat),
{
    vstd::arithmetic::div_mod::lemma_div_denominator(x as int, d as int, 256);
}

/// Quotient and remainder determine a number.
proof fn same_quotient_and_rest(x: nat, y: nat)
    requires
        x / 256 == y / 256,
        x % 256 == y % 256,
    ensures
        x == y,
{
    vstd::arithmetic::div_mod::lemma_fundamental_div_mod(x as int, 256);
    vstd::arithmetic::div_mod::lemma_fundamental_div_mod(y as int, 256);
}

/// Writes an address out.
pub fn ipv4_to_text(ip: u32) -> (r: String)
    ensures
        r@ == ipv4_text(ip as nat),
{
    let mut out = String::new();
    push_decimal(&mut out, (ip / 16777216) as u64);
    out.push('.');
    push_decimal(&mut out, (ip / 65536 % 256) as u64);
    out.push('.');
    push_decimal(&mut out, (ip / 256 % 256) as u64);
    out.push('.');
    push_decimal(&mut out, (ip % 256) as u64);
    assert(out@ =~= ipv4_text(ip as nat));
    out
}

/// Reads one octet: a number up to 255 without leading zeros.
fn read_octet(s: &str) -> (r: Option<u32>)
    ensures
        match r {
            Some(n) => n < 256 && s@ == decimal(n as nat),
            None => forall|n: nat| n < 256 ==> s@ != #[trigger] decimal(n),
        },
{
    let v = chars_of(s);
    proof {
        assert forall|n: nat| n < 256 && s@ == #[trigger] decimal(n) implies parsed(s@, 255) == Some(n) && (s@.len() > 1 ==> s@[0] != '0')
            && s@.len() > 0 && s@[0] != '+' by {
            decimal_reads_back(n);
            crate::number::law_decimal_round_trip(n, 255);
            assert(is_digit(s@[0]));
        }
    }
    if v.len() == 0 || v[0] == '+' || (v.len() > 1 && v[0] == '0') {
        return None;
    }
    match parse_unsigned(s, 255) {
        Some(n) => {
            proof {
                assert(without_plus(s@) == s@);
                decimal_of_digits(s@);
            }
            Some(n as u32)
        },
        None => None,
    }
}

/// Reads an address. It is accepted exactly where it is what `ipv4_to_text`
/// writes for some address.
pub fn parse_ipv4(s: &str) -> (r: Option<u32>)
    ensures
        match r {
            Some(ip) => s@ == ipv4_text(ip as nat),
            None => forall|ip: u32| s@ != #[trigger] ipv4_text(ip as nat),
        },
{
    proof {
        assert forall|ip: u32| s@ == #[trigger] ipv4_text(ip as nat) implies {
            let rest = decimal(ip as nat / 65536 % 256).push('.') + (decimal(ip as nat / 256 % 256).push('.') + decimal(
                ip as nat % 256,
            ));
            let rest2 = decimal(ip as nat / 256 % 256).push('.') + decimal(ip as nat % 256);
            &&& parted(s@, '.') == Some((decimal(ip as nat / 16777216), rest))
            &&& parted(rest, '.') == Some((decimal(ip as nat / 65536 % 256), rest2))
            &&& parted(rest2, '.') == Some((decimal(ip as nat / 256 % 256), decimal(ip as nat % 256)))
            &&& ip as nat / 16777216 < 256
            &&& ip as nat / 65536 % 256 < 256
            &&& ip as nat / 256 % 256 < 256
            &&& ip as nat % 256 < 256
        } by {
            ipv4_text_parts(ip as nat);
        }
        parted_rejoins(s@, '.');
    }
    let (p0, rest) = match split_once(s, '.') {
        Some(p) => p,
        None => return None,
    };
    proof {
        parted_rejoins(rest@, '.');
    }
    let (p1, rest2) = match split_once(&rest, '.') {
        Some(p) => p,
        None => return None,
    };
    proof {
        parted_rejoins(rest2@, '.');
    }
    let (p2, p3) = match split_once(&rest2, '.') {
        Some(p) => p,
        None => return None,
    };
    let a: u32 = match read_octet(&p0) {
        Some(n) => n,
        None => return None,
    };
    let b: u32 = match read_octet(&p1) {
        Some(n) => n,
        None => return None,
    };
    let c: u32 = match read_octet(&p2) {
        Some(n) => n,
        None => return None,
    };
    let d: u32 = match read_octet(&p3) {
        Some(n) => n,
        None => return None,
    };
    proof {
        quad_of_octets(a as nat, b as nat, c as nat, d as nat);
    }
    Some(a * 16777216 + b * 65536 + c * 256 + d)
}

} // verus!
