//! The tap subnet and the `/30` links that it is carved into.
use vstd::prelude::*;
use crate::firecracker::link_error::{LinkError, LinkFault, REQUIRED_SLOTS};
use crate::ipv4::{ipv4_text, ipv4_to_text, law_ipv4_text_injective, parse_ipv4};
use crate::number::{decimal, decimal_reads_back, is_digit, law_decimal_round_trip, parse_unsigned, parsed, push_decimal, push_hex_byte_upper, hex_byte_upper};
use crate::text::{before_char, parted, parted_after, split_once, up_to_char};

verus! {

/// Number of `/30` slots for serving VMs. The slot right behind them belongs
/// to the build VM.
pub const SERVING_LINK_SLOTS: u32 = 16382;

/// The `/30` slot of the build VM.
pub const BUILD_SEQ: u32 = 16382;

/// Is `s` an IPv4 address?
pub open spec fn is_ipv4(s: Seq<char>) -> bool {
    exists|a: u32| s == #[trigger] ipv4_text(a as nat)
}

/// The address written in `s`.
pub open spec fn ipv4_value(s: Seq<char>) -> u32 {
    choose|a: u32| s == #[trigger] ipv4_text(a as nat)
}

/// How many `/30` links a subnet of that prefix length has.
pub open spec fn slots(prefix: nat) -> nat
    decreases 30 - prefix,
{
    if prefix >= 30 {
        1
    } else {
        2 * slots(prefix + 1)
    }
}

/// The first address of the subnet of that prefix length that `ip` lies in.
pub open spec fn network(ip: nat, prefix: nat) -> nat {
    (ip - ip % (4 * slots(prefix))) as nat
}

/// A subnet text read: the network address and the prefix length.
pub open spec fn subnet_read(s: Seq<char>) -> Result<(nat, nat), LinkFault> {
    match parted(s, '/') {
        None => Err(LinkFault::InvalidSubnet(s)),
        Some((ip, p)) => if !is_ipv4(ip) {
            Err(LinkFault::InvalidAddress(ip))
        } else {
            match parsed(p, 255) {
                None => Err(LinkFault::InvalidPrefix(p)),
                Some(n) => if n > 30 {
                    Err(LinkFault::PrefixTooLong(n as u8))
                } else {
                    Ok((network(ipv4_value(ip) as nat, n), n))
                },
            }
        },
    }
}

/// A subnet written out.
pub open spec fn subnet_text(net: nat, prefix: nat) -> Seq<char> {
    ipv4_text(net).push('/') + decimal(prefix)
}

/// The normalized form of a subnet text.
pub open spec fn normalized(s: Seq<char>) -> Result<Seq<char>, LinkFault> {
    match subnet_read(s) {
        Ok((net, prefix)) => Ok(subnet_text(net, prefix)),
        Err(f) => Err(f),
    }
}

/// Host and guest address of one `/30` link of a network.
pub open spec fn link_of(net: nat, slot: nat) -> (nat, nat) {
    ((net + 4 * slot + 1) as nat, (net + 4 * slot + 2) as nat)
}

/// The links that a subnet of prefix length at most 30 has: at least one, and
/// four addresses for each of them fit in the address space.
pub proof fn slots_bounds(prefix: nat)
    requires
        prefix <= 30,
    ensures
        1 <= slots(prefix) <= 1073741824,
        4 * slots(prefix) <= 4294967296,
{
    reveal_with_fuel(slots, 32);
}

/// The address space is made of whole blocks of any prefix length.
proof fn slots_divide(prefix: nat)
    requires
        prefix <= 30,
    ensures
        4294967296int % ((4 * slots(prefix)) as int) == 0,
        slots(prefix) >= 1,
    decreases prefix,
{
    slots_bounds(prefix);
    if prefix == 0 {
        reveal_with_fuel(slots, 32);
        assert(slots(0) == 1073741824);
        assert(4294967296int % 4294967296int == 0);
    } else {
        let p = (prefix - 1) as nat;
        slots_divide(p);
        let b = (4 * slots(prefix)) as int;
        assert(slots(p) == 2 * slots(prefix));
        let q = 4294967296int / (2 * b);
        vstd::arithmetic::div_mod::lemma_fundamental_div_mod(4294967296int, 2 * b);
        assert(4294967296int == (2 * q) * b) by (nonlinear_arith)
            requires
                4294967296int == (2 * b) * q,
        ;
        vstd::arithmetic::div_mod::lemma_mod_multiples_basic(2 * q, b);
    }
}

/// A network starts at a multiple of its block, and its block fits behind it.
pub proof fn network_bounds(ip: nat, prefix: nat)
    requires
        ip <= u32::MAX,
        prefix <= 30,
    ensures
        network(ip, prefix) <= ip,
        network(ip, prefix) % (4 * slots(prefix)) == 0,
        network(ip, prefix) + 4 * slots(prefix) <= 4294967296,
        network(network(ip, prefix), prefix) == network(ip, prefix),
{
    slots_divide(prefix);
    slots_bounds(prefix);
    let b = (4 * slots(prefix)) as int;
    let q = ip as int / b;
    let total = 4294967296int / b;
    assert(ip == q * b + ip as int % b) by {
        vstd::arithmetic::div_mod::lemma_fundamental_div_mod(ip as int, b);
        vstd::arithmetic::mul::lemma_mul_is_commutative(q, b);
    }
    assert(4294967296int == total * b) by {
        vstd::arithmetic::div_mod::lemma_fundamental_div_mod(4294967296int, b);
        vstd::arithmetic::mul::lemma_mul_is_commutative(total, b);
    }
    let net = network(ip, prefix) as int;
    assert(net == q * b);
    assert(net % b == 0) by {
        vstd::arithmetic::div_mod::lemma_mod_multiples_basic(q, b);
    }
    assert(q < total) by (nonlinear_arith)
        requires
            q * b <= ip,
            ip < 4294967296int,
            4294967296int == total * b,
            b > 0,
    ;
    assert(net + b <= 4294967296) by (nonlinear_arith)
        requires
            net == q * b,
            q + 1 <= total,
            4294967296int == total * b,
            b > 0,
    ;
}

/// How many `/30` links a subnet of that prefix length has.
fn slot_count(prefix: u8) -> (r: u64)
    requires
        prefix <= 30,
    ensures
        r == slots(prefix as nat),
        1 <= r <= 1073741824,
{
    let mut p: u8 = 30;
    let mut n: u64 = 1;
    while p > prefix
        invariant
            prefix <= p <= 30,
            n == slots(p as nat),
        decreases p - prefix,
    {
        proof {
            slots_bounds((p - 1) as nat);
            assert(slots((p - 1) as nat) == 2 * slots(p as nat));
        }
        n = n * 2;
        p = p - 1;
    }
    proof {
        slots_bounds(prefix as nat);
    }
    n
}

/// Reads a subnet text: the network address and the prefix length.
pub fn parse_subnet(subnet: &str) -> (r: Result<(u32, u8), LinkError>)
    ensures
        match r {
            Ok((net, prefix)) => subnet_read(subnet@) == Ok::<(nat, nat), LinkFault>((net as nat, prefix as nat)) && prefix <= 30,
            Err(e) => subnet_read(subnet@) == Err::<(nat, nat), LinkFault>(e@),
        },
{
    let (ip_part, prefix_part) = match split_once(subnet, '/') {
        Some(p) => p,
        None => return Err(LinkError::InvalidSubnet(subnet.to_owned())),
    };
    let ip: u32 = match parse_ipv4(&ip_part) {
        Some(a) => a,
        None => return Err(LinkError::InvalidAddress(ip_part)),
    };
    proof {
        assert(is_ipv4(ip_part@));
        law_ipv4_text_injective(ip, ipv4_value(ip_part@));
    }
    let prefix: u8 = match parse_unsigned(&prefix_part, 255) {
        Some(n) => n as u8,
        None => return Err(LinkError::InvalidPrefix(prefix_part)),
    };
    if prefix > 30 {
        return Err(LinkError::PrefixTooLong(prefix));
    }
    let block: u64 = slot_count(prefix) * 4;
    proof {
        vstd::arithmetic::div_mod::lemma_mod_decreases(ip as nat, block as nat);
    }
    let net: u64 = ip as u64 - ip as u64 % block;
    Ok((net as u32, prefix))
}

/// Normalizes an IPv4 subnet: host bits cleared, address and prefix written out.
pub fn normalize_subnet(subnet: &str) -> (r: Result<String, LinkError>)
    ensures
        match r {
            Ok(s) => normalized(subnet@) == Ok::<Seq<char>, LinkFault>(s@),
            Err(e) => normalized(subnet@) == Err::<Seq<char>, LinkFault>(e@),
        },
{
    match parse_subnet(subnet) {
        Ok((net, prefix)) => {
            let mut out = ipv4_to_text(net);
            out.push('/');
            push_decimal(&mut out, prefix as u64);
            Ok(out)
        },
        Err(e) => Err(e),
    }
}

/// How many `/30` slots the subnet has.
pub fn subnet_slot_capacity(subnet: &str) -> (r: Result<u64, LinkError>)
    ensures
        match r {
            Ok(n) => subnet_read(subnet@) is Ok && n == slots(subnet_read(subnet@)->Ok_0.1),
            Err(e) => subnet_read(subnet@) == Err::<(nat, nat), LinkFault>(e@),
        },
{
    match parse_subnet(subnet) {
        Ok((_net, prefix)) => Ok(slot_count(prefix)),
        Err(e) => Err(e),
    }
}

/// Why a subnet cannot hold all links of a host, if it cannot.
pub open spec fn capacity_fault(s: Seq<char>) -> Option<LinkFault> {
    match subnet_read(s) {
        Err(f) => Some(f),
        Ok((net, prefix)) => if slots(prefix) < REQUIRED_SLOTS {
            Some(LinkFault::TooSmall { subnet: subnet_text(net, prefix), capacity: slots(prefix) as u64 })
        } else {
            None
        },
    }
}

/// Checks that the subnet holds every serving slot and the build slot.
pub fn validate_subnet_capacity(subnet: &str) -> (r: Result<(), LinkError>)
    ensures
        match r {
            Ok(_) => capacity_fault(subnet@) is None,
            Err(e) => capacity_fault(subnet@) == Some(e@),
        },
{
    let text = match normalize_subnet(subnet) {
        Ok(s) => s,
        Err(e) => return Err(e),
    };
    let capacity: u64 = match subnet_slot_capacity(subnet) {
        Ok(n) => n,
        Err(e) => return Err(e),
    };
    if capacity < REQUIRED_SLOTS {
        return Err(LinkError::TooSmall { subnet: text, capacity });
    }
    Ok(())
}

/// Host and guest address of one `/30` slot of a subnet.
pub fn link_ips(subnet: &str, slot: u32) -> (r: Result<(u32, u32), LinkError>)
    ensures
        match subnet_read(subnet@) {
            Err(f) => r is Err && r->Err_0@ == f,
            Ok((net, prefix)) => if slot < slots(prefix) {
                r is Ok && (r->Ok_0.0 as nat, r->Ok_0.1 as nat) == link_of(net, slot as nat)
            } else {
                r is Err && r->Err_0@ == (LinkFault::SlotOutOfRange {
                    subnet: subnet_text(net, prefix),
                    capacity: slots(prefix) as u64,
                    slot,
                })
            },
        },
{
    let text = match normalize_subnet(subnet) {
        Ok(s) => s,
        Err(e) => return Err(e),
    };
    let (net, prefix) = match parse_subnet(subnet) {
        Ok(p) => p,
        Err(e) => return Err(e),
    };
    let capacity: u64 = slot_count(prefix);
    if slot as u64 >= capacity {
        return Err(LinkError::SlotOutOfRange { subnet: text, capacity, slot });
    }
    proof {
        subnet_read_bounds(subnet@);
    }
    let host: u32 = net + (slot * 4 + 1);
    Ok((host, host + 1))
}

/// A subnet that was read starts at a multiple of its block and fits the address space.
pub proof fn subnet_read_bounds(s: Seq<char>)
    ensures
        match subnet_read(s) {
            Ok((net, prefix)) => {
                &&& prefix <= 30
                &&& net + 4 * slots(prefix) <= 4294967296
                &&& network(net, prefix) == net
                &&& slots(prefix) >= 1
            },
            Err(_) => true,
        },
{
    match parted(s, '/') {
        Some((ip, p)) => {
            match parsed(p, 255) {
                Some(n) => {
                    if n <= 30 {
                        network_bounds(ipv4_value(ip) as nat, n);
                        slots_bounds(n);
                    }
                },
                None => {},
            }
        },
        None => {},
    }
}

/// Host and guest address for VM index `seq`, counted from the address in
/// front of the `/` of the subnet, whatever stands behind it.
pub fn derive_link_ips(subnet: &str, seq: u32) -> (r: Result<(u32, u32), LinkError>)
    requires
        4 * seq + 1 <= u32::MAX,
        is_ipv4(up_to_char(subnet@, '/')) ==> ipv4_value(up_to_char(subnet@, '/')) + 4 * seq + 1 != u32::MAX,
    ensures
        ({
            let base = up_to_char(subnet@, '/');
            if !is_ipv4(base) {
                r is Err && r->Err_0@ == LinkFault::InvalidSubnet(subnet@)
            } else if ipv4_value(base) + 4 * seq + 1 > u32::MAX {
                r is Err && r->Err_0@ == LinkFault::ExhaustedAtSeq(seq)
            } else {
                r is Ok && (r->Ok_0.0 as nat, r->Ok_0.1 as nat) == link_of(ipv4_value(base) as nat, seq as nat)
            }
        }),
{
    let base_part = before_char(subnet, '/');
    let base: u32 = match parse_ipv4(&base_part) {
        Some(a) => a,
        None => return Err(LinkError::InvalidSubnet(subnet.to_owned())),
    };
    proof {
        assert(is_ipv4(base_part@));
        law_ipv4_text_injective(base, ipv4_value(base_part@));
    }
    match base.checked_add(seq * 4 + 1) {
        Some(host) => Ok((host, host + 1)),
        None => Err(LinkError::ExhaustedAtSeq(seq)),
    }
}

/// A subnet text reads back: what was normalized is its own normal form.
pub proof fn law_normalize_idempotent(s: Seq<char>)
    requires
        normalized(s) is Ok,
    ensures
        normalized(normalized(s)->Ok_0) == normalized(s),
        subnet_read(normalized(s)->Ok_0) == subnet_read(s),
{
    subnet_read_bounds(s);
    let (net, prefix) = subnet_read(s)->Ok_0;
    subnet_text_reads(net as u32, prefix);
}

/// A written subnet reads as what was written, where its address is a network of its prefix.
pub proof fn subnet_text_reads(net: u32, prefix: nat)
    requires
        prefix <= 30,
    ensures
        subnet_read(subnet_text(net as nat, prefix)) == Ok::<(nat, nat), LinkFault>((network(net as nat, prefix), prefix)),
{
    let t = subnet_text(net as nat, prefix);
    ipv4_text_has_no_slash(net);
    parted_after(ipv4_text(net as nat), '/', decimal(prefix));
    assert(is_ipv4(ipv4_text(net as nat)));
    law_ipv4_text_injective(net, ipv4_value(ipv4_text(net as nat)));
    law_decimal_round_trip(prefix, 255);
}

/// An address text consists of digits and dots.
pub proof fn ipv4_text_has_no_slash(ip: u32)
    ensures
        forall|j: int| 0 <= j < ipv4_text(ip as nat).len() ==> ipv4_text(ip as nat)[j] != '/',
{
    let n = ip as nat;
    let parts = (n / 16777216, n / 65536 % 256, n / 256 % 256, n % 256);
    decimal_reads_back(parts.0);
    decimal_reads_back(parts.1);
    decimal_reads_back(parts.2);
    decimal_reads_back(parts.3);
    let t = ipv4_text(n);
    let d0 = decimal(parts.0);
    let d1 = decimal(parts.1);
    let d2 = decimal(parts.2);
    let d3 = decimal(parts.3);
    assert forall|j: int| 0 <= j < t.len() implies t[j] != '/' by {
        if j < d0.len() {
            assert(t[j] == d0[j] && is_digit(d0[j]));
        } else if j == d0.len() {
        } else if j < d0.len() + 1 + d1.len() {
            let k = j - d0.len() - 1;
            assert(t[j] == d1[k] && is_digit(d1[k]));
        } else if j == d0.len() + 1 + d1.len() {
        } else if j < d0.len() + 1 + d1.len() + 1 + d2.len() {
            let k = j - d0.len() - d1.len() - 2;
            assert(t[j] == d2[k] && is_digit(d2[k]));
        } else if j == d0.len() + 1 + d1.len() + 1 + d2.len() {
        } else {
            let k = j - d0.len() - d1.len() - d2.len() - 3;
            assert(t[j] == d3[k] && is_digit(d3[k]));
        }
    }
}

/// The links of two slots of one network have no address in common.
pub proof fn law_links_disjoint(net: nat, i: nat, j: nat)
    requires
        i != j,
    ensures
        link_of(net, i).0 != link_of(net, j).0,
        link_of(net, i).0 != link_of(net, j).1,
        link_of(net, i).1 != link_of(net, j).0,
        link_of(net, i).1 != link_of(net, j).1,
{
}

/// A link lies within its subnet, and neither of its addresses is the first
/// or the last of its `/30`.
pub proof fn law_link_inside_subnet(s: Seq<char>, slot: nat)
    requires
        subnet_read(s) is Ok,
        slot < slots(subnet_read(s)->Ok_0.1),
    ensures
        ({
            let (net, prefix) = subnet_read(s)->Ok_0;
            let (host, guest) = link_of(net, slot);
            &&& net < host < guest < net + 4 * slots(prefix)
            &&& net + 4 * slots(prefix) <= 4294967296
            &&& host % 4 == 1
            &&& guest % 4 == 2
        }),
{
    subnet_read_bounds(s);
    let (net, prefix) = subnet_read(s)->Ok_0;
    let b = (4 * slots(prefix)) as int;
    assert(net % 4 == 0) by {
        vstd::arithmetic::div_mod::lemma_mod_decreases(net, 4 * slots(prefix));
        assert(net as int % b == 0);
        let q = net as int / b;
        vstd::arithmetic::div_mod::lemma_fundamental_div_mod(net as int, b);
        assert(net == 4 * (slots(prefix) * q)) by (nonlinear_arith)
            requires
                net == b * q,
                b == 4 * slots(prefix),
        ;
    }
}

/// A serving slot is never the build slot, and on a subnet of the required
/// size both have a link.
pub proof fn law_serving_never_build(s: Seq<char>, slot: nat)
    requires
        slot < SERVING_LINK_SLOTS,
        capacity_fault(s) is None,
    ensures
        slot != BUILD_SEQ,
        slot < slots(subnet_read(s)->Ok_0.1),
        BUILD_SEQ < slots(subnet_read(s)->Ok_0.1),
{
}

/// The guest MAC of VM index `seq`: a locally administered address with the
/// index behind the prefix, low byte first.
pub open spec fn guest_mac(seq: nat) -> Seq<char> {
    "02:FC:"@ + hex_byte_upper(seq % 256) + ":"@ + hex_byte_upper(seq / 256 % 256) + ":"@ + hex_byte_upper(
        seq / 65536 % 256,
    ) + ":"@ + hex_byte_upper(seq / 16777216)
}

/// The guest MAC of VM index `seq`.
pub fn derive_guest_mac(seq: u32) -> (r: String)
    ensures
        r@ == guest_mac(seq as nat),
{
    let mut out = "02:FC:".to_owned();
    push_hex_byte_upper(&mut out, (seq % 256) as u8);
    out.append(":");
    push_hex_byte_upper(&mut out, (seq / 256 % 256) as u8);
    out.append(":");
    push_hex_byte_upper(&mut out, (seq / 65536 % 256) as u8);
    out.append(":");
    push_hex_byte_upper(&mut out, (seq / 16777216) as u8);
    out
}

/// A subnet of prefix length sixteen has room for every link, and so has any
/// larger one; a smaller one has not.
pub proof fn law_a_slash_sixteen_is_enough(s: Seq<char>)
    requires
        subnet_read(s) is Ok,
    ensures
        capacity_fault(s) is None <==> subnet_read(s)->Ok_0.1 <= 16,
        slots(30) == 1,
        slots(24) == 64,
        slots(16) == 16384,
{
    reveal_with_fuel(slots, 15);
    let p = subnet_read(s)->Ok_0.1;
    if p <= 16 {
        more_slots(p, 16);
    } else {
        more_slots(17, p);
    }
}

/// The shorter the prefix, the more links.
proof fn more_slots(a: nat, b: nat)
    requires
        a <= b,
    ensures
        slots(a) >= slots(b) >= 1,
    decreases 30 - a,
{
    if a < 30 && a < b {
        more_slots(a + 1, b);
    } else if a < 30 {
        more_slots(a + 1, a + 1);
    }
}

/// An address lies in its network, and so does every other one that is in the
/// same block: they all have that network.
pub proof fn law_network_holds_its_address(ip: nat, other: nat, prefix: nat)
    requires
        ip <= u32::MAX,
        prefix <= 30,
        network(ip, prefix) <= other < network(ip, prefix) + 4 * slots(prefix),
    ensures
        network(ip, prefix) <= ip < network(ip, prefix) + 4 * slots(prefix),
        network(other, prefix) == network(ip, prefix),
{
    slots_bounds(prefix);
    network_bounds(ip, prefix);
    let b = (4 * slots(prefix)) as int;
    let q = ip as int / b;
    vstd::arithmetic::div_mod::lemma_fundamental_div_mod(ip as int, b);
    let rest = other - network(ip, prefix);
    assert(network(ip, prefix) == b * q);
    assert(other as int == q * b + rest) by (nonlinear_arith)
        requires
            other as int == b * q + rest,
    ;
    vstd::arithmetic::div_mod::lemma_fundamental_div_mod_converse(other as int, b, q, rest);
}

} // verus!
