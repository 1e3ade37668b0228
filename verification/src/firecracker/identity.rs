//! The host identity of a microVM: the TAP name, the API socket and the
//! preferred link slot, all derived from one key.
use vstd::prelude::*;
use crate::firecracker::subnet::{BUILD_SEQ, SERVING_LINK_SLOTS};
use crate::number::{hex_fixed, hex_fixed_len, push_hex_fixed};

verus! {

/// The TAP name of the build VM.
pub const BUILD_TAP_NAME: &'static str = "fc-bld0";

/// The scope and pidfile identity of the build VM.
pub const BUILD_SCOPE_ID_NAME: &'static str = "build0";

/// The BLAKE3 digest of some bytes.
pub uninterp spec fn blake3_digest(data: Seq<u8>) -> Seq<u8>;

/// `blake3::hash` gives the 32-byte BLAKE3 digest of its input. Which digest
/// that is, is left to the name.
#[verifier::external_body]
pub(crate) fn blake3_hash(data: &[u8]) -> (r: [u8; 32])
    ensures
        r@ == blake3_digest(data@),
{
    *blake3::hash(data).as_bytes()
}

/// The first six bytes of a digest as one number, high byte first.
pub open spec fn hash48(d: Seq<u8>) -> nat {
    (d[0] as nat * 0x100_0000_0000 + d[1] as nat * 0x1_0000_0000 + d[2] as nat * 0x100_0000 + d[3] as nat * 0x1_0000
        + d[4] as nat * 0x100 + d[5] as nat) as nat
}

/// The TAP name that a digest gives.
pub open spec fn tap_name_of(d: Seq<u8>) -> Seq<char> {
    "fc-"@ + hex_fixed(hash48(d), 12)
}

/// The link slot that a digest prefers.
pub open spec fn slot_of(d: Seq<u8>) -> nat {
    hash48(d) % (SERVING_LINK_SLOTS as nat)
}

/// The digest of an identity key.
pub open spec fn key_digest(key: Seq<char>) -> Seq<u8> {
    blake3_digest(vstd::utf8::encode_utf8(key))
}

/// The TAP name of an identity key.
pub open spec fn tap_name(key: Seq<char>) -> Seq<char> {
    tap_name_of(key_digest(key))
}

/// The link slot that an identity key prefers.
pub open spec fn preferred(key: Seq<char>) -> nat {
    slot_of(key_digest(key))
}

/// The API socket of the microVM behind a TAP.
pub open spec fn api_sock_of(tap: Seq<char>) -> Seq<char> {
    "/tmp/firecracker-"@ + tap + ".sock"@
}

/// The first six bytes of a digest as one number.
pub fn digest_hash48(d: &[u8; 32]) -> (r: u64)
    ensures
        r == hash48(d@),
        r < 0x1_0000_0000_0000,
{
    d[0] as u64 * 0x100_0000_0000 + d[1] as u64 * 0x1_0000_0000 + d[2] as u64 * 0x100_0000 + d[3] as u64 * 0x1_0000
        + d[4] as u64 * 0x100 + d[5] as u64
}

/// The TAP name that a digest gives.
pub fn tap_name_of_digest(d: &[u8; 32]) -> (r: String)
    ensures
        r@ == tap_name_of(d@),
{
    let mut out = "fc-".to_owned();
    push_hex_fixed(&mut out, digest_hash48(d), 12);
    out
}

/// The link slot that a digest prefers.
pub fn slot_of_digest(d: &[u8; 32]) -> (r: u32)
    ensures
        r == slot_of(d@),
        r < SERVING_LINK_SLOTS,
{
    (digest_hash48(d) % (SERVING_LINK_SLOTS as u64)) as u32
}

/// The TAP name for the identity `key`: `fc-` and 48 bits of the key's digest
/// in hexadecimal.
pub fn fc_tap_name_for_key(key: &str) -> (r: String)
    ensures
        r@ == tap_name(key@),
{
    tap_name_of_digest(&blake3_hash(key.as_bytes()))
}

/// The link slot that the identity `key` prefers.
pub fn preferred_slot(key: &str) -> (r: u32)
    ensures
        r == preferred(key@),
        r < SERVING_LINK_SLOTS,
{
    slot_of_digest(&blake3_hash(key.as_bytes()))
}

/// The TAP name and the preferred link slot for the identity `key`.
pub fn fc_identity_for_key(key: &str) -> (r: (String, u32))
    ensures
        r.0@ == tap_name(key@),
        r.1 == preferred(key@),
        r.1 < SERVING_LINK_SLOTS,
{
    let d = blake3_hash(key.as_bytes());
    (tap_name_of_digest(&d), slot_of_digest(&d))
}

/// The API socket of the microVM behind the TAP `tap`.
pub fn api_sock_for_tap(tap: &str) -> (r: String)
    ensures
        r@ == api_sock_of(tap@),
{
    crate::text::concat3("/tmp/firecracker-", tap, ".sock")
}

/// The API socket for the identity `key`.
pub fn fc_api_sock_for_key(key: &str) -> (r: String)
    ensures
        r@ == api_sock_of(tap_name(key@)),
{
    let tap = fc_tap_name_for_key(key);
    api_sock_for_tap(&tap)
}

/// A TAP name is fifteen characters long, which an interface name may be, and
/// begins with `fc-`.
pub proof fn law_tap_name_fits(key: Seq<char>)
    ensures
        tap_name(key).len() == 15,
        crate::text::begins_with(tap_name(key), "fc-"@),
{
    reveal_strlit("fc-");
    hex_fixed_len(hash48(key_digest(key)), 12);
    assert(tap_name(key).take(3) =~= "fc-"@);
}

/// No serving VM has the TAP of the build VM, or prefers its slot.
pub proof fn law_serving_identity_not_build(key: Seq<char>)
    ensures
        tap_name(key) != BUILD_TAP_NAME@,
        preferred(key) < BUILD_SEQ,
{
    law_tap_name_fits(key);
    reveal_strlit("fc-bld0");
}

/// Identity keys whose digests differ in their first 48 bits have different
/// TAPs and different API sockets.
pub proof fn law_distinct_hash_distinct_tap(a: Seq<char>, b: Seq<char>)
    requires
        hash48(key_digest(a)) != hash48(key_digest(b)),
    ensures
        tap_name(a) != tap_name(b),
        api_sock_of(tap_name(a)) != api_sock_of(tap_name(b)),
{
    let x = hash48(key_digest(a));
    let y = hash48(key_digest(b));
    reveal_strlit("fc-");
    let p = "fc-"@;
    if tap_name(a) == tap_name(b) {
        assert(tap_name(a).skip(3) =~= hex_fixed(x, 12));
        assert(tap_name(b).skip(3) =~= hex_fixed(y, 12));
        assert(x < 0x1_0000_0000_0000 && y < 0x1_0000_0000_0000);
        reveal_with_fuel(vstd::arithmetic::power::pow, 13);
        crate::number::hex_fixed_injective(x, y, 12);
    }
    let s1 = api_sock_of(tap_name(a));
    let s2 = api_sock_of(tap_name(b));
    law_tap_name_fits(a);
    law_tap_name_fits(b);
    let n = "/tmp/firecracker-"@.len() as int;
    assert(s1.subrange(n, n + 15) =~= tap_name(a));
    assert(s2.subrange(n, n + 15) =~= tap_name(b));
}

/// The first six bytes of a digest stand in its number in order, and the
/// others do not matter: of two digests the one with the smaller byte at the
/// first place where they differ has the smaller number, and no number takes
/// more than 48 bits.
pub proof fn law_digest_bytes_in_order(d: Seq<u8>, e: Seq<u8>, k: int)
    requires
        0 <= k <= 6,
        forall|j: int| 0 <= j < k ==> d[j] == e[j],
    ensures
        k < 6 && d[k] < e[k] ==> hash48(d) < hash48(e),
        k == 6 ==> hash48(d) == hash48(e) && tap_name_of(d) == tap_name_of(e),
        hash48(d) < 0x1_0000_0000_0000,
        slot_of(d) == hash48(d) % 16382,
{
    assert(k > 0 ==> d[0] == e[0]);
    assert(k > 1 ==> d[1] == e[1]);
    assert(k > 2 ==> d[2] == e[2]);
    assert(k > 3 ==> d[3] == e[3]);
    assert(k > 4 ==> d[4] == e[4]);
    assert(k > 5 ==> d[5] == e[5]);
}

} // verus!
