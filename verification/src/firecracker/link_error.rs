//! What can go wrong with a `/30` link, and how it is said.
use vstd::prelude::*;
use crate::number::{decimal, push_decimal};

verus! {

/// Why a link could not be derived, assigned or released.
#[derive(Debug)]
pub enum LinkError {
    /// The tap subnet has no `/`.
    InvalidSubnet(String),
    /// The part in front of the `/` is no IPv4 address.
    InvalidAddress(String),
    /// The part behind the `/` is no number.
    InvalidPrefix(String),
    /// The prefix leaves no room for `/30` links.
    PrefixTooLong(u8),
    /// The slot lies behind the end of the subnet.
    SlotOutOfRange { subnet: String, capacity: u64, slot: u32 },
    /// The subnet cannot hold the serving slots and the build slot.
    TooSmall { subnet: String, capacity: u64 },
    /// The address behind the end of the IPv4 space.
    ExhaustedAtSeq(u32),
    /// The deterministic TAP of the key is still up.
    TapStillLive { tap_name: String, vm_key: String },
    /// Another launch of the key holds an unexpired claim.
    AlreadyReserved(String),
    /// The live TAP of the key sits on a slot that another key holds.
    LegacySlotTaken { tap_name: String, slot: u32 },
    /// Every serving slot is assigned or live.
    SlotsExhausted,
    /// The key has no assignment.
    AssignmentGone(String),
    /// The claim on the key belongs to someone else.
    OwnerChanged(String),
}

/// A `LinkError` with its texts as sequences of characters.
pub enum LinkFault {
    InvalidSubnet(Seq<char>),
    InvalidAddress(Seq<char>),
    InvalidPrefix(Seq<char>),
    PrefixTooLong(u8),
    SlotOutOfRange { subnet: Seq<char>, capacity: u64, slot: u32 },
    TooSmall { subnet: Seq<char>, capacity: u64 },
    ExhaustedAtSeq(u32),
    TapStillLive { tap_name: Seq<char>, vm_key: Seq<char> },
    AlreadyReserved(Seq<char>),
    LegacySlotTaken { tap_name: Seq<char>, slot: u32 },
    SlotsExhausted,
    AssignmentGone(Seq<char>),
    OwnerChanged(Seq<char>),
}

impl View for LinkError {
    type V = LinkFault;

    open spec fn view(&self) -> LinkFault {
        match self {
            LinkError::InvalidSubnet(s) => LinkFault::InvalidSubnet(s@),
            LinkError::InvalidAddress(s) => LinkFault::InvalidAddress(s@),
            LinkError::InvalidPrefix(s) => LinkFault::InvalidPrefix(s@),
            LinkError::PrefixTooLong(p) => LinkFault::PrefixTooLong(*p),
            LinkError::SlotOutOfRange { subnet, capacity, slot } => LinkFault::SlotOutOfRange {
                subnet: subnet@,
                capacity: *capacity,
                slot: *slot,
            },
            LinkError::TooSmall { subnet, capacity } => LinkFault::TooSmall { subnet: subnet@, capacity: *capacity },
            LinkError::ExhaustedAtSeq(n) => LinkFault::ExhaustedAtSeq(*n),
            LinkError::TapStillLive { tap_name, vm_key } => LinkFault::TapStillLive { tap_name: tap_name@, vm_key: vm_key@ },
            LinkError::AlreadyReserved(s) => LinkFault::AlreadyReserved(s@),
            LinkError::LegacySlotTaken { tap_name, slot } => LinkFault::LegacySlotTaken { tap_name: tap_name@, slot: *slot },
            LinkError::SlotsExhausted => LinkFault::SlotsExhausted,
            LinkError::AssignmentGone(s) => LinkFault::AssignmentGone(s@),
            LinkError::OwnerChanged(s) => LinkFault::OwnerChanged(s@),
        }
    }
}

/// A text in double quotes with its special characters escaped, as the
/// `Debug` formatting of a string shows it.
pub uninterp spec fn debug_quoted(s: Seq<char>) -> Seq<char>;

/// The `Debug` formatting of `str`; what it escapes, and how, is left to the name.
#[verifier::external_body]
pub(crate) fn debug_text(s: &str) -> (r: String)
    ensures
        r@ == debug_quoted(s@),
{
    format!("{:?}", s)
}

/// How many `/30` slots serving and build VMs need together.
pub const REQUIRED_SLOTS: u64 = 16383;

/// What is said of a fault.
pub open spec fn fault_text(f: LinkFault) -> Seq<char> {
    match f {
        LinkFault::InvalidSubnet(s) => "invalid tap subnet "@ + debug_quoted(s),
        LinkFault::InvalidAddress(s) => "invalid tap subnet address "@ + debug_quoted(s),
        LinkFault::InvalidPrefix(s) => "invalid tap subnet prefix "@ + debug_quoted(s),
        LinkFault::PrefixTooLong(p) => "tap subnet prefix /"@ + decimal(p as nat) + " cannot contain /30 links"@,
        LinkFault::SlotOutOfRange { subnet, capacity, slot } => "tap subnet "@ + subnet + " has "@ + decimal(capacity as nat)
            + " /30 slots; slot "@ + decimal(slot as nat) + " is out of range"@,
        LinkFault::TooSmall { subnet, capacity } => "tap subnet "@ + subnet + " has "@ + decimal(capacity as nat)
            + " /30 slots; "@ + decimal(REQUIRED_SLOTS as nat) + " required for serving + build VMs"@,
        LinkFault::ExhaustedAtSeq(n) => "tap subnet exhausted at seq "@ + decimal(n as nat),
        LinkFault::TapStillLive { tap_name, vm_key } => "Firecracker TAP "@ + tap_name + " for "@ + vm_key
            + " is still live; refusing generation reuse"@,
        LinkFault::AlreadyReserved(k) => "Firecracker launch for "@ + k + " is already reserved by another runner"@,
        LinkFault::LegacySlotTaken { tap_name, slot } => "live legacy TAP "@ + tap_name + " uses slot "@ + decimal(
            slot as nat,
        ) + ", already assigned to another vm_key"@,
        LinkFault::SlotsExhausted => "Firecracker serving link slots exhausted"@,
        LinkFault::AssignmentGone(k) => "FC link assignment disappeared for "@ + k,
        LinkFault::OwnerChanged(k) => "FC launch reservation owner changed for "@ + k,
    }
}

impl LinkError {
    /// What is said of the error.
    pub fn message(&self) -> (r: String)
        ensures
            r@ == fault_text(self@),
    {
        let mut out = String::new();
        match self {
            LinkError::InvalidSubnet(s) => {
                out = "invalid tap subnet ".to_owned();
                out.append(&debug_text(s));
            },
            LinkError::InvalidAddress(s) => {
                out = "invalid tap subnet address ".to_owned();
                out.append(&debug_text(s));
            },
            LinkError::InvalidPrefix(s) => {
                out = "invalid tap subnet prefix ".to_owned();
                out.append(&debug_text(s));
            },
            LinkError::PrefixTooLong(p) => {
                out = "tap subnet prefix /".to_owned();
                push_decimal(&mut out, *p as u64);
                out.append(" cannot contain /30 links");
            },
            LinkError::SlotOutOfRange { subnet, capacity, slot } => {
                out = "tap subnet ".to_owned();
                out.append(subnet);
                out.append(" has ");
                push_decimal(&mut out, *capacity);
                out.append(" /30 slots; slot ");
                push_decimal(&mut out, *slot as u64);
                out.append(" is out of range");
            },
            LinkError::TooSmall { subnet, capacity } => {
                out = "tap subnet ".to_owned();
                out.append(subnet);
                out.append(" has ");
                push_decimal(&mut out, *capacity);
                out.append(" /30 slots; ");
                push_decimal(&mut out, REQUIRED_SLOTS);
                out.append(" required for serving + build VMs");
            },
            LinkError::ExhaustedAtSeq(n) => {
                out = "tap subnet exhausted at seq ".to_owned();
                push_decimal(&mut out, *n as u64);
            },
            LinkError::TapStillLive { tap_name, vm_key } => {
                out = "Firecracker TAP ".to_owned();
                out.append(tap_name);
                out.append(" for ");
                out.append(vm_key);
                out.append(" is still live; refusing generation reuse");
            },
            LinkError::AlreadyReserved(k) => {
                out = "Firecracker launch for ".to_owned();
                out.append(k);
                out.append(" is already reserved by another runner");
            },
            LinkError::LegacySlotTaken { tap_name, slot } => {
                out = "live legacy TAP ".to_owned();
                out.append(tap_name);
                out.append(" uses slot ");
                push_decimal(&mut out, *slot as u64);
                out.append(", already assigned to another vm_key");
            },
            LinkError::SlotsExhausted => {
                out = "Firecracker serving link slots exhausted".to_owned();
            },
            LinkError::AssignmentGone(k) => {
                out = "FC link assignment disappeared for ".to_owned();
                out.append(k);
            },
            LinkError::OwnerChanged(k) => {
                out = "FC launch reservation owner changed for ".to_owned();
                out.append(k);
            },
        }
        out
    }
}

} // verus!
