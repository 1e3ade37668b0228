//! The allocator's operations on a host: look a link up, take it for a
//! launch, and release the links of an app.
use vstd::prelude::*;
use crate::firecracker::identity::fc_tap_name_for_key;
use crate::firecracker::link_allocator::{
    allocated, allocation_is, evidence_view, released, survives_release, swept, AllocationMode, Assigned, AssignmentFile,
    DiskEvidence, LinkAllocation, LinkReservation, LinkSlotAllocator,
};
use crate::firecracker::link_error::{LinkError, LinkFault};
use crate::firecracker::live_links::LiveLinks;
use crate::firecracker::subnet::{capacity_fault, validate_subnet_capacity};
use crate::number::{decimal, push_decimal};
use crate::text::{concat2, starts_with_text, text_eq};

verus! {

/// Is `c` a lower-case hexadecimal digit?
pub open spec fn is_lower_hex(c: char) -> bool {
    '0' <= c <= '9' || 'a' <= c <= 'f'
}

/// Is `s` written like a UUID: hexadecimal groups of eight, four, four, four
/// and twelve digits, parted by hyphens?
pub open spec fn uuid_shaped(s: Seq<char>) -> bool {
    &&& s.len() == 36
    &&& forall|i: int|
        0 <= i < 36 ==> if i == 8 || i == 13 || i == 18 || i == 23 {
            #[trigger] s[i] == '-'
        } else {
            is_lower_hex(s[i])
        }
}

/// `uuid::Uuid::new_v4` makes a random UUID, whose `to_string` is its
/// hyphenated lower-case form.
#[verifier::external_body]
fn random_uuid() -> (r: String)
    ensures
        uuid_shaped(r@),
{
    uuid::Uuid::new_v4().to_string()
}

/// Is `owner` a claim token of the process `pid`?
pub open spec fn is_owner_of(owner: Seq<char>, pid: nat) -> bool {
    exists|u: Seq<char>| #[trigger] uuid_shaped(u) && owner == decimal(pid) + ":"@ + u
}

/// A fresh claim token for the process `pid`.
pub fn launch_owner(pid: u32) -> (r: String)
    ensures
        is_owner_of(r@, pid as nat),
{
    let mut out = String::new();
    push_decimal(&mut out, pid as u64);
    out.append(":");
    let u = random_uuid();
    out.append(&u);
    assert(out@ =~= decimal(pid as nat) + ":"@ + u@);
    out
}

impl LinkSlotAllocator {
    /// Looks up or assigns the link of `vm_key` without claiming it for a
    /// launch. A live TAP of the key is adopted on the slot it really has.
    pub fn reserve(&self, state: AssignmentFile, vm_key: &str, live: &LiveLinks, ev: &Vec<DiskEvidence>, now: u64) -> (r: Result<
        (AssignmentFile, LinkAllocation),
        LinkError,
    >)
        requires
            state.wf(),
            live.wf(),
        ensures
            match capacity_fault(self.tap_subnet@) {
                Some(f) => r is Err && r->Err_0@ == f,
                None => match allocated(
                    swept(self.tap_subnet@, state@, live@, evidence_view(ev@), vm_key@, now),
                    live@,
                    vm_key@,
                    AllocationMode::Reserve,
                    None,
                    now,
                ) {
                    Ok((m, slot)) => r is Ok && r->Ok_0.0.wf() && r->Ok_0.0@ == m && allocation_is(
                        r->Ok_0.1,
                        self.tap_subnet@,
                        vm_key@,
                        slot,
                    ),
                    Err(f) => r is Err && r->Err_0@ == f,
                },
            },
    {
        match validate_subnet_capacity(&self.tap_subnet) {
            Ok(_) => self.allocate(state, vm_key, AllocationMode::Reserve, live, None, ev, now),
            Err(e) => Err(e),
        }
    }

    /// Takes the link of `vm_key` for a launch by `owner`.
    pub fn acquire_as(
        &self,
        state: AssignmentFile,
        vm_key: &str,
        live: &LiveLinks,
        ev: &Vec<DiskEvidence>,
        now: u64,
        owner: &str,
    ) -> (r: Result<(AssignmentFile, LinkReservation), LinkError>)
        requires
            state.wf(),
            live.wf(),
        ensures
            match capacity_fault(self.tap_subnet@) {
                Some(f) => r is Err && r->Err_0@ == f,
                None => match allocated(
                    swept(self.tap_subnet@, state@, live@, evidence_view(ev@), vm_key@, now),
                    live@,
                    vm_key@,
                    AllocationMode::Acquire,
                    Some(owner@),
                    now,
                ) {
                    Ok((m, slot)) => {
                        &&& r is Ok
                        &&& r->Ok_0.0.wf()
                        &&& r->Ok_0.0@ == m
                        &&& allocation_is(r->Ok_0.1.held, self.tap_subnet@, vm_key@, slot)
                        &&& r->Ok_0.1.vm_key@ == vm_key@
                        &&& r->Ok_0.1.owner@ == owner@
                        &&& r->Ok_0.1.active
                    },
                    Err(f) => r is Err && r->Err_0@ == f,
                },
            },
    {
        match validate_subnet_capacity(&self.tap_subnet) {
            Ok(_) => {},
            Err(e) => return Err(e),
        }
        match self.allocate(state, vm_key, AllocationMode::Acquire, live, Some(owner), ev, now) {
            Ok((next, held)) => Ok(
                (next, LinkReservation { vm_key: vm_key.to_owned(), owner: owner.to_owned(), held, active: true }),
            ),
            Err(e) => Err(e),
        }
    }

    /// Takes the link of `vm_key` for a launch by the process `pid`. The claim
    /// token is fresh; whether the link can be had does not depend on it.
    pub fn acquire(
        &self,
        state: AssignmentFile,
        vm_key: &str,
        live: &LiveLinks,
        ev: &Vec<DiskEvidence>,
        now: u64,
        pid: u32,
    ) -> (r: Result<(AssignmentFile, LinkReservation), LinkError>)
        requires
            state.wf(),
            live.wf(),
        ensures
            match capacity_fault(self.tap_subnet@) {
                Some(f) => r is Err && r->Err_0@ == f,
                None => match r {
                    Ok((next, claim)) => {
                        let want = allocated(
                            swept(self.tap_subnet@, state@, live@, evidence_view(ev@), vm_key@, now),
                            live@,
                            vm_key@,
                            AllocationMode::Acquire,
                            Some(claim.owner@),
                            now,
                        );
                        &&& want is Ok
                        &&& next.wf()
                        &&& next@ == want->Ok_0.0
                        &&& allocation_is(claim.held, self.tap_subnet@, vm_key@, want->Ok_0.1)
                        &&& claim.vm_key@ == vm_key@
                        &&& claim.active
                        &&& is_owner_of(claim.owner@, pid as nat)
                    },
                    Err(e) => forall|owner: Seq<char>|
                        allocated(
                            swept(self.tap_subnet@, state@, live@, evidence_view(ev@), vm_key@, now),
                            live@,
                            vm_key@,
                            AllocationMode::Acquire,
                            #[trigger] some_owner(owner),
                            now,
                        ) == Err::<(Map<Seq<char>, Assigned>, u32), LinkFault>(e@),
                },
            },
    {
        let owner = launch_owner(pid);
        let ghost m = swept(self.tap_subnet@, state@, live@, evidence_view(ev@), vm_key@, now);
        let r = self.acquire_as(state, vm_key, live, ev, now, &owner);
        proof {
            assert forall|o: Seq<char>|
                allocated(m, live@, vm_key@, AllocationMode::Acquire, Some(owner@), now) is Err implies allocated(
                m,
                live@,
                vm_key@,
                AllocationMode::Acquire,
                #[trigger] some_owner(o),
                now,
            ) == allocated(m, live@, vm_key@, AllocationMode::Acquire, Some(owner@), now) by {}
        }
        r
    }

    /// Reads the link of `vm_key` without assigning or refreshing it.
    pub fn lookup(&self, state: &AssignmentFile, vm_key: &str) -> (r: Result<Option<LinkAllocation>, LinkError>)
        requires
            state.wf(),
        ensures
            match capacity_fault(self.tap_subnet@) {
                Some(f) => r is Err && r->Err_0@ == f,
                None => match r {
                    Ok(Some(a)) => state@.dom().contains(vm_key@) && allocation_is(
                        a,
                        self.tap_subnet@,
                        vm_key@,
                        state@[vm_key@].slot,
                    ),
                    Ok(None) => !state@.dom().contains(vm_key@),
                    Err(_) => false,
                },
            },
    {
        match validate_subnet_capacity(&self.tap_subnet) {
            Ok(_) => {},
            Err(e) => return Err(e),
        }
        match state.get(vm_key) {
            Some(stored) => Ok(Some(self.allocation(vm_key, stored.slot))),
            None => Ok(None),
        }
    }

    /// Releases every assignment of the app `uuid` whose TAP is not live on
    /// its slot, and says how many those were.
    pub fn release_uuid(&self, state: AssignmentFile, uuid: &str, live: &LiveLinks) -> (r: Result<(AssignmentFile, usize), LinkError>)
        requires
            state.wf(),
            live.wf(),
        ensures
            match capacity_fault(self.tap_subnet@) {
                Some(f) => r is Err && r->Err_0@ == f,
                None => {
                    &&& r is Ok
                    &&& r->Ok_0.0.wf()
                    &&& r->Ok_0.0@ == released(state@, uuid@, live@)
                    &&& r->Ok_0.1 + r->Ok_0.0@.dom().len() == state@.dom().len()
                },
            },
    {
        match validate_subnet_capacity(&self.tap_subnet) {
            Ok(_) => {},
            Err(e) => return Err(e),
        }
        let mut cur = state;
        let ghost m0 = state@;
        let prefix = concat2(uuid, ":");
        let before: usize = cur.assignments.len();
        let ghost pred = |k: Seq<char>| survives_release(k, m0[k], uuid@, live@);
        let mut i: usize = 0;
        while i < cur.assignments.len()
            invariant
                cur.wf(),
                live.wf(),
                m0 == state@,
                prefix@ == uuid@ + ":"@,
                i <= cur.assignments.keys().len() <= before,
                pred == (|k: Seq<char>| survives_release(k, m0[k], uuid@, live@)),
                forall|k: Seq<char>| #[trigger] cur@.dom().contains(k) ==> m0.dom().contains(k) && m0[k] == cur@[k],
                forall|k: Seq<char>| #[trigger] m0.dom().contains(k) && pred(k) ==> cur@.dom().contains(k),
                forall|j: int| 0 <= j < i ==> pred(#[trigger] cur.assignments.keys()[j]),
            decreases cur.assignments.keys().len() - i,
        {
            let ghost key = cur.assignments.keys()[i as int];
            proof {
                cur.assignments.keys_are_domain();
                assert(cur.assignments@.dom().contains(key));
                assert(cur@.dom().contains(key));
            }
            let name = cur.assignments.key_at(i);
            let held: u32 = cur.assignments.value_at(i).slot;
            let keep = if text_eq(name, uuid) || starts_with_text(name, &prefix) {
                let tap = fc_tap_name_for_key(name);
                match live.by_tap.get(&tap) {
                    Some(s) => *s == held,
                    None => false,
                }
            } else {
                true
            };
            assert(keep == pred(key));
            if keep {
                i += 1;
            } else {
                let ghost was = cur;
                cur.assignments.remove_at(i);
                proof {
                    assert(cur@ =~= was@.remove(key));
                    assert forall|j: int| 0 <= j < i implies pred(#[trigger] cur.assignments.keys()[j]) by {
                        assert(cur.assignments.keys()[j] == was.assignments.keys()[j]);
                    }
                }
            }
        }
        proof {
            cur.assignments.keys_are_domain();
            let want = released(m0, uuid@, live@);
            assert forall|k: Seq<char>| #[trigger] cur@.dom().contains(k) <==> want.dom().contains(k) by {
                if cur@.dom().contains(k) {
                    assert(cur.assignments@.dom().contains(k));
                    assert(cur.assignments.keys().contains(k));
                    let j = choose|j: int| 0 <= j < cur.assignments.keys().len() && cur.assignments.keys()[j] == k;
                    assert(pred(cur.assignments.keys()[j]));
                }
                if want.dom().contains(k) {
                    assert(m0.dom().contains(k) && pred(k));
                }
            }
            assert(cur@ =~= want);
            count_is_keys(cur);
            count_is_keys(state);
        }
        let after: usize = cur.assignments.len();
        Ok((cur, before - after))
    }
}

/// A claim token, as the table holds it.
pub open spec fn some_owner(owner: Seq<char>) -> Option<Seq<char>> {
    Some(owner)
}

/// The number of assignments is the number of entries.
proof fn count_is_keys(state: AssignmentFile)
    requires
        state.wf(),
    ensures
        state@.dom().finite(),
        state@.dom().len() == state.assignments.keys().len(),
{
    state.assignments.keys_are_domain();
    let keys = state.assignments.keys();
    keys.unique_seq_to_set();
    assert(keys.to_set() =~= state@.dom());
}

} // verus!
