//! Link slots: assignment, claims, sweeping and release.
use std::collections::HashSet;

use tabbify_supervisor::firecracker::identity::{fc_tap_name_for_key, preferred_slot};
use tabbify_supervisor::firecracker::link_allocator::{
    first_free_slot, record_names_key, runner_record_owns, snapshot_owns, vm_uuid, AllocationMode, AssignmentFile, DiskEvidence,
    LinkAllocation, LinkReservation, LinkSlotAllocator, StoredAssignment,
};
use tabbify_supervisor::firecracker::link_claims::launch_owner;
use tabbify_supervisor::firecracker::link_error::LinkError;
use tabbify_supervisor::firecracker::live_links::{parse_live_links, LiveLinks};
use tabbify_supervisor::firecracker::snapshot::{cache_dir, mem_path, vmstate_path, write_link, CacheDir, SnapshotLink};
use tabbify_supervisor::firecracker::subnet::{
    derive_guest_mac, derive_link_ips, link_ips, normalize_subnet, subnet_slot_capacity, validate_subnet_capacity, BUILD_SEQ,
    SERVING_LINK_SLOTS,
};

const PROD_A: &str = "019f674a-8050-7121-91b4-3c7612090b18:[fd5a:1f00:0:3::1]:5000/n_sp5gctk4thaa/019f674a-8050-7121-91b4-3c7612090b18:7776b634da806dd2af91114ea11b451139384bc7";
const PROD_B: &str = "f4fc5fe0-dfdd-5f6c-9778-3895396b8842:[fd5a:1f00:0:3::1]:5000/platform/11b6d6f2-7ed1-5a03-adb7-69b6bd11c15c:current";
const NOW: u64 = 1_800_000_000;

fn no_live() -> LiveLinks {
    LiveLinks::new()
}

fn live_on(tap: &str, slot: u32) -> LiveLinks {
    let mut live = LiveLinks::new();
    live.insert(tap, slot);
    live
}

/// A copy of the table, as a second reader of its file has it.
fn reload(state: &AssignmentFile) -> AssignmentFile {
    let mut out = AssignmentFile::new();
    let mut i = 0;
    while i < state.assignments.len() {
        let a = state.assignments.value_at(i);
        out.set(
            state.assignments.key_at(i),
            StoredAssignment {
                slot: a.slot,
                updated_at_unix: a.updated_at_unix,
                launch_reserved_until_unix: a.launch_reserved_until_unix,
                launch_owner: a.launch_owner.clone(),
            },
        );
        i += 1;
    }
    out
}

fn allocator() -> LinkSlotAllocator {
    LinkSlotAllocator::new("/data", "172.31.0.0/16")
}

fn acquire(a: &LinkSlotAllocator, state: &mut AssignmentFile, key: &str) -> Result<LinkReservation, LinkError> {
    let (next, claim) = a.acquire(reload(state), key, &no_live(), &Vec::new(), NOW, 4242)?;
    *state = next;
    Ok(claim)
}

fn reserve(a: &LinkSlotAllocator, state: &mut AssignmentFile, key: &str, ev: &Vec<DiskEvidence>) -> LinkAllocation {
    let (next, allocation) = match a.allocate(reload(state), key, AllocationMode::Reserve, &no_live(), None, ev, NOW) {
        Ok(pair) => pair,
        Err(e) => panic!("{}", e.message()),
    };
    *state = next;
    allocation
}

fn give_up(state: &mut AssignmentFile, claim: &LinkReservation) {
    if let Ok(next) = claim.abandon(reload(state)) {
        *state = next;
    }
}

fn expire(state: &mut AssignmentFile, key: &str) {
    let slot = match state.get(key) {
        Some(a) => a.slot,
        None => panic!("no assignment of {key}"),
    };
    state.set(key, StoredAssignment { slot, updated_at_unix: 0, launch_reserved_until_unix: 0, launch_owner: None });
}

fn found(a: &LinkSlotAllocator, state: &AssignmentFile, key: &str) -> Option<LinkAllocation> {
    match a.lookup(state, key) {
        Ok(x) => x,
        Err(e) => panic!("{}", e.message()),
    }
}

#[test]
fn production_collision_hashes_collide_then_allocator_falls_back() {
    assert_eq!(fc_tap_name_for_key(PROD_A), "fc-7c5d2265519c");
    assert_eq!(fc_tap_name_for_key(PROD_B), "fc-5179fd44f3be");
    assert_eq!(preferred_slot(PROD_A), 15_622);
    assert_eq!(preferred_slot(PROD_A), preferred_slot(PROD_B));

    let allocator = allocator();
    let mut state = AssignmentFile::new();
    let first = acquire(&allocator, &mut state, PROD_A).unwrap();
    let second = acquire(&allocator, &mut state, PROD_B).unwrap();
    assert_eq!(first.allocation().slot, 15_622);
    assert_eq!(second.allocation().slot, 15_623);
}

#[test]
fn forced_preferred_collision_falls_back_and_is_durable() {
    let assigned = HashSet::from([123]);
    assert_eq!(first_free_slot(123, &assigned, &HashSet::new()).unwrap(), 124);
}

#[test]
fn reserve_adopts_expected_legacy_tap_actual_slot() {
    let allocator = allocator();
    let tap = fc_tap_name_for_key(PROD_A);
    let live = live_on(&tap, 77);
    let (state, allocation) = allocator
        .allocate(AssignmentFile::new(), PROD_A, AllocationMode::Reserve, &live, None, &Vec::new(), NOW)
        .unwrap();
    assert_eq!(allocation.slot, 77);
    assert_eq!(found(&allocator, &state, PROD_A).unwrap().slot, 77);
}

#[test]
fn acquire_refuses_while_expected_tap_is_live() {
    let allocator = allocator();
    let tap = fc_tap_name_for_key(PROD_A);
    let live = live_on(&tap, 77);
    let error = allocator
        .allocate(AssignmentFile::new(), PROD_A, AllocationMode::Acquire, &live, Some("test-owner"), &Vec::new(), NOW)
        .unwrap_err();
    assert!(error.message().contains("still live"));
}

#[test]
fn one_live_reservation_blocks_another() {
    let allocator = allocator();
    let mut state = AssignmentFile::new();
    let _first = acquire(&allocator, &mut state, PROD_A).unwrap();
    let error = acquire(&allocator, &mut state, PROD_A).unwrap_err();
    assert!(error.message().contains("already reserved"));
}

#[test]
fn dropped_failed_reservation_permits_immediate_reacquire() {
    let allocator = allocator();
    let mut state = AssignmentFile::new();
    let failed = acquire(&allocator, &mut state, PROD_A).unwrap();
    give_up(&mut state, &failed);
    assert!(acquire(&allocator, &mut state, PROD_A).is_ok());
}

#[test]
fn confirmed_reservation_permits_reacquire_after_tap_teardown() {
    let allocator = allocator();
    let mut state = AssignmentFile::new();
    let claim = acquire(&allocator, &mut state, PROD_A).unwrap();
    let (next, allocation) = claim.confirm(state).unwrap();
    let mut state = next;
    let next = acquire(&allocator, &mut state, PROD_A).unwrap();
    assert_eq!(next.allocation(), &allocation);
}

#[test]
fn stale_reservation_drop_cannot_clear_new_owner() {
    let allocator = allocator();
    let mut state = AssignmentFile::new();
    let stale = acquire(&allocator, &mut state, PROD_A).unwrap();
    let (slot, updated, owner) = {
        let a = state.get(PROD_A).unwrap();
        (a.slot, a.updated_at_unix, a.launch_owner.clone())
    };
    state.set(
        PROD_A,
        StoredAssignment { slot, updated_at_unix: updated, launch_reserved_until_unix: 0, launch_owner: owner },
    );
    let current = acquire(&allocator, &mut state, PROD_A).unwrap();
    give_up(&mut state, &stale);
    assert!(acquire(&allocator, &mut state, PROD_A).is_err());
    give_up(&mut state, &current);
    assert!(acquire(&allocator, &mut state, PROD_A).is_ok());
}

#[test]
fn parses_live_tap_name_and_slot() {
    let links = parse_live_links(
        "172.31.19.9/16",
        "7: fc-7c5d2265519c inet 172.31.244.25/30 scope global fc-7c5d2265519c\n8: eth0 inet 10.0.0.2/24",
    );
    assert_eq!(links.by_tap.get("fc-7c5d2265519c"), Some(&15_622));
    assert!(links.slots.contains(&15_622));
}

#[test]
fn normalize_subnet_masks_host_bits() {
    assert_eq!(normalize_subnet("172.31.19.9/16").unwrap(), "172.31.0.0/16");
}

#[test]
fn undersized_subnet_is_rejected_before_allocation() {
    let allocator = LinkSlotAllocator::new("/data", "172.31.0.0/17");
    let error = allocator.reserve(AssignmentFile::new(), "vm:ref", &no_live(), &Vec::new(), NOW).unwrap_err();
    assert!(error.message().contains("required for serving + build VMs"));
}

#[test]
fn expired_unowned_assignment_is_garbage_collected() {
    let allocator = allocator();
    let mut state = AssignmentFile::new();
    reserve(&allocator, &mut state, "old:ref", &Vec::new());
    expire(&mut state, "old:ref");
    reserve(&allocator, &mut state, "new:ref", &Vec::new());
    assert!(found(&allocator, &state, "old:ref").is_none());
}

#[test]
fn matching_snapshot_retains_expired_assignment() {
    let allocator = allocator();
    let mut state = AssignmentFile::new();
    let allocation = reserve(&allocator, &mut state, "old:ref", &Vec::new());
    let dir = cache_dir("/data", "old");
    assert_eq!(vmstate_path(&dir), "/data/apps/old/cache/snap.vmstate");
    assert_eq!(mem_path(&dir), "/data/apps/old/cache/snap.mem");
    let mut cache = CacheDir::new();
    cache.vmstate = true;
    cache.mem = true;
    write_link(
        &mut cache,
        SnapshotLink { slot: allocation.slot, tap_subnet: allocation.tap_subnet, tap_name: allocation.tap_name },
    );
    expire(&mut state, "old:ref");
    let ev = vec![DiskEvidence { uuid: "old".to_owned(), cache, record: None }];
    reserve(&allocator, &mut state, "new:ref", &ev);
    assert!(found(&allocator, &state, "old:ref").is_some());
}

#[test]
fn only_current_runner_record_generation_retains_expired_assignment() {
    let allocator = allocator();
    let mut state = AssignmentFile::new();
    reserve(&allocator, &mut state, "app:old", &Vec::new());
    reserve(&allocator, &mut state, "app:current", &Vec::new());
    expire(&mut state, "app:old");
    expire(&mut state, "app:current");
    let mut record = serde_json::Map::new();
    record.insert("image_ref".to_owned(), serde_json::Value::String("current".to_owned()));
    let ev = vec![DiskEvidence {
        uuid: "app".to_owned(),
        cache: CacheDir::new(),
        record: Some(serde_json::to_vec(&serde_json::Value::Object(record)).unwrap()),
    }];
    reserve(&allocator, &mut state, "new:ref", &ev);
    assert!(found(&allocator, &state, "app:old").is_none());
    assert!(found(&allocator, &state, "app:current").is_some());
}

#[test]
fn release_uuid_removes_all_non_live_generations() {
    let allocator = allocator();
    let mut state = AssignmentFile::new();
    reserve(&allocator, &mut state, "app:a", &Vec::new());
    reserve(&allocator, &mut state, "app:b", &Vec::new());
    reserve(&allocator, &mut state, "other:c", &Vec::new());
    let (state, gone) = allocator.release_uuid(state, "app", &no_live()).unwrap();
    assert_eq!(gone, 2);
    assert!(found(&allocator, &state, "app:a").is_none());
    assert!(found(&allocator, &state, "app:b").is_none());
    assert!(found(&allocator, &state, "other:c").is_some());
}

#[test]
fn release_keeps_a_generation_whose_tap_is_live() {
    let allocator = allocator();
    let mut state = AssignmentFile::new();
    let a = reserve(&allocator, &mut state, "app:a", &Vec::new());
    reserve(&allocator, &mut state, "app:b", &Vec::new());
    let (state, gone) = allocator.release_uuid(state, "app", &live_on(&a.tap_name, a.slot)).unwrap();
    assert_eq!(gone, 1);
    assert!(found(&allocator, &state, "app:a").is_some());
    assert!(found(&allocator, &state, "app:b").is_none());
}

#[test]
fn slots_are_distinct_kept_and_run_out() {
    {
        let allocator = allocator();
        let mut state = AssignmentFile::new();
        let mut seen = HashSet::new();
        let mut i = 0;
        while i < 40 {
            let key = format!("app-{i}:ref");
            let a = reserve(&allocator, &mut state, &key, &Vec::new());
            assert!(a.slot < SERVING_LINK_SLOTS);
            assert!(seen.insert(a.slot), "slot {} twice", a.slot);
            i += 1;
        }
    }
    {
        let allocator = allocator();
        let mut state = AssignmentFile::new();
        let one = reserve(&allocator, &mut state, "app:ref", &Vec::new());
        let two = reserve(&allocator, &mut state, "app:ref", &Vec::new());
        assert_eq!(one, two);
    }
    {
        let mut all: HashSet<u32> = (0..SERVING_LINK_SLOTS).collect();
        assert!(matches!(first_free_slot(5, &all, &HashSet::new()), Err(LinkError::SlotsExhausted)));
        all.remove(&3);
        assert_eq!(first_free_slot(16_000, &all, &HashSet::new()).unwrap(), 3);
    }
}


#[test]
fn a_claim_ends_only_for_its_owner() {
    let allocator = allocator();
    let mut state = AssignmentFile::new();
    let claim = acquire(&allocator, &mut state, PROD_A).unwrap();
    let foreign = LinkReservation {
        vm_key: PROD_A.to_owned(),
        owner: "someone else".to_owned(),
        held: claim.allocation().clone(),
        active: true,
    };
    assert!(matches!(foreign.abandon(reload(&state)), Err(LinkError::OwnerChanged(_))));
    let gone = LinkReservation {
        vm_key: "absent".to_owned(),
        owner: claim.owner.clone(),
        held: claim.allocation().clone(),
        active: true,
    };
    assert!(matches!(gone.abandon(reload(&state)), Err(LinkError::AssignmentGone(_))));
}

#[test]
fn an_unexpired_claim_is_refused_and_an_expired_one_is_not() {
    let allocator = allocator();
    let (state, _claim) = allocator
        .acquire_as(AssignmentFile::new(), "k:r", &no_live(), &Vec::new(), 1_000, "one")
        .unwrap();
    let early = allocator.acquire_as(reload(&state), "k:r", &no_live(), &Vec::new(), 1_100, "two");
    assert!(matches!(early, Err(LinkError::AlreadyReserved(_))));
    let late = allocator.acquire_as(reload(&state), "k:r", &no_live(), &Vec::new(), 1_121, "two");
    assert!(late.is_ok());
}

#[test]
fn a_taken_legacy_slot_is_refused() {
    let allocator = allocator();
    let mut state = AssignmentFile::new();
    state.set("other:r", StoredAssignment { slot: 77, updated_at_unix: NOW, launch_reserved_until_unix: 0, launch_owner: None });
    let tap = fc_tap_name_for_key("k:r");
    let r = allocator.reserve(state, "k:r", &live_on(&tap, 77), &Vec::new(), NOW);
    assert!(matches!(r, Err(LinkError::LegacySlotTaken { .. })));
}

#[test]
fn owners_and_evidence_are_told_apart() {
    {
        let a = launch_owner(7);
        let b = launch_owner(7);
        assert!(a.starts_with("7:"));
        assert_eq!(a.len(), 2 + 36);
        assert_ne!(a, b);
    }
    {
        assert_eq!(vm_uuid("app:ref:more"), "app");
        assert_eq!(vm_uuid("app"), "app");
        let bare = Some(b"{}".to_vec());
        assert!(runner_record_owns("app", &bare));
        assert!(!runner_record_owns("app:x", &bare));
        assert!(!runner_record_owns("app", &None));
        assert!(!runner_record_owns("app", &Some(b"no json".to_vec())));
        assert!(!record_names_key("app", &None));
        let empty = CacheDir::new();
        assert!(!snapshot_owns("172.31.0.0/16", "app:x", 3, &empty));
    }
}


#[test]
fn subnets_say_what_is_wrong_with_them() {
    assert!(matches!(normalize_subnet("172.31.0.0"), Err(LinkError::InvalidSubnet(_))));
    assert!(matches!(normalize_subnet("nope/16"), Err(LinkError::InvalidAddress(_))));
    assert!(matches!(normalize_subnet("172.31.0.0/x"), Err(LinkError::InvalidPrefix(_))));
    assert!(matches!(normalize_subnet("172.31.0.0/31"), Err(LinkError::PrefixTooLong(31))));
    assert_eq!(subnet_slot_capacity("172.31.0.0/16").unwrap(), 16_384);
    assert_eq!(subnet_slot_capacity("172.31.0.0/30").unwrap(), 1);
    assert!(validate_subnet_capacity("172.31.0.0/16").is_ok());
    assert!(matches!(validate_subnet_capacity("172.31.0.0/17"), Err(LinkError::TooSmall { .. })));
    assert!(matches!(link_ips("172.31.0.0/30", 1), Err(LinkError::SlotOutOfRange { .. })));
    assert_eq!(link_ips("172.31.9.9/16", 15_622).unwrap(), (0xAC1F_F419, 0xAC1F_F41A));
    assert!(matches!(derive_link_ips("nope", 0), Err(LinkError::InvalidSubnet(_))));
    assert!(matches!(derive_link_ips("255.255.255.254/16", 1), Err(LinkError::ExhaustedAtSeq(1))));
    assert!(BUILD_SEQ >= SERVING_LINK_SLOTS);
}

#[test]
fn firecracker_link_ips_carve_sequential_slash30s() {
    let (h0, g0) = derive_link_ips("172.31.0.0/16", 0).unwrap();
    assert_eq!(h0, 0xAC1F_0001);
    assert_eq!(g0, 0xAC1F_0002);
    let (h1, g1) = derive_link_ips("172.31.0.0/16", 1).unwrap();
    assert_eq!(h1, 0xAC1F_0005);
    assert_eq!(g1, 0xAC1F_0006);
}

#[test]
fn linux_tests_link_ips_carve_sequential_slash30s() {
    let (h0, g0) = derive_link_ips("172.31.0.0/16", 0).unwrap();
    assert_eq!(h0, u32::from_be_bytes([172, 31, 0, 1]));
    assert_eq!(g0, u32::from_be_bytes([172, 31, 0, 2]));
    let (h1, g1) = derive_link_ips("172.31.0.0/16", 1).unwrap();
    assert_eq!(h1, u32::from_be_bytes([172, 31, 0, 5]));
    assert_eq!(g1, u32::from_be_bytes([172, 31, 0, 6]));
}

#[test]
fn firecracker_guest_mac_is_locally_administered_and_deterministic() {
    assert_eq!(derive_guest_mac(0), "02:FC:00:00:00:00");
    assert_eq!(derive_guest_mac(1), "02:FC:01:00:00:00");
}

#[test]
fn linux_tests_guest_mac_is_locally_administered_and_deterministic() {
    assert_eq!(derive_guest_mac(0), "02:FC:00:00:00:00");
    assert_eq!(derive_guest_mac(1), "02:FC:01:00:00:00");
    assert_eq!(derive_guest_mac(0xABCD), "02:FC:CD:AB:00:00");
}

#[test]
fn links_are_disjoint_and_inside_their_subnet() {
    let subnet = "172.31.0.0/16";
    let mut seen = HashSet::new();
    for slot in [0, 1, 2, 15_622, SERVING_LINK_SLOTS - 1, BUILD_SEQ] {
        let (host, guest) = link_ips(subnet, slot).unwrap();
        assert!(seen.insert(host) && seen.insert(guest), "slot {slot}");
        assert_eq!(host >> 16, 0xAC1F);
        assert_eq!(guest >> 16, 0xAC1F);
        assert_eq!((host % 4, guest % 4), (1, 2));
    }
    let once = normalize_subnet("172.31.19.9/16").unwrap();
    assert_eq!(normalize_subnet(&once).unwrap(), once);
}

#[test]
fn only_serving_links_are_live() {
    let links = parse_live_links(
        "172.31.0.0/16",
        "1: fc-bld0 inet 172.31.255.249/30\n2: fc-a: inet 172.31.0.5/30\n3: fc-b inet 172.31.0.6/30\n4: fc-c inet 10.0.0.1/30\n5:",
    );
    assert_eq!(links.by_tap.len(), 1);
    assert_eq!(links.by_tap.get("fc-a"), Some(&1));
    assert_eq!(links.slots.len(), 1);
    assert_eq!(parse_live_links("nope", "2: fc-a inet 172.31.0.5/30").by_tap.len(), 0);
}
