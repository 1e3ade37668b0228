//! Snapshots, credentials, launches and runs of microVMs.
use tabbify_supervisor::config::FcConfig;
use tabbify_supervisor::firecracker::cred_restore::{
    authkeys_cap_value, cap_file_names, needs_cred_restore, parse_scrub_nonce, probe_restore_capability, read_restore_token,
    replumb_creds, restore_body_json, restore_token_path, restore_url, write_restore_token, ReplumbOutcome, ReplumbStep,
    REPLUMB_BUDGET, REPLUMB_POLL, RESTORE_CREDS_PATH,
};
use tabbify_supervisor::firecracker::launch::{
    cold_boot_snapshots, console_stdio, fc_debug_enabled, guest_broker_ctrl_addr, guest_code_addr, guest_ssh_addr, launch_next,
    launch_with_uuid, socket_missing, stamp_cold_snapshot, vm_key, wait_for_socket_within, wait_until_ready, LaunchMode,
    LaunchNext, SocketWait, READY_BACKOFF_CAP,
};
use tabbify_supervisor::firecracker::live_snapshot::{
    ensure_resumed, pre_snapshot_scrub, scrub_url, stamp_live_snapshot, ResumeStep, SnapAction, SnapEvent, SnapFault, SnapRun,
};
use tabbify_supervisor::firecracker::pidfile::PidFile;
use tabbify_supervisor::firecracker::runtime::{FirecrackerRuntime, HostFacts};
use tabbify_supervisor::firecracker::snapshot::{
    app_port_path, cache_dir, clear, env_matches, env_path, files_present, is_suppressed, mem_path, read_app_port, read_link,
    ref_matches, ref_path, restore_matches, suppress, suppress_path, vmstate_path, write_app_port, write_env, write_link,
    write_ref, CacheDir, SnapshotLink,
};
use tabbify_supervisor::firecracker::snapshot_decision::{
    extra_env_is_snapshot_safe, must_scrub_before_snapshot, should_snapshot_on_cold_boot, stateful_launch_gate,
    PRE_SNAPSHOT_SCRUB_PATH,
};
use tabbify_supervisor::firecracker::stateful::{stateful_data_disk, stateful_data_mount};
use tabbify_supervisor::firecracker::vm_plan::{
    cold_boot, launch, launch_from_snapshot, run_build_vm, BuildVmSpec, LaunchFault, BUILD_VM_TIMEOUT,
};
use tabbify_supervisor::firecracker::vm_run::{VmAction, VmEvent, VmFault, VmKind, VmRun};
use tabbify_supervisor::manifest::Runtime;
use tabbify_supervisor::polling::PollStep;
use tabbify_supervisor::runtime::{watch_for_exit, RuntimeHealth};

fn with_files() -> CacheDir {
    let mut c = CacheDir::new();
    c.vmstate = true;
    c.mem = true;
    c
}

fn seed_snapshot(image_ref: &str, env_hash: &str) -> CacheDir {
    let mut c = with_files();
    write_ref(&mut c, image_ref);
    write_env(&mut c, env_hash);
    c
}

#[test]
fn files_present_false_when_dir_is_empty() {
    assert!(!files_present(&CacheDir::new()));
}

#[test]
fn files_present_false_when_only_vmstate_exists() {
    let mut c = CacheDir::new();
    c.vmstate = true;
    assert!(!files_present(&c));
}

#[test]
fn files_present_false_when_only_mem_exists() {
    let mut c = CacheDir::new();
    c.mem = true;
    assert!(!files_present(&c));
}

#[test]
fn files_present_true_when_both_files_exist() {
    assert!(files_present(&with_files()));
}

#[test]
fn ref_matches_true_when_files_present_and_ref_matches() {
    let mut c = with_files();
    write_ref(&mut c, "reg:5000/a/b@sha256:abc");
    assert!(ref_matches(&c, "reg:5000/a/b@sha256:abc"));
}

#[test]
fn ref_matches_false_when_ref_differs() {
    let mut c = with_files();
    write_ref(&mut c, "reg:5000/a/b@sha256:OLD");
    assert!(!ref_matches(&c, "reg:5000/a/b@sha256:NEW"), "a changed image_ref must invalidate the snapshot");
}

#[test]
fn ref_matches_false_when_ref_file_missing() {
    assert!(!ref_matches(&with_files(), "reg:5000/a/b@sha256:abc"));
}

#[test]
fn ref_matches_false_when_snapshot_files_absent() {
    let mut c = CacheDir::new();
    write_ref(&mut c, "reg:5000/a/b@sha256:abc");
    assert!(!ref_matches(&c, "reg:5000/a/b@sha256:abc"));
}

#[test]
fn clear_removes_ref_file_too() {
    let mut c = with_files();
    write_ref(&mut c, "reg:5000/a/b@sha256:abc");
    clear(&mut c);
    assert!(c.snapshot_ref.is_none(), "clear must drop .snapshot_ref");
    assert!(!files_present(&c));
}

#[test]
fn restore_matches_true_when_ref_and_env_match() {
    let c = seed_snapshot("reg:5000/a/b@sha256:abc", "envhash-1");
    assert!(restore_matches(&c, "reg:5000/a/b@sha256:abc", "envhash-1"));
}

#[test]
fn restore_matches_false_when_env_differs() {
    let c = seed_snapshot("reg:5000/a/b@sha256:abc", "envhash-OLD");
    assert!(!restore_matches(&c, "reg:5000/a/b@sha256:abc", "envhash-NEW"));
    assert!(env_matches(&c, "envhash-OLD"));
}

#[test]
fn restore_matches_false_when_env_file_missing() {
    let mut c = with_files();
    write_ref(&mut c, "reg:5000/a/b@sha256:abc");
    assert!(!restore_matches(&c, "reg:5000/a/b@sha256:abc", "envhash-1"), "a missing .snapshot_env must force cold boot");
}

#[test]
fn restore_matches_false_when_ref_differs_even_if_env_matches() {
    let c = seed_snapshot("reg:5000/a/b@sha256:OLD", "envhash-1");
    assert!(!restore_matches(&c, "reg:5000/a/b@sha256:NEW", "envhash-1"));
}

#[test]
fn restore_matches_false_when_moving_tag_resolves_to_new_digest() {
    let c = seed_snapshot("sha256:OLDdigest", "envhash-1");
    assert!(!restore_matches(&c, "sha256:NEWdigest", "envhash-1"));
    assert!(restore_matches(&c, "sha256:OLDdigest", "envhash-1"));
}

#[test]
fn clear_removes_env_file_too() {
    let mut c = seed_snapshot("reg:5000/a/b@sha256:abc", "envhash-1");
    clear(&mut c);
    assert!(c.snapshot_env.is_none(), "clear must drop .snapshot_env");
}

#[test]
fn app_port_round_trips_through_companion() {
    let mut c = CacheDir::new();
    assert_eq!(read_app_port(&c), None, "absent: none");
    write_app_port(&mut c, 80);
    assert_eq!(read_app_port(&c), Some(80));
    write_app_port(&mut c, 3000);
    assert_eq!(read_app_port(&c), Some(3000));
}

#[test]
fn write_app_port_creates_missing_dir() {
    let mut c = CacheDir::new();
    write_app_port(&mut c, 8788);
    assert_eq!(read_app_port(&c), Some(8788));
    assert_eq!(app_port_path(&cache_dir("/base", "u")), "/base/apps/u/cache/.app_port");
}

#[test]
fn read_app_port_none_on_garbled_contents() {
    let mut c = CacheDir::new();
    c.app_port = Some("not-a-port".to_owned());
    assert_eq!(read_app_port(&c), None);
}

#[test]
fn is_suppressed_false_without_marker() {
    assert!(!is_suppressed(&CacheDir::new()));
}

#[test]
fn suppress_creates_marker_and_is_idempotent() {
    let mut c = CacheDir::new();
    assert!(!is_suppressed(&c));
    suppress(&mut c);
    assert!(is_suppressed(&c), "marker must exist after suppress");
    assert!(!files_present(&c), "suppress must not create snapshot files");
    suppress(&mut c);
    assert!(is_suppressed(&c));
}

#[test]
fn cache_dir_path_convention() {
    assert_eq!(cache_dir("/data", "019ed025"), "/data/apps/019ed025/cache");
}

#[test]
fn vmstate_and_mem_paths_are_deterministic() {
    let base = "/data/apps/abc/cache";
    assert_eq!(vmstate_path(base), "/data/apps/abc/cache/snap.vmstate");
    assert_eq!(mem_path(base), "/data/apps/abc/cache/snap.mem");
}

#[test]
fn companions_stand_beside_the_snapshot() {
    assert_eq!(ref_path("/c"), "/c/.snapshot_ref");
    assert_eq!(env_path("/c"), "/c/.snapshot_env");
    assert_eq!(suppress_path("/c"), "/c/.no-snapshot");
    let mut c = CacheDir::new();
    assert!(read_link(&c).is_none());
    write_link(&mut c, SnapshotLink { slot: 3, tap_subnet: "172.31.0.0/16".to_owned(), tap_name: "fc-x".to_owned() });
    assert_eq!(read_link(&c).unwrap().slot, 3);
}

#[test]
fn scrub_required_only_for_workspaces() {
    assert!(must_scrub_before_snapshot(true), "a workspace must scrub creds before a Full snapshot");
    assert!(!must_scrub_before_snapshot(false), "a non-workspace FC has no creds to scrub");
}

#[test]
fn scrub_path_is_the_broker_route() {
    assert_eq!(PRE_SNAPSHOT_SCRUB_PATH, "/v1/pre-snapshot-scrub");
}

#[test]
fn cold_boot_snapshots_only_when_no_snapshot_and_not_suppressed() {
    assert!(should_snapshot_on_cold_boot(false, false, false));
    assert!(!should_snapshot_on_cold_boot(true, false, false));
    assert!(!should_snapshot_on_cold_boot(false, true, false));
    assert!(!should_snapshot_on_cold_boot(true, true, false));
}

#[test]
fn stateful_app_never_snapshots_on_cold_boot() {
    assert!(!should_snapshot_on_cold_boot(false, false, true));
    assert!(!should_snapshot_on_cold_boot(true, false, true));
    assert!(!should_snapshot_on_cold_boot(false, true, true));
    assert!(!should_snapshot_on_cold_boot(true, true, true));
}

#[test]
fn flipping_stateful_with_a_legacy_snapshot_present_must_not_warm_restore() {
    let gate = stateful_launch_gate(true, true);
    assert!(gate.block_warm_restore, "a stateful app must never warm-restore");
    assert!(gate.clear_legacy_snapshot, "the old snapshot must be deleted, not just skipped");
}

#[test]
fn stateful_without_a_snapshot_still_blocks_warm_and_clears_nothing() {
    let gate = stateful_launch_gate(true, false);
    assert!(gate.block_warm_restore);
    assert!(!gate.clear_legacy_snapshot, "nothing on disk, nothing to delete");
}

#[test]
fn non_stateful_launch_is_unaffected_by_the_gate() {
    for files_present in [false, true] {
        let gate = stateful_launch_gate(false, files_present);
        assert!(!gate.block_warm_restore);
        assert!(!gate.clear_legacy_snapshot);
    }
}

#[test]
fn clean_workspace_env_is_snapshot_safe() {
    let env = ["TABBIFY_USER_ID", "WORKSPACE_UUID", "PATH"];
    assert_eq!(extra_env_is_snapshot_safe(&env), Ok(()));
}

#[test]
fn env_with_a_cap_url_is_rejected_naming_the_key() {
    let env = ["WORKSPACE_UUID", "TABBIFY_GIT_REMOTE"];
    assert_eq!(extra_env_is_snapshot_safe(&env), Err("TABBIFY_GIT_REMOTE"));
}

#[test]
fn env_with_a_broker_token_is_rejected() {
    let env = ["TABBIFY_BROKER_TOKEN"];
    assert_eq!(extra_env_is_snapshot_safe(&env), Err("TABBIFY_BROKER_TOKEN"));
}

fn rt(stateful: bool, data_mount: Option<&str>) -> Runtime {
    Runtime {
        runtime_type: "firecracker".to_owned(),
        entry: "Dockerfile".to_owned(),
        fuel_per_request: 0,
        memory_mb: 512,
        vcpus: Some(1),
        port: None,
        kernel: None,
        registry_ref: None,
        stateful,
        data_mount: data_mount.map(str::to_owned),
    }
}

#[test]
fn non_stateful_app_gets_no_data_disk() {
    let dd = "/data";
    assert_eq!(stateful_data_disk(dd, "u1", &rt(false, None)), None);
    assert_eq!(stateful_data_disk(dd, "u1", &rt(false, Some("/x"))), None);
}

#[test]
fn stateful_app_yields_per_uuid_data_ext4() {
    let dd = "/data";
    assert_eq!(
        stateful_data_disk(dd, "abc", &rt(true, Some("/var/lib/tabbify-forge"))),
        Some("/data/apps/abc/data.ext4".to_owned())
    );
    assert_ne!(
        stateful_data_disk(dd, "abc", &rt(true, Some("/x"))),
        stateful_data_disk(dd, "def", &rt(true, Some("/x")))
    );
}

#[test]
fn non_stateful_data_mount_is_none_not_error() {
    assert_eq!(stateful_data_mount(&rt(false, None)).unwrap(), None);
    assert_eq!(stateful_data_mount(&rt(false, Some("/x"))).unwrap(), None);
}

#[test]
fn stateful_with_mount_returns_it() {
    assert_eq!(
        stateful_data_mount(&rt(true, Some("/var/lib/tabbify-forge"))).unwrap(),
        Some("/var/lib/tabbify-forge")
    );
}

#[test]
fn stateful_without_mount_is_a_hard_error() {
    assert!(stateful_data_mount(&rt(true, None)).is_err());
    assert!(stateful_data_mount(&rt(true, Some(""))).is_err());
    assert!(stateful_data_mount(&rt(true, Some("   "))).is_err());
    assert!(stateful_data_mount(&rt(true, None)).unwrap_err().message().contains("data_mount"));
}

fn caps() -> Vec<(String, String)> {
    vec![
        ("app.url".to_owned(), "http://h:8788/git/SECRET-CAP".to_owned()),
        ("authkeys.cap".to_owned(), "AK-SECRET".to_owned()),
        (
            "forge-admin.token".to_owned(),
            r#"{"owner_user":"u","owner_password":"p","admin_token":"t"}"#.to_owned(),
        ),
    ]
}

#[test]
fn restore_token_round_trips_and_absent_is_none() {
    let mut c = CacheDir::new();
    assert_eq!(read_restore_token(&c), None, "absent: none");
    write_restore_token(&mut c, "NONCE-123");
    assert_eq!(read_restore_token(&c).as_deref(), Some("NONCE-123"));
    c.restore_token = Some("\n".to_owned());
    assert_eq!(read_restore_token(&c), None);
}

#[test]
fn write_restore_token_creates_missing_cache_dir() {
    let mut c = CacheDir::new();
    write_restore_token(&mut c, "N");
    assert_eq!(read_restore_token(&c).as_deref(), Some("N"));
    assert!(restore_token_path(&cache_dir("/b", "u")).starts_with("/b/apps/u/cache/"));
}

#[test]
fn needs_cred_restore_only_for_cap_bearing_workspaces() {
    assert!(needs_cred_restore(true, true), "workspace with caps");
    assert!(!needs_cred_restore(true, false), "capless workspace");
    assert!(!needs_cred_restore(false, true), "regular app never");
    assert!(!needs_cred_restore(false, false));
}

#[test]
fn authkeys_cap_value_is_found_by_reserved_name() {
    assert_eq!(authkeys_cap_value(&caps()), Some("AK-SECRET"));
    assert_eq!(authkeys_cap_value(&[]), None);
}

#[test]
fn parse_scrub_nonce_handles_new_and_old_brokers() {
    assert_eq!(parse_scrub_nonce(r#"{"restore_nonce":"abc123"}"#).as_deref(), Some("abc123"));
    assert_eq!(parse_scrub_nonce("ok"), None);
    assert_eq!(parse_scrub_nonce(r#"{"restore_nonce":""}"#), None);
    assert_eq!(parse_scrub_nonce("{}"), None);
}

#[test]
fn restore_body_carries_all_files_and_names_are_loggable() {
    let body = restore_body_json(&caps());
    assert_eq!(body["files"]["app.url"], "http://h:8788/git/SECRET-CAP");
    assert_eq!(body["files"]["authkeys.cap"], "AK-SECRET");
    assert_eq!(cap_file_names(&caps()), vec!["app.url", "authkeys.cap", "forge-admin.token"]);
}

#[test]
fn probe_accepts_2xx_and_rejects_404() {
    assert!(probe_restore_capability("http://g:8732", &ReplumbOutcome::Status(204)).is_ok());
    let err = probe_restore_capability("http://g:8732", &ReplumbOutcome::Status(404)).unwrap_err();
    assert!(err.contains("refusing to scrub"), "the error must say to keep the creds: {err}");
    assert!(err.contains("404 Not Found"), "{err}");
    let err = probe_restore_capability("http://g:8732", &ReplumbOutcome::NoAnswer("refused".to_owned())).unwrap_err();
    assert_eq!(err, "restore-capability probe GET http://g:8732/v1/restore-creds failed (broker unreachable): refused");
}

#[test]
fn replumb_posts_nonce_and_files_and_succeeds_on_200() {
    assert_eq!(restore_url("http://172.31.0.2:8732"), format!("http://172.31.0.2:8732{RESTORE_CREDS_PATH}"));
    let sent = serde_json::to_string(&restore_body_json(&caps())).unwrap();
    assert!(sent.contains("SECRET-CAP"), "body must carry the cap values");
    let step = replumb_creds(&ReplumbOutcome::Status(200), 0, 5_000, 5_000, 50, 1);
    assert!(matches!(step, ReplumbStep::Done), "200 must succeed");
}

#[test]
fn replumb_fails_fast_on_401() {
    match replumb_creds(&ReplumbOutcome::Status(401), 0, 30_000, 30_000, 50, 1) {
        ReplumbStep::Fail(e) => assert!(e.contains("cold boot"), "actionable error: {e}"),
        other => panic!("{other:?}"),
    }
}

#[test]
fn replumb_waits_for_a_slow_broker_within_budget() {
    let mut now = 0;
    let mut attempt = 1;
    loop {
        let outcome = if now < 400 {
            ReplumbOutcome::NoAnswer("connection refused".to_owned())
        } else {
            ReplumbOutcome::Status(200)
        };
        match replumb_creds(&outcome, now, 10_000, 10_000, 100, attempt) {
            ReplumbStep::Done => break,
            ReplumbStep::Retry(ms) => now += ms,
            ReplumbStep::Fail(e) => panic!("{e}"),
        }
        attempt += 1;
    }
    assert_eq!(now, 400);
}

#[test]
fn replumb_gives_up_honestly_when_broker_never_answers() {
    let mut now = 0;
    let mut attempt = 1;
    let err = loop {
        match replumb_creds(&ReplumbOutcome::NoAnswer("refused".to_owned()), now, 600, 600, 100, attempt) {
            ReplumbStep::Done => panic!("nothing answered"),
            ReplumbStep::Retry(ms) => now += ms,
            ReplumbStep::Fail(e) => break e,
        }
        attempt += 1;
    };
    assert!(now <= 600, "bounded");
    assert!(err.contains("budget"), "honest error: {err}");
    assert!(err.contains("600ms"), "{err}");
    assert!(!err.contains("SECRET-CAP"));
    assert!(!err.contains("AK-SECRET"));
}

#[test]
fn replumb_keeps_trying_a_broken_broker_until_the_deadline() {
    let e = ReplumbOutcome::Status(503);
    assert!(matches!(replumb_creds(&e, 0, REPLUMB_BUDGET, REPLUMB_BUDGET, REPLUMB_POLL, 1), ReplumbStep::Retry(1_000)));
    match replumb_creds(&e, REPLUMB_BUDGET, REPLUMB_BUDGET, REPLUMB_BUDGET, REPLUMB_POLL, 9) {
        ReplumbStep::Fail(m) => assert!(m.contains("503 Service Unavailable") && m.contains("30s"), "{m}"),
        other => panic!("{other:?}"),
    }
}

const GUEST: u32 = 0xA9FE_0002;

#[test]
fn guest_ssh_addr_targets_guest_ip_port_2222() {
    assert_eq!(guest_ssh_addr(GUEST), "169.254.0.2:2222");
    assert_eq!(guest_code_addr(GUEST), "169.254.0.2:8731");
    assert_eq!(guest_broker_ctrl_addr(GUEST), "169.254.0.2:8732");
}

fn host_ok() -> HostFacts {
    HostFacts { kvm: true, wrap: true, rootfs_is_file: true }
}

fn bare_vm() -> FirecrackerRuntime {
    FirecrackerRuntime::launch(host_ok(), "/r.ext4", &rt(false, None), &FcConfig::default()).unwrap()
}

#[test]
fn snapshot_noop_without_cache_dir() {
    assert!(bare_vm().snapshot(true).is_none());
}

#[test]
fn firecracker_fc_linux_health_serving_when_probe_reachable() {
    assert!(matches!(bare_vm().health(None), RuntimeHealth::Serving));
}

#[test]
fn mod_fc_linux_health_serving_when_probe_reachable() {
    let vm = bare_vm();
    assert!(matches!(vm.health(None), RuntimeHealth::Serving));
}

#[test]
fn firecracker_fc_linux_health_unavailable_when_probe_unreachable() {
    assert!(matches!(bare_vm().health(Some("connection refused")), RuntimeHealth::Unavailable(_)));
}

#[test]
fn mod_fc_linux_health_unavailable_when_probe_unreachable() {
    match bare_vm().health(Some("connection refused")) {
        RuntimeHealth::Unavailable(why) => assert!(why.contains("connection refused"), "{why}"),
        other => panic!("{other:?}"),
    }
}

#[test]
fn pre_snapshot_scrub_skips_for_non_workspace() {
    assert!(pre_snapshot_scrub(false, "http://127.0.0.1:1", None).is_ok());
}

#[test]
fn pre_snapshot_scrub_ok_for_workspace_on_200() {
    assert!(pre_snapshot_scrub(true, &scrub_url(GUEST), Some(200)).is_ok());
}

#[test]
fn pre_snapshot_scrub_aborts_for_workspace_on_500() {
    let err = pre_snapshot_scrub(true, &scrub_url(GUEST), Some(500)).unwrap_err();
    assert!(err.contains("500"), "error names the status: {err}");
}

#[test]
fn pre_snapshot_scrub_aborts_for_workspace_when_unreachable() {
    assert!(pre_snapshot_scrub(true, "http://127.0.0.1:1", None).is_err());
}

#[test]
fn wait_for_socket_returns_immediately_when_present() {
    assert_eq!(wait_for_socket_within(true, 0, 30_000), SocketWait::Ready);
}

#[test]
fn wait_for_socket_times_out_with_actionable_error_when_absent() {
    assert_eq!(wait_for_socket_within(false, 0, 60), SocketWait::Sleep);
    assert_eq!(wait_for_socket_within(false, 60, 60), SocketWait::GiveUp);
    let err = socket_missing("/tmp/firecracker-fc-deadbeef.sock");
    assert!(err.contains("never appeared"), "error should name the missing socket: {err}");
    assert!(err.contains("firecracker-fc-deadbeef.sock"));
}

#[test]
fn readiness_backs_off_up_to_the_cap() {
    let mut now = 0;
    let mut backoff = 50;
    let mut seen = Vec::new();
    loop {
        match wait_until_ready(false, now, 30_000, backoff) {
            PollStep::Sleep { ms, next_backoff_ms } => {
                assert!(now + ms <= 30_000);
                seen.push(ms);
                now += ms;
                backoff = next_backoff_ms;
            }
            PollStep::GiveUp => break,
            PollStep::Ready => panic!("nothing answered"),
        }
    }
    assert_eq!(&seen[..4], &[50, 100, 200, 400]);
    assert!(seen.iter().all(|ms| *ms <= READY_BACKOFF_CAP));
    assert!(matches!(wait_until_ready(true, 99_999, 30_000, 50), PollStep::Ready));
}

#[test]
fn a_fitting_snapshot_is_restored_and_a_swap_is_not() {
    let mut pid = PidFile { contents: Some("77".to_owned()) };
    let mut c = seed_snapshot("r1", "e1");
    let s = launch_with_uuid(&mut c, &mut pid, "r1", "e1", false, false, false);
    assert_eq!(s.mode, LaunchMode::Warm);
    assert_eq!(s.stale_pid, Some(77));
    assert!(files_present(&c));
    let s = launch_with_uuid(&mut c, &mut pid, "r1", "e1", true, false, false);
    assert_eq!(s.mode, LaunchMode::Cold);
    assert!(!files_present(&c), "a swap takes the old snapshot away");
}

#[test]
fn stateful_and_nonceless_apps_boot_cold() {
    {
        let mut pid = PidFile { contents: None };
        let mut c = seed_snapshot("r1", "e1");
        let s = launch_with_uuid(&mut c, &mut pid, "r1", "e1", false, true, false);
        assert_eq!(s.mode, LaunchMode::Cold);
        assert_eq!(s.stale_pid, None);
        assert!(!files_present(&c));
    }
    {
        let mut pid = PidFile { contents: None };
        let mut c = seed_snapshot("r1", "e1");
        assert_eq!(launch_with_uuid(&mut c, &mut pid, "r1", "e1", false, false, true).mode, LaunchMode::Cold);
        let mut c = seed_snapshot("r1", "e1");
        write_restore_token(&mut c, "N");
        assert_eq!(launch_with_uuid(&mut c, &mut pid, "r1", "e1", false, false, true).mode, LaunchMode::Warm);
    }
}


#[test]
fn a_cold_snapshot_is_restored_by_the_next_launch_only_if_it_fits() {
    let mut pid = PidFile { contents: None };
    let mut c = CacheDir::new();
    assert!(cold_boot_snapshots(&c, false));
    assert!(!cold_boot_snapshots(&c, true));
    c.vmstate = true;
    c.mem = true;
    stamp_cold_snapshot(&mut c, Some("r1"), Some("e1"));
    assert!(!cold_boot_snapshots(&c, false));
    assert_eq!(launch_with_uuid(&mut c, &mut pid, "r1", "e1", false, false, false).mode, LaunchMode::Warm);
    assert_eq!(launch_with_uuid(&mut c, &mut pid, "r2", "e1", false, false, false).mode, LaunchMode::Cold);
}

#[test]
fn a_failed_warm_start_falls_back_to_a_cold_boot() {
    assert_eq!(launch_next(LaunchMode::Warm, false), LaunchNext::ColdBoot);
    assert_eq!(launch_next(LaunchMode::Warm, true), LaunchNext::Serve);
    assert_eq!(launch_next(LaunchMode::Cold, false), LaunchNext::Fail);
    assert_eq!(vm_key("u", "r:1"), "u:r:1");
}

#[test]
fn consoles_and_exits_are_told() {
    {
        assert!(fc_debug_enabled(Some("1")));
        assert!(!fc_debug_enabled(None));
        assert!(!fc_debug_enabled(Some("0")));
        assert_eq!(console_stdio(true, Some("/l")), Some("/l"));
        assert_eq!(console_stdio(true, None), None);
        assert_eq!(console_stdio(false, Some("/l")), None);
    }
    {
        assert!(watch_for_exit(7, 0).is_none());
        assert!(watch_for_exit(7, 7).is_some());
    }
}

#[test]
fn a_workspace_snapshot_scrubs_before_it_pauses() {
    let mut run = SnapRun::new(true, true);
    let mut seen = Vec::new();
    while run.next != SnapAction::Stop {
        seen.push(run.next);
        run.advance(SnapEvent::Done);
    }
    assert_eq!(
        seen,
        vec![
            SnapAction::Probe,
            SnapAction::Scrub,
            SnapAction::NoteNonce,
            SnapAction::MakeDir,
            SnapAction::Pause,
            SnapAction::Create,
            SnapAction::Resume,
            SnapAction::EnsureResumed,
            SnapAction::Inspect,
            SnapAction::Replumb,
        ]
    );
    assert!(run.files && !run.paused && run.fault.is_none());
}

#[test]
fn failed_snapshots_freeze_nothing_and_resume() {
    {
        let mut run = SnapRun::new(true, true);
        let mut seen = Vec::new();
        while run.next != SnapAction::Stop {
            seen.push(run.next);
            let e = if run.next == SnapAction::Scrub { SnapEvent::Failed } else { SnapEvent::Done };
            run.advance(e);
        }
        assert!(!seen.contains(&SnapAction::Pause) && !seen.contains(&SnapAction::Create));
        assert_eq!(run.fault, Some(SnapFault::Scrub));
    }
    {
        let mut run = SnapRun::new(false, false);
        while run.next != SnapAction::Stop {
            let e = if run.next == SnapAction::Create || run.next == SnapAction::Inspect { SnapEvent::Failed } else { SnapEvent::Done };
            run.advance(e);
        }
        assert!(!run.paused);
        assert_eq!(run.fault, Some(SnapFault::NoFiles));
    }
    for failing in [SnapAction::MakeDir, SnapAction::Pause, SnapAction::Create] {
        let mut run = SnapRun::new(false, false);
        while run.next != SnapAction::Stop {
            let e = if run.next == failing { SnapEvent::Failed } else { SnapEvent::Done };
            run.advance(e);
        }
        assert_eq!(run.fault, Some(SnapFault::NoFiles), "{failing:?} failed, though files of an earlier snapshot are there");
        assert!(!run.files && !run.paused);
    }
}


#[test]
fn snapshots_are_resumed_and_stamped() {
    {
        assert!(matches!(ensure_resumed(Some(204), 0, 60_000), ResumeStep::Running));
        assert!(matches!(ensure_resumed(Some(400), 0, 60_000), ResumeStep::Running));
        assert!(matches!(ensure_resumed(Some(500), 0, 60_000), ResumeStep::Sleep));
        assert!(matches!(ensure_resumed(None, 0, 60_000), ResumeStep::Sleep));
        assert!(matches!(ensure_resumed(None, 60_000, 60_000), ResumeStep::GiveUp));
    }
    {
        let mut c = CacheDir::new();
        assert!(stamp_live_snapshot(&mut c, "/c", true, Some("r"), Some("e")).is_err());
        let mut c = with_files();
        assert!(stamp_live_snapshot(&mut c, "/c", false, Some("r"), Some("e")).is_err());
        assert!(!restore_matches(&c, "r", "e"), "files of an earlier snapshot are not stamped anew");
        assert!(stamp_live_snapshot(&mut c, "/c", true, Some("r"), Some("e")).is_ok());
        assert!(restore_matches(&c, "r", "e"));
    }
}


#[test]
fn a_cold_boot_plans_every_call_in_order() {
    let cfg = FcConfig::default();
    let p = cold_boot(true, true, "/r.ext4", true, &rt(true, Some("/d")), &cfg, 8080, "u:r", Some("/d.ext4"), Some("r"), Some("e"))
        .unwrap();
    let paths: Vec<&str> = p.calls.iter().map(|c| c.path.as_str()).collect();
    assert_eq!(
        paths,
        vec!["/machine-config", "/boot-source", "/drives/rootfs", "/drives/data", "/network-interfaces/eth0", "/actions"]
    );
    assert_eq!(p.host_ip + 1, p.guest_ip);
    assert_eq!(p.spawn.argv[0], "systemd-run");
    assert!(p.guest_base.ends_with(":8080"), "{}", p.guest_base);
    assert_eq!(p.image_ref.as_deref(), Some("r"));
}

#[test]
fn a_boot_without_kvm_or_rootfs_is_refused() {
    let cfg = FcConfig::default();
    let r = rt(false, None);
    assert!(matches!(launch(false, true, "/r", true, &r, &cfg), Err(LaunchFault::NoKvm)));
    let e = launch(true, true, "/r", false, &r, &cfg).unwrap_err();
    assert!(matches!(e, LaunchFault::RootfsMissing(_)));
    assert!(e.message().contains("/r"), "{}", e.message());
    let bad = FcConfig { tap_subnet: "nope".to_owned(), ..FcConfig::default() };
    assert!(matches!(launch(true, true, "/r", true, &r, &bad), Err(LaunchFault::Link(_, _))));
}

#[test]
fn a_warm_start_has_the_link_of_the_cold_boot() {
    let cfg = FcConfig::default();
    let cold = cold_boot(true, false, "/r", true, &rt(false, None), &cfg, 8080, "u:r", None, None, None).unwrap();
    let warm = launch_from_snapshot(true, false, "/c", &with_files(), &cfg, "u:r", 8080).unwrap();
    assert_eq!(warm.tap, cold.tap);
    assert_eq!(warm.api_sock, cold.api_sock);
    assert_eq!(warm.guest_ip, cold.guest_ip);
    assert_eq!(warm.guest_base, cold.guest_base);
    assert_eq!(warm.calls.len(), 1);
    assert_eq!(warm.calls[0].path, "/snapshot/load");
}

#[test]
fn the_build_vm_needs_its_three_images() {
    let cfg = FcConfig::default();
    let spec = BuildVmSpec { rootfs: "/b", scratch: "/s", cache: "/c", console_log: "/l", cfg: &cfg };
    assert!(matches!(run_build_vm(false, true, &spec, true, true, true), Err(LaunchFault::NoBuildKvm)));
    assert!(matches!(run_build_vm(true, true, &spec, true, false, true), Err(LaunchFault::ImageMissing(_, _))));
    let p = run_build_vm(true, true, &spec, true, true, true).unwrap();
    assert_eq!(p.tap, "fc-bld0");
    assert!(p.spawn.argv.contains(&"CPUQuota=200%".to_owned()));
    assert_eq!(BUILD_VM_TIMEOUT, 900);
    let m = p.fault_message(VmKind::Build, VmFault::Timeout, "");
    assert!(m.contains("900"), "{m}");
}

#[test]
fn runs_end_with_a_vm_or_with_nothing() {
    {
        let mut run = VmRun::new(VmKind::Cold, 5, true);
        while run.next != VmAction::Stop {
            let e = if run.next == VmAction::Call(3) { VmEvent::Failed } else { VmEvent::Done };
            run.advance(e);
        }
        assert_eq!(run.fault, Some(VmFault::Call(3)));
        assert!(!run.child && !run.tap);
    }
    {
        let mut run = VmRun::new(VmKind::Warm, 1, false);
        let mut seen = Vec::new();
        while run.next != VmAction::Stop {
            seen.push(run.next);
            run.advance(VmEvent::Done);
        }
        assert!(run.child && run.tap && run.fault.is_none());
        assert!(!seen.contains(&VmAction::SetupNat));
    }
    {
        let mut run = VmRun::new(VmKind::Build, 2, true);
        while run.next != VmAction::Stop {
            let e = if run.next == VmAction::AwaitExit { VmEvent::TimedOut } else { VmEvent::Done };
            run.advance(e);
        }
        assert_eq!(run.fault, Some(VmFault::Timeout));
        assert!(!run.child && !run.tap);
    }
}


#[test]
fn a_launched_vm_knows_its_addresses_and_its_teardown() {
    let mut c = CacheDir::new();
    let mut pid = PidFile { contents: None };
    let (start, vm) = FirecrackerRuntime::launch_with_uuid(
        host_ok(),
        "/r.ext4",
        &rt(false, None),
        &FcConfig::default(),
        Some(80),
        "u",
        "r",
        "/data",
        false,
        true,
        true,
        "e",
        &mut c,
        &mut pid,
    );
    assert_eq!(start.mode, LaunchMode::Cold);
    let vm = vm.unwrap();
    assert!(vm.guest_ssh_addr().unwrap().ends_with(":2222"));
    assert!(vm.guest_code_addr().unwrap().ends_with(":8731"));
    assert!(vm.guest_broker_ctrl_addr().unwrap().ends_with(":8732"));
    assert_eq!(vm.snapshot(true).unwrap().next, SnapAction::Probe);
    assert!(vm.shutdown().contains(&VmAction::DeleteTap));
    assert!(vm.plan.guest_base.ends_with(":8080"), "a workspace has the fixed port: {}", vm.plan.guest_base);
}
