//! Hosting, booting and reverting, fetching and rebooting.
use tabbify_supervisor::boot::{
    after_reboot, after_revert, boot_health_data_dir, candidate_endpoint, candidate_identity_required, candidate_runner_dir,
    check_exit_code, check_refusal, evaluate_gate, is_boot_invocation, revert_to_previous_flow, run_check_mode, run_self_update, spawn_post_restart_watchdog, BootAttempts,
    GateInputs, ProbeOutcome, RevertFlowOutcome, RevertStep, SelfUpdateEnd, VersionFile, HEALTH_PATH, LIVENESS_PATH, NO_PREVIOUS,
    PERFORMED, REBOOT_PARKED,
};
use tabbify_supervisor::fetcher::{judge_status, latest_version, FetchAction, FetchError, FetchRun, S3Fetcher};
use tabbify_supervisor::host::{
    control_endpoint, error_json, host_fault, serve_failure, AppHost, Endpoint, HostBind, HostStep, HostedApp, IpAddress, ServeFault,
};
use tabbify_supervisor::manifest::{
    default_entry, default_fuel, default_idle, default_kind, default_mem, default_rt, AppManifest, AppMeta, Lifecycle, LifecycleMode,
    Routes, Runtime,
};
use tabbify_supervisor::mesh_command::reboot_guard::{reboot_granted, RebootGuard, RebootHistory, MAX_PER_WINDOW, WINDOW_SECS};
use tabbify_supervisor::mesh_command::sink::{reboot_history_path, SupervisorCommandSink};

#[test]
fn check_mode_without_candidate_identity_requires_failing_closed() {
    assert!(candidate_identity_required(true, false));
}

#[test]
fn check_mode_with_candidate_identity_is_allowed() {
    assert!(!candidate_identity_required(true, true));
}

#[test]
fn non_check_mode_never_requires_failing_closed() {
    assert!(!candidate_identity_required(false, false));
    assert!(!candidate_identity_required(false, true));
}

fn v2_over(previous: &[&str]) -> VersionFile {
    VersionFile {
        current: "v2.0.0".into(),
        previous: previous.iter().map(|s| (*s).to_owned()).collect(),
        pending_confirm: None,
        quarantine: Vec::new(),
    }
}

/// Runs the revert flow over a ledger: a revert rolls back to the newest
/// previous version, and fails where there is none.
fn drive_revert(
    ledger: VersionFile,
    attempts: &mut BootAttempts,
    reboot_on_exhausted: bool,
    granted: bool,
) -> (RevertFlowOutcome, VersionFile, bool) {
    let mut ledger = Some(ledger);
    let mut asked_reboot = false;
    let mut step = revert_to_previous_flow(reboot_on_exhausted, attempts);
    loop {
        step = match step {
            RevertStep::Finish(outcome) => return (outcome, ledger.unwrap(), asked_reboot),
            RevertStep::Reboot => {
                asked_reboot = true;
                RevertStep::Finish(after_reboot(granted))
            }
            RevertStep::Revert => {
                let before = ledger.as_ref().unwrap().current.clone();
                let target = match ledger.as_mut().unwrap().previous.pop() {
                    Some(p) => {
                        ledger.as_mut().unwrap().current = p.clone();
                        Ok(p)
                    }
                    None => Err("no previous-good release".to_owned()),
                };
                let told = match &target {
                    Ok(v) => Ok(v.as_str()),
                    Err(e) => Err(e.as_str()),
                };
                after_revert(told, Some(&before), reboot_on_exhausted, &mut ledger, attempts)
            }
        }
    }
}

#[test]
fn revert_flow_rolls_back_quarantines_and_marks_reverted() {
    let mut ba = BootAttempts::new();
    ba.count = 4;
    let (outcome, vf, rebooted) = drive_revert(v2_over(&["v1.0.0"]), &mut ba, false, false);
    assert_eq!(outcome, RevertFlowOutcome::Performed("v1.0.0".to_owned()));
    assert_eq!(outcome.exit_code(), PERFORMED);
    assert!(!rebooted, "reboot must NOT fire when a revert succeeds");
    assert_eq!(vf.current, "v1.0.0");
    assert_eq!(vf.quarantine, vec!["v2.0.0".to_owned()], "the reverted-from version must be quarantined");
    assert_eq!(ba.count, 0);
    assert_eq!(ba.reverted_to.as_deref(), Some("v1.0.0"));
}

#[test]
fn revert_flow_no_previous_is_graceful_without_reboot() {
    let mut ba = BootAttempts::new();
    let (outcome, vf, rebooted) = drive_revert(v2_over(&[]), &mut ba, false, false);
    assert_eq!(outcome, RevertFlowOutcome::NoPrevious);
    assert_eq!(outcome.exit_code(), NO_PREVIOUS);
    assert!(!rebooted);
    assert_eq!(vf.current, "v2.0.0");
    assert!(vf.quarantine.is_empty());
}

#[test]
fn revert_flow_no_previous_reboots_when_exhausted_flag_set() {
    let mut ba = BootAttempts::new();
    let (outcome, _, rebooted) = drive_revert(v2_over(&[]), &mut ba, true, true);
    assert_eq!(outcome, RevertFlowOutcome::Rebooted);
    assert_eq!(outcome.exit_code(), PERFORMED);
    assert!(rebooted, "the reboot must fire on exhausted+flag");
}

#[test]
fn revert_flow_no_previous_parks_when_reboot_guard_exhausted() {
    let mut ba = BootAttempts::new();
    let (outcome, _, _) = drive_revert(v2_over(&[]), &mut ba, true, false);
    assert_eq!(outcome, RevertFlowOutcome::RebootParked);
    assert_eq!(outcome.exit_code(), REBOOT_PARKED);
    assert!(reboot_granted(true, true));
    assert!(!reboot_granted(true, false) && !reboot_granted(false, true));
}

#[test]
fn revert_flow_reboots_when_already_reverted_even_with_previous_present() {
    let mut ba = BootAttempts::new();
    ba.mark_reverted("v2.0.0");
    let (outcome, vf, rebooted) = drive_revert(v2_over(&["v1.0.0"]), &mut ba, true, true);
    assert_eq!(outcome, RevertFlowOutcome::Rebooted, "already reverted: reboot, not a deeper revert");
    assert_eq!(outcome.exit_code(), PERFORMED);
    assert!(rebooted, "the reboot must fire when already reverted");
    assert_eq!(vf.current, "v2.0.0", "VERSION must stay at v2");
    assert_eq!(vf.previous, vec!["v1.0.0".to_owned()]);
    assert!(vf.quarantine.is_empty(), "no new quarantine on a reboot-only path");
}

#[test]
fn revert_flow_parks_when_already_reverted_and_guard_exhausted() {
    let mut ba = BootAttempts::new();
    ba.mark_reverted("v2.0.0");
    let (outcome, vf, _) = drive_revert(v2_over(&["v1.0.0"]), &mut ba, true, false);
    assert_eq!(outcome, RevertFlowOutcome::RebootParked);
    assert_eq!(outcome.exit_code(), REBOOT_PARKED);
    assert_eq!(vf.current, "v2.0.0", "no deeper revert even when parked");
}

#[test]
fn revert_flow_still_reverts_when_already_reverted_but_no_reboot_flag() {
    let mut ba = BootAttempts::new();
    ba.mark_reverted("v2.0.0");
    let (outcome, vf, rebooted) = drive_revert(v2_over(&["v1.0.0"]), &mut ba, false, true);
    assert_eq!(outcome, RevertFlowOutcome::Performed("v1.0.0".to_owned()));
    assert!(!rebooted);
    assert_eq!(vf.current, "v1.0.0", "without the reboot flag, a deeper revert still happens");
}

fn args(a: &[&str]) -> Vec<String> {
    a.iter().map(|s| (*s).to_owned()).collect()
}

#[test]
fn bare_daemon_boot_is_a_boot_invocation() {
    assert!(is_boot_invocation(&args(&[])));
    assert!(is_boot_invocation(&args(&["--data-dir", "/var/lib/tabbify"])));
    assert!(is_boot_invocation(&args(&["--relay-only"])));
}

#[test]
fn self_update_is_not_a_boot_invocation() {
    assert!(!is_boot_invocation(&args(&["self-update", "--to", "v1.4.0"])));
}

#[test]
fn revert_to_previous_is_not_a_boot_invocation() {
    assert!(!is_boot_invocation(&args(&["revert-to-previous"])));
    assert!(!is_boot_invocation(&args(&["revert-to-previous", "--reboot-on-exhausted"])));
}

#[test]
fn check_candidate_is_not_a_boot_invocation() {
    assert!(!is_boot_invocation(&args(&["--check", "--candidate-identity-path", "/tmp/id.json"])));
}

#[test]
fn liveness_probe_is_a_distinct_route_from_health() {
    assert_eq!(HEALTH_PATH, "/health");
    assert_eq!(LIVENESS_PATH, "/v1/about");
    assert_ne!(HEALTH_PATH, LIVENESS_PATH, "gate part 3 must exercise a different route than part 2");
}

#[test]
fn a_candidate_passes_only_with_every_signal() {
    let all = GateInputs { launched: true, health_200: true, pong: true, elapsed_secs: 3 };
    assert!(matches!(evaluate_gate(all, 30), ProbeOutcome::Pass));
    assert_eq!(check_exit_code(&evaluate_gate(all, 30)), 0);
    assert!(matches!(evaluate_gate(all, 2), ProbeOutcome::Fail(_)));
    let judged = run_check_mode(true, true, None, true, Some((true, true)), 3, 30);
    assert_eq!(check_exit_code(&judged), 0);
    let why = |o: ProbeOutcome| match o {
        ProbeOutcome::Fail(why) => why,
        ProbeOutcome::Pass => panic!("must fail"),
    };
    assert_eq!(why(run_check_mode(true, true, None, true, Some((true, false)), 3, 30)), "candidate liveness check failed");
    assert_eq!(why(run_check_mode(true, true, None, false, Some((true, true)), 1, 30)), "candidate did not launch");
    assert!(why(run_check_mode(true, false, Some("read-only"), true, Some((true, true)), 3, 30)).contains("--candidate-identity-path"));
    assert_eq!(why(run_check_mode(true, true, Some("read-only"), true, Some((true, true)), 3, 30)), "candidate runner dir: read-only");
    assert_eq!(candidate_endpoint(), Endpoint { ip: IpAddress::V4(0x7F00_0001), port: 0 });
    assert_eq!(candidate_runner_dir("/d"), "/d/candidate-runners");
    assert!(check_refusal(true, false, None).is_some());
    assert!(check_refusal(true, true, None).is_none());
    assert!(check_refusal(true, true, Some("read-only")).unwrap().contains("read-only"));
}

#[test]
fn ends_have_their_codes() {
    {
        assert_eq!(run_self_update(SelfUpdateEnd::AlreadyCurrent), 0);
        assert_eq!(run_self_update(SelfUpdateEnd::Swapped), 0);
        assert_ne!(run_self_update(SelfUpdateEnd::Failed), 0);
        assert!(spawn_post_restart_watchdog(None, true).is_none());
        assert_eq!(spawn_post_restart_watchdog(Some("v3"), true).unwrap().pending, "v3");
        assert_eq!(boot_health_data_dir(Some("/d")), "/d");
    }
    {
        assert_eq!(RevertFlowOutcome::Failed("x".to_owned()).exit_code(), 3);
        assert_eq!(RevertFlowOutcome::Rebooted.exit_code(), 0);
    }
}


const APP_ULA: u128 = 0xfd5a_1f02_dead_beef_cafe_0000_0000_0001;
const LOOPBACK: IpAddress = IpAddress::V6(1);

#[test]
fn host_routes_the_derived_app_ula_through_the_joiner() {
    let host = AppHost { mesh: true, bind: HostBind::Loopback(LOOPBACK) };
    assert_eq!(host.host(APP_ULA), HostStep::Route(APP_ULA));
    let bind = host.host_next(APP_ULA, HostStep::Route(APP_ULA), true);
    assert_eq!(bind, HostStep::Bind(Endpoint { ip: LOOPBACK, port: 0 }));
    assert_eq!(host.host_next(APP_ULA, bind, true), HostStep::Serve);
    assert_eq!(host.host_next(APP_ULA, HostStep::Route(APP_ULA), false), HostStep::Failed);
    assert_eq!(host_fault(HostStep::Route(APP_ULA), "fd5a::1", "no route"), "joiner host_app_ula(fd5a::1): no route");
    assert_eq!(host_fault(bind, "[::1]:0", "in use"), "bind per-app listener [::1]:0: in use");
}

#[test]
fn unhost_calls_joiner_unhost_and_aborts_listener() {
    let host = AppHost { mesh: true, bind: HostBind::Loopback(LOOPBACK) };
    let hosted = HostedApp { app_ula: APP_ULA, addr: Endpoint { ip: LOOPBACK, port: 40001 } };
    assert_eq!(host.unhost(&hosted), Some(APP_ULA), "the app-ULA is given back to the joiner");
    assert_eq!(AppHost::loopback().unhost(&hosted), None);
}

#[test]
fn loopback_host_serves_wasm_without_a_joiner() {
    let host = AppHost::loopback();
    assert!(!host.is_mesh());
    assert!(matches!(host.host(APP_ULA), HostStep::Bind(_)), "no route is asked for");
}

#[test]
fn listeners_bind_where_they_should() {
    {
        assert_eq!(AppHost::mesh(8730).bind_addr_for(APP_ULA), Endpoint { ip: IpAddress::V6(APP_ULA), port: 8730 });
        assert_eq!(AppHost::mesh_self(APP_ULA, 8730).bind_addr_for(APP_ULA), Endpoint { ip: IpAddress::V6(APP_ULA), port: 8730 });
        let on = AppHost::loopback_on(IpAddress::V4(0x7F00_0001));
        assert_eq!(on.bind_addr_for(APP_ULA), Endpoint { ip: IpAddress::V4(0x7F00_0001), port: 0 });
        assert!(AppHost::mesh(1).is_mesh());
    }
    {
        assert_eq!(control_endpoint(false, None, APP_ULA, 8730), Endpoint { ip: IpAddress::V6(APP_ULA), port: 8730 });
        assert_eq!(
            control_endpoint(true, None, APP_ULA, 8730),
            Endpoint { ip: IpAddress::V4(0x7F00_0001), port: 8730 },
            "without a mesh the control API stays on loopback"
        );
        let b = Endpoint { ip: IpAddress::V4(0x7F00_0001), port: 9 };
        assert_eq!(control_endpoint(true, Some(b), APP_ULA, 8730), b);
    }
}

#[test]
fn failures_to_serve_are_told_as_json() {
    assert_eq!(error_json("boom")["error"], "boom");
    let (status, body) = serve_failure(&ServeFault::Runtime("guest gone".to_owned()));
    assert_eq!(status, 500);
    assert!(body["error"].as_str().unwrap().contains("guest gone"));
    assert_eq!(serve_failure(&ServeFault::Body("too big".to_owned())).0, 400);
    assert_eq!(serve_failure(&ServeFault::Response).0, 500);
}

#[test]
fn allows_up_to_max_then_parks() {
    let mut g = RebootGuard::new("/d/reboots.json".to_owned(), RebootHistory::default());
    let t = 1_000_000;
    for _ in 0..MAX_PER_WINDOW {
        assert!(g.try_reboot(t), "within-limit reboot must be allowed");
    }
    assert!(!g.try_reboot(t), "the {MAX_PER_WINDOW}+1-th reboot must be parked");
}

#[test]
fn window_rolls_off_old_reboots() {
    let mut g = RebootGuard::new("/d/reboots.json".to_owned(), RebootHistory::default());
    let t0 = 1_000_000;
    for _ in 0..MAX_PER_WINDOW {
        assert!(g.try_reboot(t0));
    }
    let kept = g.history.reboots.clone();
    assert!(!g.try_reboot(t0), "parked at the limit");
    assert_eq!(g.history.reboots, kept, "a refusal takes no slot");
    let later = t0 + WINDOW_SECS + 1;
    assert!(g.try_reboot(later), "after the window the guard allows again");
}

#[test]
fn guard_survives_reload() {
    let mut kept = RebootHistory::default();
    let t = 5_000_000;
    for _ in 0..MAX_PER_WINDOW {
        let mut g = RebootGuard::new("/d/reboots.json".to_owned(), kept);
        assert!(g.try_reboot(t));
        kept = g.history;
    }
    let mut g = RebootGuard::new("/d/reboots.json".to_owned(), kept);
    assert!(!g.try_reboot(t));
}

#[test]
fn reboot_guard_parks_after_limit() {
    let mut guard = RebootGuard::new(reboot_history_path("/data"), RebootHistory::default());
    let t = 42;
    assert!(guard.try_reboot(t));
    assert!(guard.try_reboot(t));
    assert!(guard.try_reboot(t));
    assert!(!guard.try_reboot(t), "sink's guard must park the 4th reboot");
}

#[test]
fn the_sink_restarts_its_unit_and_reboots_within_bounds() {
    let mut sink = SupervisorCommandSink::new("/data", "tabbify-supervisor", RebootHistory::default());
    assert!(sink.restart_joiner().contains(&"tabbify-supervisor".to_owned()));
    for _ in 0..3 {
        assert_eq!(sink.reboot_host(42), Some(vec!["reboot".to_owned()]));
    }
    assert_eq!(sink.reboot_host(42), None);
}

fn manifest(entry: &str, runtime_type: &str) -> AppManifest {
    AppManifest {
        app: AppMeta {
            id: None,
            name: "hello".to_owned(),
            version: "1".to_owned(),
            kind: default_kind(),
            description: String::new(),
        },
        lifecycle: Lifecycle { mode: LifecycleMode::OnRequest, idle_timeout_sec: default_idle() },
        runtime: Runtime {
            runtime_type: runtime_type.to_owned(),
            entry: entry.to_owned(),
            fuel_per_request: default_fuel(),
            memory_mb: default_mem(),
            vcpus: None,
            port: None,
            kernel: None,
            registry_ref: None,
            stateful: false,
            data_mount: None,
        },
        routes: Routes { dynamic_prefixes: Vec::new() },
    }
}

#[test]
fn defaults_and_versions_are_read() {
    {
        assert_eq!(default_rt(), "wasm-http");
        assert_eq!(default_entry(), "app.wasm");
        assert_eq!(default_fuel(), 1_000_000_000);
        assert_eq!(default_mem(), 64);
    }
    {
        assert_eq!(latest_version("7\n").unwrap(), 7);
        let e = latest_version("seven").unwrap_err();
        assert!(matches!(e, FetchError::BadLatest(_, _)));
        assert!(e.message().contains("invalid digit found in string"), "{}", e.message());
        assert!(judge_status(200, "u").is_ok());
        assert!(matches!(judge_status(404, "u"), Err(FetchError::NotFound(_))));
        let e = judge_status(503, "u").unwrap_err();
        assert!(e.message().contains("503"), "{}", e.message());
    }
}

#[test]
fn objects_are_fetched_from_and_kept_under_their_version() {
    let f = S3Fetcher::new("http://s3/bucket/", "/data");
    assert_eq!(f.cache_dir("u", 7), "/data/apps/u/v7");
    assert_eq!(f.latest_url("u"), "http://s3/bucket/apps/u/latest");
    assert_eq!(f.object_url("u", 7, "app.wasm"), "http://s3/bucket/apps/u/v7/app.wasm");
    let plan = f.fetch_version("u", 7);
    assert!(plan.manifest_path.starts_with(&plan.dir));
    let e = f.fetch_entry("u", 7, &manifest("app.wasm", "wasm-http"));
    assert!(e.in_memory);
    assert!(e.url.ends_with("app.wasm"));
}

#[test]
fn an_unkept_version_is_fetched_in_order() {
    let mut run = FetchRun::new(false);
    let mut seen = Vec::new();
    while run.next != FetchAction::Stop {
        seen.push(run.next);
        let there = run.next != FetchAction::FindEntry;
        run.advance(there, true);
    }
    assert_eq!(seen[0], FetchAction::GetManifest);
    assert!(seen.contains(&FetchAction::GetEntry));
    assert!(run.parsed && run.entry && !run.failed);
    let mut run = FetchRun::new(false);
    run.advance(false, true);
    assert!(run.failed);
    assert_eq!(run.next, FetchAction::Stop);
    let mut again = FetchRun::new(true);
    let mut seen = Vec::new();
    while again.next != FetchAction::Stop {
        seen.push(again.next);
        again.advance(true, true);
    }
    assert_eq!(
        seen,
        vec![FetchAction::LoadManifest, FetchAction::ParseManifest, FetchAction::FindEntry, FetchAction::LoadEntry],
        "a version that is kept is not asked for"
    );
    let f = S3Fetcher::new("http://s3/bucket", "/d");
    let app = f.fetched("u", 7, manifest("app.wasm", "wasm-http"), vec![1, 2]);
    assert_eq!((app.version, app.cached_path.as_str(), app.wasm), (7, "/d/apps/u/v7/app.wasm", vec![1, 2]));
    assert!(f.fetched("u", 7, manifest("rootfs.ext4", "firecracker"), vec![1, 2]).wasm.is_empty());
}
