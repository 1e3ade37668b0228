//! The API bodies, status lines, identities, ports and scopes of microVMs.
use tabbify_supervisor::config::FcConfig;
use tabbify_supervisor::firecracker::cpu_scope::{
    host_has_systemd, scope_name, should_wrap, spawn_plan, systemd_run_argv, CpuScopeCfg, FcKind, FC_SLICE,
};
use tabbify_supervisor::firecracker::headers::{copy_filtered_headers, try_copy_filtered_headers};
use tabbify_supervisor::firecracker::identity::{
    api_sock_for_tap, digest_hash48, fc_api_sock_for_key, fc_identity_for_key, slot_of_digest, tap_name_of_digest, BUILD_TAP_NAME,
};
use tabbify_supervisor::firecracker::pidfile::{
    console_log_path, kill_stale_if_alive, parse_firecracker_api_sock, path, process_is_alive, read, remove, take, PidFile,
};
use tabbify_supervisor::firecracker::port_plan::{resolve_port_plan, PortPlan, PortProbe, ProbeAction, ProbeEvent};
use tabbify_supervisor::firecracker::protocol::{
    api_status_ok, aux_drive_body, boot_source_body, frame_request, head_read_done, instance_start_body, judge_api_call, is_hop_by_hop,
    kvm_available_with, machine_config_body, network_iface_body, parse_status_line, pause_body, proxy_url, request_head,
    resolve_kernel, resolve_port, resolve_vcpus, resume_body, rootfs_drive_body, snapshot_create_body, snapshot_load_body,
    workspace_or_resolved_port, StatusError,
};
use tabbify_supervisor::firecracker::subnet::{BUILD_SEQ, SERVING_LINK_SLOTS};
use tabbify_supervisor::manifest::Runtime;

fn fc_runtime(vcpus: Option<u32>) -> Runtime {
    Runtime {
        runtime_type: "firecracker".to_owned(),
        entry: "rootfs.ext4".to_owned(),
        fuel_per_request: 0,
        memory_mb: 1536,
        vcpus,
        port: None,
        kernel: None,
        registry_ref: None,
        stateful: false,
        data_mount: None,
    }
}

#[test]
fn firecracker_kvm_gate_reflects_the_injected_probe() {
    assert!(kvm_available_with(|| true));
    assert!(!kvm_available_with(|| false));
}

#[test]
fn mod_kvm_gate_reflects_the_injected_probe() {
    let yes = || true;
    let no = || false;
    assert!(kvm_available_with(yes));
    assert!(!kvm_available_with(no));
}

#[test]
fn firecracker_machine_config_body_carries_vcpus_and_mem() {
    let b = machine_config_body(2, 512);
    assert_eq!(b["vcpu_count"], 2);
    assert_eq!(b["mem_size_mib"], 512);
    assert_eq!(b["smt"], false);
}

#[test]
fn mod_machine_config_body_carries_vcpus_and_mem() {
    let b = machine_config_body(2, 512);
    assert_eq!(b["vcpu_count"], 2);
    assert_eq!(b["mem_size_mib"], 512);
    assert_eq!(b["smt"], false);
    assert_eq!(b.as_object().unwrap().len(), 3);
}

#[test]
fn resolve_vcpus_prefers_manifest_override_over_config_default() {
    let cfg = FcConfig::default();
    let rt = fc_runtime(Some(2));
    assert_eq!(resolve_vcpus(&rt, &cfg), 2);
}

#[test]
fn resolve_vcpus_falls_back_to_config_default_when_absent() {
    let cfg = FcConfig { vcpus: 4, ..FcConfig::default() };
    let rt = fc_runtime(None);
    assert_eq!(resolve_vcpus(&rt, &cfg), 4);
}

#[test]
fn machine_config_uses_resolved_manifest_vcpus() {
    let cfg = FcConfig::default();
    let rt = fc_runtime(Some(2));
    let b = machine_config_body(resolve_vcpus(&rt, &cfg), rt.memory_mb);
    assert_eq!(b["vcpu_count"], 2);
    assert_eq!(b["mem_size_mib"], 1536);
}

#[test]
fn resolve_port_prefers_manifest_override_over_all() {
    let cfg = FcConfig::default();
    let mut rt = fc_runtime(None);
    rt.port = Some(8788);
    assert_eq!(resolve_port(&rt, Some(80), &cfg), 8788);
}

#[test]
fn resolve_port_uses_image_exposed_port_when_no_manifest_override() {
    let cfg = FcConfig::default();
    let rt = fc_runtime(None);
    assert_eq!(resolve_port(&rt, Some(80), &cfg), 80);
}

#[test]
fn resolve_port_falls_back_to_config_default_when_absent() {
    let cfg = FcConfig::default();
    let rt = fc_runtime(None);
    assert_eq!(resolve_port(&rt, None, &cfg), 8080);
}

#[test]
fn workspace_or_resolved_port_forces_fixed_app_port_for_workspace() {
    let cfg = FcConfig::default();
    let mut rt = fc_runtime(None);
    rt.port = Some(9999);
    assert_eq!(workspace_or_resolved_port(true, &rt, Some(2222), &cfg), 8080);
}

#[test]
fn workspace_or_resolved_port_preserves_app_precedence() {
    let cfg = FcConfig::default();
    let mut rt = fc_runtime(None);
    rt.port = Some(8788);
    assert_eq!(workspace_or_resolved_port(false, &rt, Some(80), &cfg), 8788);
    let rt = fc_runtime(None);
    assert_eq!(workspace_or_resolved_port(false, &rt, Some(80), &cfg), 80);
    assert_eq!(workspace_or_resolved_port(false, &rt, None, &cfg), 8080);
}

#[test]
fn a_manifest_kernel_wins_over_the_configured_one() {
    let cfg = FcConfig::default();
    let mut rt = fc_runtime(None);
    assert_eq!(resolve_kernel(&rt, &cfg), "/opt/tabbify/vmlinux");
    rt.kernel = Some("/k".to_owned());
    assert_eq!(resolve_kernel(&rt, &cfg), "/k");
}

#[test]
fn firecracker_boot_source_body_has_kernel_and_ip_boot_arg() {
    let b = boot_source_body("/opt/tabbify/vmlinux", "172.31.0.2", "172.31.0.1");
    assert_eq!(b["kernel_image_path"], "/opt/tabbify/vmlinux");
    let args = b["boot_args"].as_str().unwrap();
    assert!(args.contains("ip=172.31.0.2::172.31.0.1:255.255.255.252::eth0:off"));
    assert!(args.contains("console=ttyS0"));
}

#[test]
fn mod_boot_source_body_has_kernel_and_ip_boot_arg() {
    let b = boot_source_body("/opt/tabbify/vmlinux", "172.31.0.2", "172.31.0.1");
    assert_eq!(b["kernel_image_path"], "/opt/tabbify/vmlinux");
    let args = b["boot_args"].as_str().unwrap();
    assert!(args.contains("ip=172.31.0.2::172.31.0.1:255.255.255.252::eth0:off"));
    assert!(args.contains("console=ttyS0"));
    assert!(args.contains("root=/dev/vda rw"));
    assert!(args.contains("init=/init"));
}

#[test]
fn boot_source_body_never_disables_acpi() {
    for (kernel, guest, host) in [
        ("/opt/tabbify/vmlinux", "172.31.0.2", "172.31.0.1"),
        ("/opt/tabbify/vmlinux-6.1.128", "10.0.0.2", "10.0.0.1"),
        ("", "192.168.255.2", "192.168.255.1"),
    ] {
        let b = boot_source_body(kernel, guest, host);
        let args = b["boot_args"].as_str().unwrap();
        assert!(!args.contains("acpi=off"), "must never emit acpi=off: got {args:?}");
        assert!(args.contains("pci=off"), "pci=off expected: {args:?}");
        assert!(args.contains("console=ttyS0"), "console=ttyS0 expected: {args:?}");
    }
}

#[test]
fn firecracker_rootfs_drive_body_is_root_and_writable() {
    let b = rootfs_drive_body("/var/lib/tabbify/rootfs.ext4", false);
    assert_eq!(b["drive_id"], "rootfs");
    assert_eq!(b["path_on_host"], "/var/lib/tabbify/rootfs.ext4");
    assert_eq!(b["is_root_device"], true);
    assert_eq!(b["is_read_only"], false);
}

#[test]
fn mod_rootfs_drive_body_is_root_and_writable() {
    let b = rootfs_drive_body("/var/lib/tabbify/rootfs.ext4", false);
    assert_eq!(b["drive_id"], "rootfs");
    assert_eq!(b["path_on_host"], "/var/lib/tabbify/rootfs.ext4");
    assert_eq!(b["is_root_device"], true);
    assert_eq!(b["is_read_only"], false);
    assert_eq!(rootfs_drive_body("/r", true)["is_read_only"], true);
}

#[test]
fn aux_drive_body_for_data_disk_is_nonroot_writable() {
    let b = aux_drive_body("data", "/x/data.ext4", false);
    assert_eq!(b["drive_id"], "data");
    assert_eq!(b["path_on_host"], "/x/data.ext4");
    assert_eq!(b["is_root_device"], false);
    assert_eq!(b["is_read_only"], false);
}

#[test]
fn firecracker_network_iface_body_binds_tap_to_eth0() {
    let b = network_iface_body("fc-tap0", "02:FC:00:00:00:00");
    assert_eq!(b["iface_id"], "eth0");
    assert_eq!(b["host_dev_name"], "fc-tap0");
    assert_eq!(b["guest_mac"], "02:FC:00:00:00:00");
}

#[test]
fn mod_network_iface_body_binds_tap_to_eth0() {
    let b = network_iface_body("fc-tap0", "02:FC:00:00:00:00");
    assert_eq!(b["iface_id"], "eth0");
    assert_eq!(b["host_dev_name"], "fc-tap0");
    assert_eq!(b["guest_mac"], "02:FC:00:00:00:00");
    assert_eq!(b.as_object().unwrap().len(), 3);
}

#[test]
fn firecracker_instance_start_body_is_instance_start() {
    assert_eq!(instance_start_body()["action_type"], "InstanceStart");
}

#[test]
fn mod_instance_start_body_is_instance_start() {
    let b = instance_start_body();
    assert_eq!(b["action_type"], "InstanceStart");
    assert_eq!(b.as_object().unwrap().len(), 1);
}

#[test]
fn pause_body_has_paused_state() {
    let b = pause_body();
    assert_eq!(b["state"], "Paused");
}

#[test]
fn resume_body_has_resumed_state() {
    let b = resume_body();
    assert_eq!(b["state"], "Resumed");
}

#[test]
fn snapshot_create_body_has_full_type_and_paths() {
    let b = snapshot_create_body("/data/apps/abc/cache/snap.vmstate", "/data/apps/abc/cache/snap.mem");
    assert_eq!(b["snapshot_type"], "Full");
    assert_eq!(b["snapshot_path"], "/data/apps/abc/cache/snap.vmstate");
    assert_eq!(b["mem_file_path"], "/data/apps/abc/cache/snap.mem");
    assert_eq!(b["snapshot_type"].as_str().unwrap(), "Full");
}

#[test]
fn snapshot_load_body_resume_true_sets_resume_vm() {
    let b = snapshot_load_body("/data/apps/abc/cache/snap.vmstate", "/data/apps/abc/cache/snap.mem", true);
    assert_eq!(b["snapshot_path"], "/data/apps/abc/cache/snap.vmstate");
    assert_eq!(b["mem_backend"]["backend_path"], "/data/apps/abc/cache/snap.mem");
    assert_eq!(b["mem_backend"]["backend_type"], "File");
    assert_eq!(b["resume_vm"], true);
}

#[test]
fn snapshot_load_body_resume_false_does_not_resume() {
    let b = snapshot_load_body("/snap.vmstate", "/snap.mem", false);
    assert_eq!(b["resume_vm"], false);
    assert_eq!(b["mem_backend"]["backend_type"], "File");
}

#[test]
fn firecracker_hop_by_hop_detection_is_case_insensitive() {
    assert!(is_hop_by_hop("Connection"));
    assert!(is_hop_by_hop("transfer-encoding"));
    assert!(is_hop_by_hop("HOST"));
    assert!(!is_hop_by_hop("content-type"));
    assert!(!is_hop_by_hop("x-app-header"));
}

#[test]
fn mod_hop_by_hop_detection_is_case_insensitive() {
    for name in ["Connection", "transfer-encoding", "HOST"] {
        assert!(is_hop_by_hop(name), "{name}");
    }
    for name in ["content-type", "x-app-header"] {
        assert!(!is_hop_by_hop(name), "{name}");
    }
}

fn some_headers() -> http::HeaderMap {
    let mut src = http::HeaderMap::new();
    src.insert("content-type", "application/json".parse().unwrap());
    src.insert("connection", "keep-alive".parse().unwrap());
    src.insert("host", "guest.local".parse().unwrap());
    src.insert("x-custom", "abc".parse().unwrap());
    src
}

#[test]
fn firecracker_copy_filtered_headers_drops_hop_by_hop_keeps_the_rest() {
    let src = some_headers();
    let mut dst = http::HeaderMap::new();
    copy_filtered_headers(&src, &mut dst);

    assert_eq!(dst.get("content-type").unwrap(), "application/json");
    assert_eq!(dst.get("x-custom").unwrap(), "abc");
    assert!(dst.get("connection").is_none());
    assert!(dst.get("host").is_none());
}

#[test]
fn mod_copy_filtered_headers_drops_hop_by_hop_keeps_the_rest() {
    let src = some_headers();
    let mut dst = http::HeaderMap::new();
    assert!(try_copy_filtered_headers(&src, &mut dst));

    assert_eq!(dst.get("content-type").unwrap(), "application/json");
    assert_eq!(dst.get("x-custom").unwrap(), "abc");
    assert!(dst.get("connection").is_none());
    assert!(dst.get("host").is_none());
}

#[test]
fn copied_headers_keep_repeats_and_their_order() {
    let mut src = http::HeaderMap::new();
    src.append("set-cookie", "a=1".parse().unwrap());
    src.append("set-cookie", "b=2".parse().unwrap());
    let mut dst = http::HeaderMap::new();
    dst.append("set-cookie", "z=0".parse().unwrap());
    assert!(try_copy_filtered_headers(&src, &mut dst));
    let all: Vec<&str> = dst.get_all("set-cookie").iter().map(|v| v.to_str().unwrap()).collect();
    assert_eq!(all, vec!["z=0", "a=1", "b=2"]);
}

#[test]
fn firecracker_parses_firecracker_status_line() {
    assert_eq!(parse_status_line(b"HTTP/1.1 204 No Content\r\n\r\n").unwrap(), 204);
    assert_eq!(parse_status_line(b"HTTP/1.1 400 Bad Request\r\n\r\n{\"x\":1}").unwrap(), 400);
}

#[test]
fn mod_parses_firecracker_status_line() {
    let no_content = parse_status_line(b"HTTP/1.1 204 No Content\r\n\r\n");
    assert_eq!(no_content.unwrap(), 204);
    let bad = parse_status_line(b"HTTP/1.1 400 Bad Request\r\n\r\n{\"x\":1}");
    assert_eq!(bad.unwrap(), 400);
}

#[test]
fn bad_status_lines_say_what_is_wrong() {
    assert!(matches!(parse_status_line(b""), Err(StatusError::Empty)));
    assert!(matches!(parse_status_line(b"HTTP/1.1\r\n"), Err(StatusError::Malformed(_))));
    let e = parse_status_line(b"HTTP/1.1 2x4 No\r\n").unwrap_err();
    assert!(matches!(e, StatusError::BadCode(_, _)));
    assert!(e.message().contains("invalid digit found in string"), "{}", e.message());
    assert!(StatusError::Empty.message().contains("empty"), "{}", StatusError::Empty.message());
}

/// Feeds the chunks to the reader until it is done, and parses what it kept.
fn read_head(chunks: &[&[u8]]) -> Option<u16> {
    let mut buf: Vec<u8> = Vec::new();
    for c in chunks {
        if head_read_done(&mut buf, c) {
            return parse_status_line(&buf).ok();
        }
    }
    None
}

#[test]
fn firecracker_read_http_status_returns_on_keepalive_without_eof() {
    let status =
        read_head(&[b"HTTP/1.1 204 \r\nServer: Firecracker API\r\nConnection: keep-alive\r\n\r\n"]);
    assert_eq!(status, Some(204));
}

#[test]
fn mod_read_http_status_returns_on_keepalive_without_eof() {
    let status = read_head(&[b"HTTP/1.1 204 \r\nServer: Firecracker API\r\n", b"Connection: keep-alive\r\n\r\n"]);
    assert_eq!(status, Some(204));
}

#[test]
fn firecracker_read_http_status_reads_head_then_ignores_body() {
    let status = read_head(&[b"HTTP/1.1 400 Bad Request\r\nContent-Length: 9\r\n\r\n{\"err\":1}"]);
    assert_eq!(status, Some(400));
}

#[test]
fn mod_read_http_status_reads_head_then_ignores_body() {
    let status = read_head(&[b"HTTP/1.1 400 Bad Request\r\nContent-Length: 9\r\n\r", b"\n{\"err\":1}"]);
    assert_eq!(status, Some(400));
}

#[test]
fn requests_are_framed_with_their_length() {
    let body = pause_body();
    let raw = frame_request("PATCH", "/vm", &body);
    let text = String::from_utf8(raw).unwrap();
    let json = serde_json::to_string(&body).unwrap();
    assert!(text.starts_with("PATCH /vm HTTP/1.1\r\n"), "{text}");
    assert!(text.contains(&format!("Content-Length: {}\r\n", json.len())), "{text}");
    assert!(text.ends_with(&format!("\r\n\r\n{json}")), "{text}");
    assert!(text.starts_with(&request_head("PATCH", "/vm", json.len())));
    assert!(api_status_ok(204) && api_status_ok(200) && !api_status_ok(400));
    assert!(judge_api_call("PUT", "/actions", Some(204)).is_ok());
    assert_eq!(judge_api_call("PATCH", "/vm", Some(400)).unwrap_err(), "firecracker API PATCH /vm returned HTTP 400");
    assert_eq!(judge_api_call("PUT", "/actions", None).unwrap_err(), "firecracker API timed out on PUT /actions");
}

#[test]
fn proxied_paths_stand_behind_the_guest_base() {
    assert_eq!(proxy_url("http://172.31.0.2:8080", Some("/api/data?q=1")), "http://172.31.0.2:8080/api/data?q=1");
    assert_eq!(proxy_url("http://172.31.0.2:8080", None), "http://172.31.0.2:8080/");
}

#[test]
fn fc_identity_is_stable_per_uuid() {
    let a = fc_identity_for_key("cc4bfba2-17a9-512d-b6f4-43f69114be65");
    let b = fc_identity_for_key("cc4bfba2-17a9-512d-b6f4-43f69114be65");
    assert_eq!(a, b);
}

#[test]
fn fc_identity_distinct_uuids_distinct_taps() {
    let (tap_a, _) = fc_identity_for_key("cc4bfba2-17a9-512d-b6f4-43f69114be65");
    let (tap_b, _) = fc_identity_for_key("78a254d8-77ab-5e0b-ac55-c95e0ce7f0c3");
    assert_ne!(tap_a, tap_b);
}

#[test]
fn fc_identity_swap_old_and_new_reff_get_distinct_taps() {
    let uuid = "cc4bfba2-17a9-512d-b6f4-43f69114be65";
    let (tap_old, _) = fc_identity_for_key(&format!("{uuid}:registry/x:sha-OLD"));
    let (tap_new, _) = fc_identity_for_key(&format!("{uuid}:registry/x:sha-NEW"));
    assert_ne!(tap_old, tap_new, "old/new reff must not share a tap during swap");
    let (tap_other, _) = fc_identity_for_key("78a254d8-77ab-5e0b-ac55-c95e0ce7f0c3:registry/x:sha-NEW");
    assert_ne!(tap_new, tap_other);
}

#[test]
fn fc_identity_tap_name_fits_ifnamsiz_and_is_prefixed() {
    for uuid in [
        "cc4bfba2-17a9-512d-b6f4-43f69114be65",
        "78a254d8-77ab-5e0b-ac55-c95e0ce7f0c3",
        "fc-launch-default",
        "0191e7c2-1111-7222-8333-444455556666",
    ] {
        let (tap, _) = fc_identity_for_key(uuid);
        assert!(tap.starts_with("fc-"), "tap {tap} must start with fc-");
        assert!(tap.len() <= 15, "tap {tap} exceeds IFNAMSIZ (len {})", tap.len());
    }
}

#[test]
fn fc_identity_link_idx_never_hits_build_slot() {
    for uuid in [
        "cc4bfba2-17a9-512d-b6f4-43f69114be65",
        "78a254d8-77ab-5e0b-ac55-c95e0ce7f0c3",
        "0191e7c2-2222-7222-8333-444455556666",
    ] {
        let (_, idx) = fc_identity_for_key(uuid);
        assert!(idx < SERVING_LINK_SLOTS, "idx {idx} must be < {SERVING_LINK_SLOTS}");
        assert!(idx < BUILD_SEQ, "idx {idx} collides build slot");
    }
}

#[test]
fn a_digest_gives_the_tap_and_the_slot() {
    let mut d = [0u8; 32];
    d[0] = 0xAB;
    d[5] = 0x01;
    assert_eq!(digest_hash48(&d), 0xAB00_0000_0001);
    assert_eq!(tap_name_of_digest(&d), "fc-ab0000000001");
    assert_eq!(u64::from(slot_of_digest(&d)), 0xAB00_0000_0001u64 % u64::from(SERVING_LINK_SLOTS));
    assert_eq!(api_sock_for_tap("fc-x"), "/tmp/firecracker-fc-x.sock");
    let (tap, _) = fc_identity_for_key("k");
    assert_eq!(fc_api_sock_for_key("k"), format!("/tmp/firecracker-{tap}.sock"));
    assert_ne!(tap, BUILD_TAP_NAME);
}

#[test]
fn scope_name_is_deterministic_and_sanitized() {
    assert_eq!(
        scope_name("0191e7c2-1111-7222-8333-444455556666"),
        "tabbify-fc-0191e7c2-1111-7222-8333-444455556666.scope"
    );
    assert_eq!(scope_name("My/App:v2"), "tabbify-fc-my-app-v2.scope");
    assert_eq!(scope_name("build-65534"), "tabbify-fc-build-65534.scope");
}

#[test]
fn argv_wraps_fc_under_slice_with_serving_quota() {
    let cfg = CpuScopeCfg::default();
    let scope = scope_name("uuid-a");
    let fc_args = vec!["--api-sock".to_owned(), "/tmp/firecracker-fc-tap0.sock".to_owned()];
    let argv = systemd_run_argv(&scope, &cfg, FcKind::Serving, "firecracker", &fc_args);

    assert_eq!(argv[0], "systemd-run");
    assert!(argv.contains(&"--scope".to_owned()));
    assert!(argv.contains(&"--collect".to_owned()));
    assert!(argv.contains(&"--unit=tabbify-fc-uuid-a.scope".to_owned()));
    assert!(argv.contains(&"--slice=tabbify-fc.slice".to_owned()));
    assert!(argv.contains(&"CPUQuota=100%".to_owned()));
    assert!(argv.contains(&"CPUWeight=80".to_owned()));
    let sep = argv.iter().position(|a| a == "--").unwrap();
    assert_eq!(argv[sep + 1], "firecracker");
    assert_eq!(argv[sep + 2], "--api-sock");
    assert_eq!(argv[sep + 3], "/tmp/firecracker-fc-tap0.sock");
    assert!(!argv[..sep].iter().any(|a| a == "--api-sock"));
}

#[test]
fn build_kind_uses_the_build_quota() {
    let cfg = CpuScopeCfg::default();
    let argv = systemd_run_argv(
        &scope_name("build-65534"),
        &cfg,
        FcKind::Build,
        "firecracker",
        &["--api-sock".to_owned(), "/tmp/x.sock".to_owned()],
    );
    assert!(argv.contains(&"CPUQuota=200%".to_owned()));
    assert!(!argv.contains(&"CPUQuota=100%".to_owned()));
}

#[test]
fn quotas_track_the_configured_values_not_magic_constants() {
    let cfg = CpuScopeCfg { serving_quota_pct: 150, build_quota_pct: 400, weight: 33 };
    let serving = systemd_run_argv(&scope_name("u"), &cfg, FcKind::Serving, "fc", &[]);
    assert!(serving.contains(&"CPUQuota=150%".to_owned()));
    assert!(serving.contains(&"CPUWeight=33".to_owned()));
    let build = systemd_run_argv(&scope_name("b"), &cfg, FcKind::Build, "fc", &[]);
    assert!(build.contains(&"CPUQuota=400%".to_owned()));
}

#[test]
fn should_wrap_only_when_systemd_run_and_pid1_systemd() {
    assert!(should_wrap(true, true));
    assert!(!should_wrap(false, true));
    assert!(!should_wrap(true, false));
    assert!(!should_wrap(false, false));
}

#[test]
fn default_cfg_bounds_serving_to_one_core_and_build_to_two() {
    let cfg = CpuScopeCfg::default();
    assert_eq!(cfg.serving_quota_pct, 100, "1 serving guest: about 1 core");
    assert_eq!(cfg.build_quota_pct, 200, "1 build VM: about 2 cores");
    assert!(cfg.weight < 100);
}

#[test]
fn an_unwrapped_spawn_runs_the_binary_itself() {
    let cfg = CpuScopeCfg::default();
    let args = ["--api-sock".to_owned(), "/s".to_owned()];
    let bare = spawn_plan(false, &cfg, FcKind::Serving, "u", "fc", &args);
    assert_eq!(bare.argv, vec!["fc", "--api-sock", "/s"]);
    assert_eq!(bare.scope, None);
    let wrapped = spawn_plan(true, &cfg, FcKind::Serving, "u", "fc", &args);
    assert_eq!(wrapped.scope, Some("tabbify-fc-u.scope".to_owned()));
    assert_eq!(wrapped.argv[0], "systemd-run");
    assert!(host_has_systemd(true, true) && !host_has_systemd(false, true));
    assert_eq!(FC_SLICE, "tabbify-fc.slice");
}

#[test]
fn firecracker_path_is_deterministic_and_sanitized() {
    assert_eq!(
        path("/tmp", "0191e7c2-1111-7222-8333-444455556666"),
        "/tmp/tabbify-fc-0191e7c2-1111-7222-8333-444455556666.pid"
    );
    assert_eq!(path("/tmp", "My/App:v2"), "/tmp/tabbify-fc-my-app-v2.pid");
}

#[test]
fn pidfile_path_is_deterministic_and_sanitized() {
    let dir = "/tmp";
    let p = path(dir, "0191e7c2-1111-7222-8333-444455556666");
    assert_eq!(p, "/tmp/tabbify-fc-0191e7c2-1111-7222-8333-444455556666.pid");
    let p2 = path(dir, "My/App:v2");
    assert_eq!(p2, "/tmp/tabbify-fc-my-app-v2.pid");
}

#[test]
fn console_log_path_is_deterministic_and_sanitized() {
    let dir = "/var/lib/tabbify";
    let p = console_log_path(dir, "0191e7c2-1111-7222-8333-444455556666");
    assert_eq!(p, "/var/lib/tabbify/fc/0191e7c2-1111-7222-8333-444455556666.console.log");
    let p2 = console_log_path(dir, "My/App:v2");
    assert_eq!(p2, "/var/lib/tabbify/fc/my-app-v2.console.log");
}

fn no_pid() -> PidFile {
    PidFile { contents: None }
}

#[test]
fn firecracker_write_then_take_round_trips_the_pid() {
    let mut f = no_pid();
    tabbify_supervisor::firecracker::pidfile::write(&mut f, 12345);
    assert_eq!(take(&mut f), Some(12345));
    assert_eq!(take(&mut f), None);
}

#[test]
fn pidfile_write_then_take_round_trips_the_pid() {
    let mut f = no_pid();
    tabbify_supervisor::firecracker::pidfile::write(&mut f, 12345);
    assert_eq!(read(&f), Some(12345));
    let got = take(&mut f);
    assert_eq!(got, Some(12345));
    assert_eq!(take(&mut f), None);
}

#[test]
fn firecracker_take_returns_none_when_no_pidfile() {
    assert_eq!(take(&mut no_pid()), None);
}

#[test]
fn pidfile_take_returns_none_when_no_pidfile() {
    let mut f = no_pid();
    assert_eq!(take(&mut f), None);
    assert!(f.contents.is_none());
}

#[test]
fn firecracker_kill_stale_calls_kill_when_process_is_alive() {
    assert!(kill_stale_if_alive(999, |_pid| true), "kill should be attempted for a live pid");
}

#[test]
fn pidfile_kill_stale_calls_kill_when_process_is_alive() {
    let asked = std::cell::Cell::new(0);
    let kill = kill_stale_if_alive(999, |pid| {
        asked.set(pid);
        true
    });
    assert!(kill, "kill should be attempted for a live pid");
    assert_eq!(asked.get(), 999);
}

#[test]
fn firecracker_kill_stale_skips_kill_when_process_is_dead() {
    assert!(!kill_stale_if_alive(999, |_pid| false));
}

#[test]
fn pidfile_kill_stale_skips_kill_when_process_is_dead() {
    let asked = std::cell::Cell::new(0);
    let kill = kill_stale_if_alive(999, |pid| {
        asked.set(pid);
        false
    });
    assert!(!kill);
    assert_eq!(asked.get(), 999);
}

#[test]
fn restore_reaps_prior_fc_via_pidfile() {
    let mut f = no_pid();
    tabbify_supervisor::firecracker::pidfile::write(&mut f, 4711);
    let stale = match take(&mut f) {
        Some(pid) => pid,
        None => panic!("the pid file must yield the prior pid"),
    };
    assert_eq!(stale, 4711);
    assert!(kill_stale_if_alive(stale, |_pid| true), "the prior VM must be reaped");
    assert!(f.contents.is_none(), "the reap must consume the pid file");
}

#[test]
fn garbled_pid_files_hold_no_pid() {
    let mut f = PidFile { contents: Some("12x".to_owned()) };
    assert_eq!(read(&f), None);
    f.contents = Some(" 77\n".to_owned());
    assert_eq!(read(&f), Some(77));
    remove(&mut f);
    assert_eq!(read(&f), None);
    assert!(process_is_alive(1, |_pid| true));
    assert!(!process_is_alive(1, |_pid| false));
}

#[test]
fn the_api_socket_is_read_from_a_command_line() {
    assert_eq!(
        parse_firecracker_api_sock(b"/usr/bin/firecracker\0--api-sock\0/tmp/firecracker-fc-a.sock\0"),
        Some("/tmp/firecracker-fc-a.sock".to_owned())
    );
    assert_eq!(parse_firecracker_api_sock(b"/usr/bin/firecracker\0--api-sock\0"), None);
    assert_eq!(parse_firecracker_api_sock(b"sleep\0--api-sock\0/tmp/x\0"), None);
    assert_eq!(parse_firecracker_api_sock(b""), None);
    assert_eq!(
        parse_firecracker_api_sock(
            b"/usr/bin/systemd-run\0--scope\0--unit=tabbify-fc-a.scope\0--\0firecracker\0--api-sock\0/tmp/firecracker-fc-1.sock\0"
        ),
        Some("/tmp/firecracker-fc-1.sock".to_owned())
    );
    for unrelated in [
        &b"grep\0firecracker\0--api-sock\0/tmp/firecracker-fc-1.sock\0"[..],
        &b"systemd-run\0firecracker\0--api-sock\0/tmp/firecracker-fc-1.sock\0"[..],
        &b"systemd-run\0--\0grep\0firecracker\0--api-sock\0/tmp/firecracker-fc-1.sock\0"[..],
        &b"firecracker\0--api-sock\0/run/other.sock\0"[..],
    ] {
        assert_eq!(parse_firecracker_api_sock(unrelated), None);
    }
}

fn test_runtime() -> Runtime {
    Runtime { memory_mb: 512, vcpus: Some(1), ..fc_runtime(None) }
}

#[test]
fn resolve_port_plan_workspace_forces_fixed_app_port() {
    let cfg = FcConfig::default();
    let mut rt = test_runtime();
    rt.port = Some(9999);
    assert_eq!(resolve_port_plan(true, &rt, &[80, 2222], Some(3000), &cfg), PortPlan::Fixed(8080));
}

#[test]
fn resolve_port_plan_manifest_port_wins_no_probe() {
    let cfg = FcConfig::default();
    let mut rt = test_runtime();
    rt.port = Some(8788);
    assert_eq!(resolve_port_plan(false, &rt, &[80, 8730], None, &cfg), PortPlan::Fixed(8788));
}

#[test]
fn resolve_port_plan_multiple_exposed_probes_all() {
    let cfg = FcConfig::default();
    let rt = test_runtime();
    assert_eq!(resolve_port_plan(false, &rt, &[80, 8730], None, &cfg), PortPlan::Probe(vec![80, 8730]));
}

#[test]
fn resolve_port_plan_single_exposed_is_fixed() {
    let cfg = FcConfig::default();
    let rt = test_runtime();
    assert_eq!(resolve_port_plan(false, &rt, &[80], None, &cfg), PortPlan::Fixed(80));
}

#[test]
fn resolve_port_plan_persisted_used_on_cache_hit() {
    let cfg = FcConfig::default();
    let rt = test_runtime();
    assert_eq!(resolve_port_plan(false, &rt, &[], Some(8730), &cfg), PortPlan::Fixed(8730));
}

#[test]
fn resolve_port_plan_fresh_exposed_beats_persisted() {
    let cfg = FcConfig::default();
    let rt = test_runtime();
    assert_eq!(resolve_port_plan(false, &rt, &[80, 8730], Some(9000), &cfg), PortPlan::Probe(vec![80, 8730]));
}

#[test]
fn resolve_port_plan_falls_back_to_default() {
    let cfg = FcConfig::default();
    let rt = test_runtime();
    assert_eq!(resolve_port_plan(false, &rt, &[], None, &cfg), PortPlan::Fixed(8080));
}

const LOCALHOST: u32 = 0x7F00_0001;

#[test]
fn probe_first_answering_picks_the_listening_port() {
    let (dead, live) = (40001, 40002);
    let mut probe = PortProbe::new(&[dead, live]).unwrap();
    assert!(matches!(probe.step(ProbeEvent::Exhausted(dead), 5, LOCALHOST), ProbeAction::Wait));
    match probe.step(ProbeEvent::Answered(live), 5, LOCALHOST) {
        ProbeAction::Win(p) => assert_eq!(p, live, "the port with a live HTTP server must win"),
        other => panic!("{other:?}"),
    }
}

#[test]
fn probe_first_answering_hard_fails_when_none_answer() {
    let mut probe = PortProbe::new(&[40002, 40001]).unwrap();
    assert!(matches!(probe.step(ProbeEvent::Exhausted(40002), 1, LOCALHOST), ProbeAction::Wait));
    match probe.step(ProbeEvent::Exhausted(40001), 1, LOCALHOST) {
        ProbeAction::Fail(msg) => assert!(msg.contains("no exposed port answered"), "{msg}"),
        other => panic!("{other:?}"),
    }
}

#[test]
fn probe_first_answering_empty_is_error() {
    let err = match PortProbe::new(&[]) {
        Err(e) => e,
        Ok(_) => panic!("empty ports must be an error"),
    };
    assert!(err.contains("no candidate ports"));
}

#[test]
fn odd_bytes_and_quotes_are_shown() {
    assert_eq!(parse_status_line(b"HTTP/1.1 204 \xFF\r\n").unwrap(), 204);
    match parse_status_line(b"\xFFx\r\n") {
        Err(StatusError::Malformed(line)) => assert_eq!(line, "\u{fffd}x"),
        other => panic!("{other:?}"),
    }
    assert_eq!(StatusError::Malformed("a\"b".to_owned()).message(), "malformed status line \"a\\\"b\"");
}
