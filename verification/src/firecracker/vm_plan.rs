//! What it takes to bring a microVM up: its link, its process and its API
//! calls.
use vstd::prelude::*;
use crate::config::FcConfig;
use crate::firecracker::cpu_scope::{scope_of, scope_options, spawn_plan, CpuScopeCfg, FcKind, FcSpawn};
use crate::firecracker::identity::{
    api_sock_for_tap, api_sock_of, fc_identity_for_key, preferred, tap_name, BUILD_SCOPE_ID_NAME, BUILD_TAP_NAME,
};
use crate::firecracker::link_error::{debug_quoted, debug_text, LinkError, LinkFault};
use crate::firecracker::protocol::{
    aux_drive_body, boot_source, boot_source_body, drive, instance_start, instance_start_body, machine_config, machine_config_body,
    network_iface, network_iface_body, port_of, resolve_kernel, resolve_port, resolve_vcpus, rootfs_drive_body, snapshot_load,
    snapshot_load_body,
};
use crate::firecracker::snapshot::{mem_path, vmstate_path, CacheDir, CacheModel};
use crate::firecracker::subnet::{
    derive_guest_mac, derive_link_ips, guest_mac, ipv4_value, is_ipv4, link_of, BUILD_SEQ, SERVING_LINK_SLOTS,
};
use crate::firecracker::vm_run::{VmFault, VmKind};
use crate::ipv4::{ipv4_text, ipv4_to_text, law_ipv4_text_injective, parse_ipv4};
use crate::json::{json_of, JsonModel};
use crate::manifest::Runtime;
use crate::number::{decimal, push_decimal};
use crate::path::joined;
use crate::text::{before_char, concat2, concat3, opt_owned, opt_str, opt_text, svec, texts, up_to_char};

verus! {

/// Sizing of the build VM, which compiles.
pub const BUILD_VCPUS: u32 = 2;

/// Memory of the build VM in MiB.
pub const BUILD_MEM_MIB: u32 = 2048;

/// How long one build may take, in seconds.
pub const BUILD_VM_TIMEOUT: u64 = 900;

/// How long a build VM's API socket may take to appear, in milliseconds.
pub const BUILD_SOCKET_WAIT: u64 = 5_000;

/// The pause between two looks for a build VM's API socket, in milliseconds.
pub const BUILD_SOCKET_POLL: u64 = 100;

/// Why a VM is not brought up at all.
#[derive(Debug)]
pub enum LaunchFault {
    /// The host cannot run serving VMs.
    NoKvm,
    /// The host cannot run the build VM.
    NoBuildKvm,
    /// The root file system is not there.
    RootfsMissing(String),
    /// A disk image of the build VM is not there.
    ImageMissing(String, String),
    /// The subnet has no such link.
    Link(String, LinkError),
    /// The guest's end of the link lies behind the last address there is.
    LinkOutOfRange(String),
}

/// A `LaunchFault` with its texts as sequences of characters.
pub enum LaunchFaultModel {
    NoKvm,
    NoBuildKvm,
    RootfsMissing(Seq<char>),
    ImageMissing(Seq<char>, Seq<char>),
    Link(Seq<char>, LinkFault),
    LinkOutOfRange(Seq<char>),
}

impl View for LaunchFault {
    type V = LaunchFaultModel;

    open spec fn view(&self) -> LaunchFaultModel {
        match self {
            LaunchFault::NoKvm => LaunchFaultModel::NoKvm,
            LaunchFault::NoBuildKvm => LaunchFaultModel::NoBuildKvm,
            LaunchFault::RootfsMissing(p) => LaunchFaultModel::RootfsMissing(p@),
            LaunchFault::ImageMissing(w, p) => LaunchFaultModel::ImageMissing(w@, p@),
            LaunchFault::Link(s, e) => LaunchFaultModel::Link(s@, e@),
            LaunchFault::LinkOutOfRange(s) => LaunchFaultModel::LinkOutOfRange(s@),
        }
    }
}

/// What is said of a fault.
pub open spec fn launch_fault_text(f: LaunchFaultModel) -> Seq<char> {
    match f {
        LaunchFaultModel::NoKvm => "firecracker runtime requires Linux + /dev/kvm (/dev/kvm not R/W-openable)"@,
        LaunchFaultModel::NoBuildKvm => "firecracker build sandbox requires Linux + /dev/kvm"@,
        LaunchFaultModel::RootfsMissing(p) => "firecracker rootfs not found at "@ + p,
        LaunchFaultModel::ImageMissing(w, p) => "build VM "@ + w + " image not found at "@ + p,
        LaunchFaultModel::Link(s, _) => "derive /30 from subnet "@ + s,
        LaunchFaultModel::LinkOutOfRange(s) => "derive /30 from subnet "@ + s,
    }
}

impl LaunchFault {
    /// What is said of the fault.
    pub fn message(&self) -> (r: String)
        ensures
            r@ == launch_fault_text(self@),
    {
        match self {
            LaunchFault::NoKvm => "firecracker runtime requires Linux + /dev/kvm (/dev/kvm not R/W-openable)".to_owned(),
            LaunchFault::NoBuildKvm => "firecracker build sandbox requires Linux + /dev/kvm".to_owned(),
            LaunchFault::RootfsMissing(p) => concat2("firecracker rootfs not found at ", p),
            LaunchFault::ImageMissing(w, p) => {
                let mut out = concat3("build VM ", w, " image not found at ");
                out.append(p);
                out
            },
            LaunchFault::Link(s, _) => concat2("derive /30 from subnet ", s),
            LaunchFault::LinkOutOfRange(s) => concat2("derive /30 from subnet ", s),
        }
    }
}

/// One `PUT` on the API socket.
#[derive(Debug)]
pub struct ApiCall {
    /// Path of the call.
    pub path: String,
    /// How the call is named where it fails.
    pub label: String,
    /// Its body.
    pub body: serde_json::Value,
}

/// An `ApiCall` with its texts as sequences of characters.
#[verifier::ext_equal]
pub struct CallModel {
    pub path: Seq<char>,
    pub label: Seq<char>,
    pub body: JsonModel,
}

impl View for ApiCall {
    type V = CallModel;

    open spec fn view(&self) -> CallModel {
        CallModel { path: self.path@, label: self.label@, body: json_of(self.body) }
    }
}

/// A list of calls with its texts as sequences of characters.
pub open spec fn calls_view(v: Seq<ApiCall>) -> Seq<CallModel> {
    Seq::new(v.len(), |i: int| v[i]@)
}

/// The call that puts `body` at `path`, named after its path.
pub open spec fn put(path: Seq<char>, body: JsonModel) -> CallModel {
    CallModel { path, label: "PUT "@ + path, body }
}

/// The call that puts `body` at `path`, named after its path.
fn put_call(path: &str, body: serde_json::Value) -> (r: ApiCall)
    ensures
        r@ == put(path@, json_of(body)),
{
    ApiCall { path: path.to_owned(), label: concat2("PUT ", path), body }
}

/// The call that starts the VM.
pub open spec fn start_call() -> CallModel {
    CallModel { path: "/actions"@, label: "PUT /actions InstanceStart"@, body: instance_start() }
}

/// The call that starts the VM.
fn make_start_call() -> (r: ApiCall)
    ensures
        r@ == start_call(),
{
    ApiCall { path: "/actions".to_owned(), label: "PUT /actions InstanceStart".to_owned(), body: instance_start_body() }
}

/// What it takes to bring a VM up.
#[derive(Debug)]
pub struct VmPlan {
    /// TAP of the VM.
    pub tap: String,
    /// API socket of its process.
    pub api_sock: String,
    /// The host's end of the link.
    pub host_ip: u32,
    /// The guest's end of the link.
    pub guest_ip: u32,
    /// Where the guest app is reached; empty for a VM without one.
    pub guest_base: String,
    /// The firecracker binary.
    pub bin: String,
    /// How the process is spawned.
    pub spawn: FcSpawn,
    /// The API calls, in order.
    pub calls: Vec<ApiCall>,
    /// The image that a snapshot of the VM is stamped with.
    pub image_ref: Option<String>,
    /// The environment that a snapshot of the VM is stamped with.
    pub env_hash: Option<String>,
}

/// A `VmPlan` with its texts as sequences of characters.
#[verifier::ext_equal]
pub struct PlanModel {
    pub tap: Seq<char>,
    pub api_sock: Seq<char>,
    pub host_ip: nat,
    pub guest_ip: nat,
    pub guest_base: Seq<char>,
    pub bin: Seq<char>,
    pub argv: Seq<Seq<char>>,
    pub scope: Option<Seq<char>>,
    pub calls: Seq<CallModel>,
    pub image_ref: Option<Seq<char>>,
    pub env_hash: Option<Seq<char>>,
}

impl View for VmPlan {
    type V = PlanModel;

    open spec fn view(&self) -> PlanModel {
        PlanModel {
            tap: self.tap@,
            api_sock: self.api_sock@,
            host_ip: self.host_ip as nat,
            guest_ip: self.guest_ip as nat,
            guest_base: self.guest_base@,
            bin: self.bin@,
            argv: texts(self.spawn.argv@),
            scope: opt_text(self.spawn.scope),
            calls: calls_view(self.calls@),
            image_ref: opt_text(self.image_ref),
            env_hash: opt_text(self.env_hash),
        }
    }
}

/// A planned VM, or why there is none, with its texts as sequences of characters.
pub open spec fn plan_view(r: Result<VmPlan, LaunchFault>) -> Result<PlanModel, LaunchFaultModel> {
    match r {
        Ok(p) => Ok(p@),
        Err(f) => Err(f@),
    }
}

/// Host and guest end of link number `slot` of a subnet, counted from the
/// address in front of its `/`.
pub open spec fn link_at(subnet: Seq<char>, slot: nat) -> Result<(nat, nat), LaunchFaultModel> {
    let base = up_to_char(subnet, '/');
    if !is_ipv4(base) {
        Err(LaunchFaultModel::Link(subnet, LinkFault::InvalidSubnet(subnet)))
    } else if ipv4_value(base) + 4 * slot + 1 > u32::MAX {
        Err(LaunchFaultModel::Link(subnet, LinkFault::ExhaustedAtSeq(slot as u32)))
    } else if ipv4_value(base) + 4 * slot + 1 == u32::MAX {
        Err(LaunchFaultModel::LinkOutOfRange(subnet))
    } else {
        Ok(link_of(ipv4_value(base) as nat, slot))
    }
}

/// Host and guest end of link number `slot` of a subnet.
pub fn launch_link(subnet: &str, slot: u32) -> (r: Result<(u32, u32), LaunchFault>)
    requires
        slot <= SERVING_LINK_SLOTS,
    ensures
        match r {
            Ok((h, g)) => link_at(subnet@, slot as nat) == Ok::<(nat, nat), LaunchFaultModel>((h as nat, g as nat)),
            Err(f) => link_at(subnet@, slot as nat) == Err::<(nat, nat), LaunchFaultModel>(f@),
        },
{
    let base_part = before_char(subnet, '/');
    match parse_ipv4(&base_part) {
        Some(base) => {
            proof {
                assert(is_ipv4(base_part@));
                law_ipv4_text_injective(base, ipv4_value(base_part@));
            }
            if base == u32::MAX - (4 * slot + 1) {
                return Err(LaunchFault::LinkOutOfRange(subnet.to_owned()));
            }
        },
        None => {},
    }
    match derive_link_ips(subnet, slot) {
        Ok(pair) => Ok(pair),
        Err(e) => Err(LaunchFault::Link(subnet.to_owned(), e)),
    }
}

/// Where an app in a guest is reached.
pub open spec fn guest_base_of(guest_ip: nat, port: nat) -> Seq<char> {
    "http://"@ + ipv4_text(guest_ip) + ":"@ + decimal(port)
}

/// Where an app in a guest is reached.
pub fn guest_base(guest_ip: u32, port: u16) -> (r: String)
    ensures
        r@ == guest_base_of(guest_ip as nat, port as nat),
{
    let ip = ipv4_to_text(guest_ip);
    let mut out = concat3("http://", &ip, ":");
    push_decimal(&mut out, port as u64);
    out
}

/// The command line of a firecracker process.
pub open spec fn fc_argv(wrap: bool, cfg: CpuScopeCfg, kind: FcKind, id: Seq<char>, bin: Seq<char>, sock: Seq<char>) -> Seq<
    Seq<char>,
> {
    if wrap {
        scope_options(scope_of(id), cfg, kind) + seq![bin] + seq!["--api-sock"@, sock]
    } else {
        seq![bin] + seq!["--api-sock"@, sock]
    }
}

/// The scope of a firecracker process.
pub open spec fn fc_scope(wrap: bool, id: Seq<char>) -> Option<Seq<char>> {
    if wrap {
        Some(scope_of(id))
    } else {
        None
    }
}

/// How a firecracker process with that API socket is spawned.
pub fn spawn_firecracker(wrap: bool, cfg: &FcConfig, kind: FcKind, scope_id: &str, api_sock: &str) -> (r: FcSpawn)
    ensures
        texts(r.argv@) == fc_argv(
            wrap,
            (CpuScopeCfg {
                serving_quota_pct: cfg.cpu_quota_serving_pct,
                build_quota_pct: cfg.cpu_quota_build_pct,
                weight: cfg.cpu_weight,
            }),
            kind,
            scope_id@,
            cfg.bin@,
            api_sock@,
        ),
        opt_text(r.scope) == fc_scope(wrap, scope_id@),
{
    let parts: [&str; 2] = ["--api-sock", api_sock];
    let args = svec(&parts);
    assert(texts(args@) =~= seq!["--api-sock"@, api_sock@]);
    let scope_cfg = cfg.cpu_scope_cfg();
    spawn_plan(wrap, &scope_cfg, kind, scope_id, &cfg.bin, &args)
}

/// The CPU bounds of a configuration.
pub open spec fn bounds_of(cfg: FcConfig) -> CpuScopeCfg {
    CpuScopeCfg {
        serving_quota_pct: cfg.cpu_quota_serving_pct,
        build_quota_pct: cfg.cpu_quota_build_pct,
        weight: cfg.cpu_weight,
    }
}

// ---- cold boot -------------------------------------------------------------------

/// The API calls of a cold boot: machine, kernel, root disk, the data disk of
/// a stateful app, network, start.
pub open spec fn boot_calls(
    vcpus: nat,
    mem: nat,
    kernel: Seq<char>,
    host_ip: nat,
    guest_ip: nat,
    rootfs: Seq<char>,
    data_disk: Option<Seq<char>>,
    tap: Seq<char>,
    mac: Seq<char>,
) -> Seq<CallModel> {
    let disks = match data_disk {
        Some(d) => seq![
            put("/drives/rootfs"@, drive("rootfs"@, rootfs, true, false)),
            put("/drives/data"@, drive("data"@, d, false, false)),
        ],
        None => seq![put("/drives/rootfs"@, drive("rootfs"@, rootfs, true, false))],
    };
    seq![
        put("/machine-config"@, machine_config(vcpus, mem)),
        put("/boot-source"@, boot_source(kernel, ipv4_text(guest_ip), ipv4_text(host_ip))),
    ] + disks + seq![put("/network-interfaces/eth0"@, network_iface(tap, mac)), start_call()]
}

/// The API calls of a cold boot, in order.
pub fn configure_and_boot(
    rootfs: &str,
    rt: &Runtime,
    cfg: &FcConfig,
    guest_ip: u32,
    host_ip: u32,
    tap: &str,
    guest_mac: &str,
    data_disk: Option<&str>,
) -> (r: Vec<ApiCall>)
    ensures
        calls_view(r@) == boot_calls(
            vcpus_of(*rt, *cfg) as nat,
            rt.memory_mb as nat,
            kernel_of(*rt, *cfg),
            host_ip as nat,
            guest_ip as nat,
            rootfs@,
            opt_str(data_disk),
            tap@,
            guest_mac@,
        ),
{
    let kernel = resolve_kernel(rt, cfg);
    let g = ipv4_to_text(guest_ip);
    let h = ipv4_to_text(host_ip);
    let mut calls: Vec<ApiCall> = Vec::new();
    calls.push(put_call("/machine-config", machine_config_body(resolve_vcpus(rt, cfg), rt.memory_mb)));
    calls.push(put_call("/boot-source", boot_source_body(&kernel, &g, &h)));
    calls.push(put_call("/drives/rootfs", rootfs_drive_body(rootfs, false)));
    match data_disk {
        Some(d) => {
            calls.push(put_call("/drives/data", aux_drive_body("data", d, false)));
        },
        None => {},
    }
    calls.push(put_call("/network-interfaces/eth0", network_iface_body(tap, guest_mac)));
    calls.push(make_start_call());
    proof {
        let want = boot_calls(
            vcpus_of(*rt, *cfg) as nat,
            rt.memory_mb as nat,
            kernel_of(*rt, *cfg),
            host_ip as nat,
            guest_ip as nat,
            rootfs@,
            opt_str(data_disk),
            tap@,
            guest_mac@,
        );
        assert(calls_view(calls@) =~= want);
    }
    calls
}

/// The vCPUs of an app.
pub open spec fn vcpus_of(rt: Runtime, cfg: FcConfig) -> u32 {
    match rt.vcpus {
        Some(n) => n,
        None => cfg.vcpus,
    }
}

/// The guest kernel of an app.
pub open spec fn kernel_of(rt: Runtime, cfg: FcConfig) -> Seq<char> {
    match rt.kernel {
        Some(k) => k@,
        None => cfg.kernel@,
    }
}

/// The plan of a cold boot on that link.
pub open spec fn cold_plan_at(
    tap: Seq<char>,
    slot: nat,
    link: (nat, nat),
    wrap: bool,
    rootfs: Seq<char>,
    rt: Runtime,
    cfg: FcConfig,
    app_port: u16,
    vm_key: Seq<char>,
    data_disk: Option<Seq<char>>,
    image_ref: Option<Seq<char>>,
    env_hash: Option<Seq<char>>,
) -> PlanModel {
    PlanModel {
        tap,
        api_sock: api_sock_of(tap),
        host_ip: link.0,
        guest_ip: link.1,
        guest_base: guest_base_of(link.1, app_port as nat),
        bin: cfg.bin@,
        argv: fc_argv(wrap, bounds_of(cfg), FcKind::Serving, vm_key, cfg.bin@, api_sock_of(tap)),
        scope: fc_scope(wrap, vm_key),
        calls: boot_calls(
            vcpus_of(rt, cfg) as nat,
            rt.memory_mb as nat,
            kernel_of(rt, cfg),
            link.0,
            link.1,
            rootfs,
            data_disk,
            tap,
            guest_mac(slot),
        ),
        image_ref,
        env_hash,
    }
}

/// The plan of a cold boot: the host must have KVM and the root file system,
/// and the subnet the link that the key prefers.
pub open spec fn cold_plan(
    kvm: bool,
    wrap: bool,
    rootfs: Seq<char>,
    rootfs_is_file: bool,
    rt: Runtime,
    cfg: FcConfig,
    app_port: u16,
    vm_key: Seq<char>,
    data_disk: Option<Seq<char>>,
    image_ref: Option<Seq<char>>,
    env_hash: Option<Seq<char>>,
) -> Result<PlanModel, LaunchFaultModel> {
    if !kvm {
        Err(LaunchFaultModel::NoKvm)
    } else if !rootfs_is_file {
        Err(LaunchFaultModel::RootfsMissing(rootfs))
    } else {
        match link_at(cfg.tap_subnet@, preferred(vm_key)) {
            Err(f) => Err(f),
            Ok(link) => Ok(
                cold_plan_at(
                    tap_name(vm_key),
                    preferred(vm_key),
                    link,
                    wrap,
                    rootfs,
                    rt,
                    cfg,
                    app_port,
                    vm_key,
                    data_disk,
                    image_ref,
                    env_hash,
                ),
            ),
        }
    }
}

/// Plans a cold boot. `kvm` says whether the host has KVM, `wrap` whether
/// processes run in a scope; `vm_key` is what the VM's identity is derived
/// from, and `image_ref` and `env_hash` what its snapshot is stamped with.
pub fn cold_boot(
    kvm: bool,
    wrap: bool,
    rootfs: &str,
    rootfs_is_file: bool,
    rt: &Runtime,
    cfg: &FcConfig,
    app_port: u16,
    vm_key: &str,
    data_disk: Option<&str>,
    image_ref: Option<&str>,
    env_hash: Option<&str>,
) -> (r: Result<VmPlan, LaunchFault>)
    ensures
        plan_view(r) == cold_plan(
            kvm,
            wrap,
            rootfs@,
            rootfs_is_file,
            *rt,
            *cfg,
            app_port,
            vm_key@,
            opt_str(data_disk),
            opt_str(image_ref),
            opt_str(env_hash),
        ),
{
    if !kvm {
        return Err(LaunchFault::NoKvm);
    }
    if !rootfs_is_file {
        return Err(LaunchFault::RootfsMissing(rootfs.to_owned()));
    }
    let (tap, slot) = fc_identity_for_key(vm_key);
    let (host_ip, guest_ip) = match launch_link(&cfg.tap_subnet, slot) {
        Ok(pair) => pair,
        Err(f) => return Err(f),
    };
    let mac = derive_guest_mac(slot);
    let api_sock = api_sock_for_tap(&tap);
    let base = guest_base(guest_ip, app_port);
    let spawn = spawn_firecracker(wrap, cfg, FcKind::Serving, vm_key, &api_sock);
    let calls = configure_and_boot(rootfs, rt, cfg, guest_ip, host_ip, &tap, &mac, data_disk);
    Ok(
        VmPlan {
            tap,
            api_sock,
            host_ip,
            guest_ip,
            guest_base: base,
            bin: cfg.bin.as_str().to_owned(),
            spawn,
            calls,
            image_ref: opt_owned(image_ref),
            env_hash: opt_owned(env_hash),
        },
    )
}

/// Plans the cold boot of a VM that belongs to no app: it has a fixed
/// identity, and nothing that a snapshot would be stamped with.
pub fn launch(kvm: bool, wrap: bool, rootfs: &str, rootfs_is_file: bool, rt: &Runtime, cfg: &FcConfig) -> (r: Result<
    VmPlan,
    LaunchFault,
>)
    ensures
        plan_view(r) == cold_plan(
            kvm,
            wrap,
            rootfs@,
            rootfs_is_file,
            *rt,
            *cfg,
            port_of(rt.port, None, cfg.app_port),
            "fc-launch-default"@,
            None,
            None,
            None,
        ),
{
    cold_boot(kvm, wrap, rootfs, rootfs_is_file, rt, cfg, resolve_port(rt, None, cfg), "fc-launch-default", None, None, None)
}

// ---- warm start -----------------------------------------------------------------

/// The plan of a warm start: one call loads the snapshot and resumes the
/// guest. The link is the one that a cold boot of the same key has.
pub open spec fn warm_plan(kvm: bool, wrap: bool, cache_dir: Seq<char>, cache: CacheModel, cfg: FcConfig, vm_key: Seq<char>, app_port: u16) -> Result<
    PlanModel,
    LaunchFaultModel,
> {
    if !kvm {
        Err(LaunchFaultModel::NoKvm)
    } else {
        match link_at(cfg.tap_subnet@, preferred(vm_key)) {
            Err(f) => Err(f),
            Ok(link) => Ok(
                PlanModel {
                    tap: tap_name(vm_key),
                    api_sock: api_sock_of(tap_name(vm_key)),
                    host_ip: link.0,
                    guest_ip: link.1,
                    guest_base: guest_base_of(link.1, app_port as nat),
                    bin: cfg.bin@,
                    argv: fc_argv(wrap, bounds_of(cfg), FcKind::Serving, vm_key, cfg.bin@, api_sock_of(tap_name(vm_key))),
                    scope: fc_scope(wrap, vm_key),
                    calls: seq![
                        put(
                            "/snapshot/load"@,
                            snapshot_load(joined(cache_dir, "snap.vmstate"@), joined(cache_dir, "snap.mem"@), true),
                        ),
                    ],
                    image_ref: cache.snapshot_ref,
                    env_hash: cache.snapshot_env,
                },
            ),
        }
    }
}

/// Plans a warm start from the snapshot in `cache_dir`. The stamps of the
/// snapshot stay with the VM, so that a later snapshot carries them on.
pub fn launch_from_snapshot(kvm: bool, wrap: bool, cache_dir: &str, cache: &CacheDir, cfg: &FcConfig, vm_key: &str, app_port: u16) -> (r:
    Result<VmPlan, LaunchFault>)
    ensures
        plan_view(r) == warm_plan(kvm, wrap, cache_dir@, cache@, *cfg, vm_key@, app_port),
{
    if !kvm {
        return Err(LaunchFault::NoKvm);
    }
    let vmstate = vmstate_path(cache_dir);
    let mem = mem_path(cache_dir);
    let (tap, slot) = fc_identity_for_key(vm_key);
    let (host_ip, guest_ip) = match launch_link(&cfg.tap_subnet, slot) {
        Ok(pair) => pair,
        Err(f) => return Err(f),
    };
    let api_sock = api_sock_for_tap(&tap);
    let base = guest_base(guest_ip, app_port);
    let spawn = spawn_firecracker(wrap, cfg, FcKind::Serving, vm_key, &api_sock);
    let mut calls: Vec<ApiCall> = Vec::new();
    calls.push(put_call("/snapshot/load", snapshot_load_body(&vmstate, &mem, true)));
    assert(calls_view(calls@) =~= seq![
        put(
            "/snapshot/load"@,
            snapshot_load(joined(cache_dir@, "snap.vmstate"@), joined(cache_dir@, "snap.mem"@), true),
        ),
    ]);
    Ok(
        VmPlan {
            tap,
            api_sock,
            host_ip,
            guest_ip,
            guest_base: base,
            bin: cfg.bin.as_str().to_owned(),
            spawn,
            calls,
            image_ref: clone_opt(&cache.snapshot_ref),
            env_hash: clone_opt(&cache.snapshot_env),
        },
    )
}

/// A copy of an optional text.
fn clone_opt(o: &Option<String>) -> (r: Option<String>)
    ensures
        opt_text(r) == opt_text(*o),
{
    match o {
        Some(s) => Some(s.as_str().to_owned()),
        None => None,
    }
}

/// A warm start has the link, the TAP and the socket of the cold boot of the
/// same key, so what is frozen in the guest still fits the host.
pub proof fn law_warm_start_fits_cold_boot(
    wrap: bool,
    rootfs: Seq<char>,
    rt: Runtime,
    cfg: FcConfig,
    app_port: u16,
    vm_key: Seq<char>,
    data_disk: Option<Seq<char>>,
    image_ref: Option<Seq<char>>,
    env_hash: Option<Seq<char>>,
    cache_dir: Seq<char>,
    cache: CacheModel,
)
    ensures
        match (
            cold_plan(true, wrap, rootfs, true, rt, cfg, app_port, vm_key, data_disk, image_ref, env_hash),
            warm_plan(true, wrap, cache_dir, cache, cfg, vm_key, app_port),
        ) {
            (Ok(c), Ok(w)) => c.tap == w.tap && c.api_sock == w.api_sock && c.host_ip == w.host_ip && c.guest_ip == w.guest_ip
                && c.guest_base == w.guest_base && c.scope == w.scope,
            (Err(a), Err(b)) => a == b,
            _ => false,
        },
{
}

// ---- build VM --------------------------------------------------------------------

/// The disk images of a build.
#[derive(Debug)]
pub struct BuildVmSpec<'a> {
    /// Toolchain root file system.
    pub rootfs: &'a str,
    /// Scratch disk: the sources go in, the image comes out.
    pub scratch: &'a str,
    /// Build cache, which outlives the VM.
    pub cache: &'a str,
    /// Console log of the VM.
    pub console_log: &'a str,
    /// Firecracker configuration.
    pub cfg: &'a FcConfig,
}

/// The API calls of the build VM.
pub open spec fn build_calls(cfg: FcConfig, rootfs: Seq<char>, scratch: Seq<char>, cache: Seq<char>, link: (nat, nat)) -> Seq<CallModel> {
    seq![
        put("/machine-config"@, machine_config(BUILD_VCPUS as nat, BUILD_MEM_MIB as nat)),
        put("/boot-source"@, boot_source(cfg.kernel@, ipv4_text(link.1), ipv4_text(link.0))),
        put("/drives/rootfs"@, drive("rootfs"@, rootfs, true, false)),
        put("/drives/scratch"@, drive("scratch"@, scratch, false, false)),
        put("/drives/cache"@, drive("cache"@, cache, false, false)),
        put("/network-interfaces/eth0"@, network_iface(BUILD_TAP_NAME@, guest_mac(BUILD_SEQ as nat))),
        start_call(),
    ]
}

/// Which of the build's disk images is the first that is missing.
pub open spec fn missing_image(spec: BuildVmSpec, have_rootfs: bool, have_scratch: bool, have_cache: bool) -> Option<LaunchFaultModel> {
    if !have_rootfs {
        Some(LaunchFaultModel::ImageMissing("rootfs"@, spec.rootfs@))
    } else if !have_scratch {
        Some(LaunchFaultModel::ImageMissing("scratch"@, spec.scratch@))
    } else if !have_cache {
        Some(LaunchFaultModel::ImageMissing("cache"@, spec.cache@))
    } else {
        None
    }
}

/// The plan of the build VM, on the link and the TAP that are its own.
pub open spec fn build_plan(kvm: bool, wrap: bool, spec: BuildVmSpec, have_rootfs: bool, have_scratch: bool, have_cache: bool) -> Result<
    PlanModel,
    LaunchFaultModel,
> {
    if !kvm {
        Err(LaunchFaultModel::NoBuildKvm)
    } else {
        match missing_image(spec, have_rootfs, have_scratch, have_cache) {
            Some(f) => Err(f),
            None => match link_at(spec.cfg.tap_subnet@, BUILD_SEQ as nat) {
                Err(f) => Err(f),
                Ok(link) => Ok(
                    PlanModel {
                        tap: BUILD_TAP_NAME@,
                        api_sock: api_sock_of(BUILD_TAP_NAME@),
                        host_ip: link.0,
                        guest_ip: link.1,
                        guest_base: ""@,
                        bin: spec.cfg.bin@,
                        argv: fc_argv(
                            wrap,
                            bounds_of(*spec.cfg),
                            FcKind::Build,
                            BUILD_SCOPE_ID_NAME@,
                            spec.cfg.bin@,
                            api_sock_of(BUILD_TAP_NAME@),
                        ),
                        scope: fc_scope(wrap, BUILD_SCOPE_ID_NAME@),
                        calls: build_calls(*spec.cfg, spec.rootfs@, spec.scratch@, spec.cache@, link),
                        image_ref: None,
                        env_hash: None,
                    },
                ),
            },
        }
    }
}

/// Plans the build VM. The flags say whether KVM, a scope and the three disk
/// images are there.
pub fn run_build_vm(kvm: bool, wrap: bool, spec: &BuildVmSpec, have_rootfs: bool, have_scratch: bool, have_cache: bool) -> (r: Result<
    VmPlan,
    LaunchFault,
>)
    ensures
        plan_view(r) == build_plan(kvm, wrap, *spec, have_rootfs, have_scratch, have_cache),
{
    if !kvm {
        return Err(LaunchFault::NoBuildKvm);
    }
    if !have_rootfs {
        return Err(LaunchFault::ImageMissing("rootfs".to_owned(), spec.rootfs.to_owned()));
    }
    if !have_scratch {
        return Err(LaunchFault::ImageMissing("scratch".to_owned(), spec.scratch.to_owned()));
    }
    if !have_cache {
        return Err(LaunchFault::ImageMissing("cache".to_owned(), spec.cache.to_owned()));
    }
    let (host_ip, guest_ip) = match launch_link(&spec.cfg.tap_subnet, BUILD_SEQ) {
        Ok(pair) => pair,
        Err(f) => return Err(f),
    };
    let mac = derive_guest_mac(BUILD_SEQ);
    let api_sock = api_sock_for_tap(BUILD_TAP_NAME);
    let spawn = spawn_firecracker(wrap, spec.cfg, FcKind::Build, BUILD_SCOPE_ID_NAME, &api_sock);
    let g = ipv4_to_text(guest_ip);
    let h = ipv4_to_text(host_ip);
    let mut calls: Vec<ApiCall> = Vec::new();
    calls.push(put_call("/machine-config", machine_config_body(BUILD_VCPUS, BUILD_MEM_MIB)));
    calls.push(put_call("/boot-source", boot_source_body(&spec.cfg.kernel, &g, &h)));
    calls.push(put_call("/drives/rootfs", rootfs_drive_body(spec.rootfs, false)));
    calls.push(put_call("/drives/scratch", aux_drive_body("scratch", spec.scratch, false)));
    calls.push(put_call("/drives/cache", aux_drive_body("cache", spec.cache, false)));
    calls.push(put_call("/network-interfaces/eth0", network_iface_body(BUILD_TAP_NAME, &mac)));
    calls.push(make_start_call());
    assert(calls_view(calls@) =~= build_calls(
        *spec.cfg,
        spec.rootfs@,
        spec.scratch@,
        spec.cache@,
        (host_ip as nat, guest_ip as nat),
    ));
    Ok(
        VmPlan {
            tap: BUILD_TAP_NAME.to_owned(),
            api_sock,
            host_ip,
            guest_ip,
            guest_base: "".to_owned(),
            bin: spec.cfg.bin.as_str().to_owned(),
            spawn,
            calls,
            image_ref: None,
            env_hash: None,
        },
    )
}

// ---- what is said of a run that failed --------------------------------------------

/// What is said of a run that failed there; `detail` is what the host says.
pub open spec fn run_fault_text(kind: VmKind, p: PlanModel, fault: VmFault, detail: Seq<char>) -> Seq<char> {
    match fault {
        VmFault::Tap(i) => if kind == VmKind::Build {
            "build VM tap setup (need CAP_NET_ADMIN/root)"@
        } else if i == 0 {
            "ip tuntap add "@ + p.tap
        } else if i == 1 {
            "ip addr add "@ + ipv4_text(p.host_ip) + "/30 dev "@ + p.tap
        } else {
            "ip link set "@ + p.tap + " up"@
        },
        VmFault::Spawn => match p.scope {
            Some(s) => "spawn firecracker under systemd scope "@ + s + " (systemd-run wrapping "@ + p.bin + ")"@,
            None => "spawn firecracker binary "@ + debug_quoted(p.bin) + " (no systemd scope)"@,
        },
        VmFault::Socket => if kind == VmKind::Build {
            "firecracker API socket never appeared at "@ + p.api_sock
        } else {
            "firecracker API socket "@ + p.api_sock + " never appeared"@
        },
        VmFault::Call(i) => if i < p.calls.len() {
            p.calls[i as int].label
        } else {
            "PUT"@
        },
        VmFault::Ready => "guest app at "@ + p.guest_base + " never became ready: "@ + detail,
        VmFault::Exit => "wait on build VM: "@ + detail,
        VmFault::Timeout => "build timed out after "@ + decimal(BUILD_VM_TIMEOUT as nat) + "s (VM killed)"@,
    }
}

impl VmPlan {
    /// What is said of a run of the plan that failed there.
    pub fn fault_message(&self, kind: VmKind, fault: VmFault, detail: &str) -> (r: String)
        ensures
            r@ == run_fault_text(kind, self@, fault, detail@),
    {
        match fault {
            VmFault::Tap(i) => if kind == VmKind::Build {
                "build VM tap setup (need CAP_NET_ADMIN/root)".to_owned()
            } else if i == 0 {
                concat2("ip tuntap add ", &self.tap)
            } else if i == 1 {
                let ip = ipv4_to_text(self.host_ip);
                let mut out = concat3("ip addr add ", &ip, "/30 dev ");
                out.append(&self.tap);
                out
            } else {
                concat3("ip link set ", &self.tap, " up")
            },
            VmFault::Spawn => match &self.spawn.scope {
                Some(s) => {
                    let mut out = concat3("spawn firecracker under systemd scope ", s, " (systemd-run wrapping ");
                    out.append(&self.bin);
                    out.append(")");
                    out
                },
                None => {
                    let quoted = debug_text(&self.bin);
                    concat3("spawn firecracker binary ", &quoted, " (no systemd scope)")
                },
            },
            VmFault::Socket => if kind == VmKind::Build {
                concat2("firecracker API socket never appeared at ", &self.api_sock)
            } else {
                concat3("firecracker API socket ", &self.api_sock, " never appeared")
            },
            VmFault::Call(i) => if i < self.calls.len() {
                self.calls[i].label.as_str().to_owned()
            } else {
                "PUT".to_owned()
            },
            VmFault::Ready => {
                let mut out = concat3("guest app at ", &self.guest_base, " never became ready: ");
                out.append(detail);
                out
            },
            VmFault::Exit => concat2("wait on build VM: ", detail),
            VmFault::Timeout => {
                let mut out = "build timed out after ".to_owned();
                push_decimal(&mut out, BUILD_VM_TIMEOUT);
                out.append("s (VM killed)");
                out
            },
        }
    }
}

} // verus!
