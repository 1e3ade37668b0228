//! What a VM is after the API calls of its plan: a model of the API, and what
//! the plans make of it.
use vstd::prelude::*;
use crate::config::FcConfig;
use crate::firecracker::cpu_scope::{scope_of, scope_options, CpuScopeCfg, FcKind};
use crate::firecracker::guest_nat::tap_commands;
use crate::firecracker::identity::{api_sock_of, preferred};
use crate::firecracker::pidfile::api_sock_in;
use crate::firecracker::snapshot::CacheModel;
use crate::firecracker::subnet::{guest_mac, ipv4_value, is_ipv4};
use crate::firecracker::vm_plan::{build_plan, cold_plan, fc_argv, fc_scope, run_fault_text, warm_plan, BuildVmSpec, CallModel, PlanModel};
use crate::firecracker::vm_run::{VmFault, VmKind};
use crate::ipv4::ipv4_text;
use crate::json::{member, JsonModel};
use crate::manifest::Runtime;
use crate::number::decimal;
use crate::path::{file_name, joined, last_segment, last_segment_bounds};
use crate::text::{begins_with, ends_in, joined_with, up_to_char};
use crate::words::find_word_unique;

verus! {

/// A VM as its API sees it: what was put where, whether it runs, and whether
/// a call came that it refuses.
#[verifier::ext_equal]
pub struct Machine {
    pub parts: Map<Seq<char>, JsonModel>,
    pub running: bool,
    pub refused: bool,
}

/// A VM that nothing was put in yet.
pub open spec fn blank_machine() -> Machine {
    Machine { parts: Map::empty(), running: false, refused: false }
}

/// The VM after one call. One that runs takes no further part; an action
/// starts it, and so does a snapshot that is to be resumed.
pub open spec fn machine_after(m: Machine, c: CallModel) -> Machine {
    if m.running {
        Machine { refused: true, ..m }
    } else if c.path == "/actions"@ {
        if member(c.body, "action_type"@) == Some(JsonModel::Text("InstanceStart"@)) {
            Machine { running: true, ..m }
        } else {
            Machine { refused: true, ..m }
        }
    } else if c.path == "/snapshot/load"@ {
        Machine {
            parts: m.parts.insert(c.path, c.body),
            running: member(c.body, "resume_vm"@) == Some(JsonModel::Bool(true)),
            ..m
        }
    } else {
        Machine { parts: m.parts.insert(c.path, c.body), ..m }
    }
}

/// The VM after the first `n` calls.
pub open spec fn machine_upto(calls: Seq<CallModel>, n: nat) -> Machine
    decreases n,
{
    if n == 0 {
        blank_machine()
    } else {
        machine_after(machine_upto(calls, (n - 1) as nat), calls[n - 1])
    }
}

/// The VM that a plan makes.
pub open spec fn machine_of(p: PlanModel) -> Machine {
    machine_upto(p.calls, p.calls.len())
}

/// What was put there under that key.
pub open spec fn part(m: Machine, path: Seq<char>, key: Seq<char>) -> Option<JsonModel> {
    if m.parts.dom().contains(path) {
        member(m.parts[path], key)
    } else {
        None
    }
}

/// Does the VM have that disk?
pub open spec fn has_disk(m: Machine, path: Seq<char>, id: Seq<char>, image: Seq<char>, root: bool) -> bool {
    &&& part(m, path, "drive_id"@) == Some(JsonModel::Text(id))
    &&& part(m, path, "path_on_host"@) == Some(JsonModel::Text(image))
    &&& part(m, path, "is_root_device"@) == Some(JsonModel::Bool(root))
    &&& part(m, path, "is_read_only"@) == Some(JsonModel::Bool(false))
}

/// Does the VM have that size?
pub open spec fn has_size(m: Machine, vcpus: nat, mem_mib: nat) -> bool {
    &&& part(m, "/machine-config"@, "vcpu_count"@) == Some(JsonModel::Number(decimal(vcpus)))
    &&& part(m, "/machine-config"@, "mem_size_mib"@) == Some(JsonModel::Number(decimal(mem_mib)))
}

/// Is the guest told that it has the address `guest`, and the host the address
/// `host`?
pub open spec fn has_kernel(m: Machine, kernel: Seq<char>, guest: nat, host: nat) -> bool {
    &&& part(m, "/boot-source"@, "kernel_image_path"@) == Some(JsonModel::Text(kernel))
    &&& part(m, "/boot-source"@, "boot_args"@) matches Some(JsonModel::Text(args)) && ends_in(
        args,
        " ip="@ + ipv4_text(guest) + "::"@ + ipv4_text(host) + ":255.255.255.252::eth0:off"@,
    )
}

/// Is the guest's interface that TAP?
pub open spec fn has_interface(m: Machine, tap: Seq<char>, mac: Seq<char>) -> bool {
    &&& part(m, "/network-interfaces/eth0"@, "iface_id"@) == Some(JsonModel::Text("eth0"@))
    &&& part(m, "/network-interfaces/eth0"@, "host_dev_name"@) == Some(JsonModel::Text(tap))
    &&& part(m, "/network-interfaces/eth0"@, "guest_mac"@) == Some(JsonModel::Text(mac))
}

/// Does the process of the plan listen on the plan's socket, and run its
/// binary?
pub open spec fn listens(p: PlanModel, bin: Seq<char>) -> bool {
    let n = p.argv.len();
    &&& n >= 3
    &&& p.argv[n - 3] == bin
    &&& p.argv[n - 2] == "--api-sock"@
    &&& p.argv[n - 1] == p.api_sock
    &&& p.api_sock == "/tmp/firecracker-"@ + p.tap + ".sock"@
    &&& p.bin == bin
    &&& n == 3 <==> p.scope is None
}

/// Is the plan's link number `slot` of the subnet?
pub open spec fn has_link(p: PlanModel, subnet: Seq<char>, slot: nat) -> bool {
    &&& p.host_ip == ipv4_value(up_to_char(subnet, '/')) + 4 * slot + 1
    &&& p.guest_ip == p.host_ip + 1
}

/// The keys of each body are different ones.
proof fn keys_differ()
    ensures
        "vcpu_count"@.len() == 10,
        "mem_size_mib"@.len() == 12,
        "smt"@.len() == 3,
        "kernel_image_path"@.len() == 17,
        "boot_args"@.len() == 9,
        "drive_id"@.len() == 8,
        "path_on_host"@.len() == 12,
        "path_on_host"@[0] == 'p',
        "is_root_device"@.len() == 14,
        "is_read_only"@.len() == 12,
        "is_read_only"@[0] == 'i',
        "iface_id"@.len() == 8,
        "host_dev_name"@.len() == 13,
        "guest_mac"@.len() == 9,
        "snapshot_path"@.len() == 13,
        "mem_backend"@.len() == 11,
        "resume_vm"@.len() == 9,
        "backend_path"@.len() == 12,
        "backend_path"@[8] == 'p',
        "backend_type"@.len() == 12,
        "backend_type"@[8] == 't',
{
    reveal_strlit("vcpu_count");
    reveal_strlit("mem_size_mib");
    reveal_strlit("smt");
    reveal_strlit("kernel_image_path");
    reveal_strlit("boot_args");
    reveal_strlit("drive_id");
    reveal_strlit("path_on_host");
    reveal_strlit("is_root_device");
    reveal_strlit("is_read_only");
    reveal_strlit("iface_id");
    reveal_strlit("host_dev_name");
    reveal_strlit("guest_mac");
    reveal_strlit("snapshot_path");
    reveal_strlit("mem_backend");
    reveal_strlit("resume_vm");
    reveal_strlit("backend_path");
    reveal_strlit("backend_type");
}

/// The paths of the calls are different ones.
proof fn paths_differ()
    ensures
        "/machine-config"@.len() == 15,
        "/machine-config"@[1] == 'm',
        "/boot-source"@.len() == 12,
        "/boot-source"@[1] == 'b',
        "/drives/rootfs"@.len() == 14,
        "/drives/rootfs"@[1] == 'd',
        "/drives/data"@.len() == 12,
        "/drives/data"@[1] == 'd',
        "/drives/scratch"@.len() == 15,
        "/drives/scratch"@[1] == 'd',
        "/drives/cache"@.len() == 13,
        "/network-interfaces/eth0"@.len() == 24,
        "/actions"@.len() == 8,
        "/snapshot/load"@.len() == 14,
        "/snapshot/load"@[1] == 's',
{
    reveal_strlit("/machine-config");
    reveal_strlit("/boot-source");
    reveal_strlit("/drives/rootfs");
    reveal_strlit("/drives/data");
    reveal_strlit("/drives/scratch");
    reveal_strlit("/drives/cache");
    reveal_strlit("/network-interfaces/eth0");
    reveal_strlit("/actions");
    reveal_strlit("/snapshot/load");
}

/// The kernel command line ends with the guest's address.
proof fn args_end_with_address(args: Seq<char>, guest: Seq<char>, host: Seq<char>)
    requires
        args == "console=ttyS0 reboot=k panic=1 pci=off root=/dev/vda rw init=/init ip="@ + guest + "::"@ + host
            + ":255.255.255.252::eth0:off"@,
    ensures
        ends_in(args, " ip="@ + guest + "::"@ + host + ":255.255.255.252::eth0:off"@),
{
    reveal_strlit("console=ttyS0 reboot=k panic=1 pci=off root=/dev/vda rw init=/init ip=");
    reveal_strlit(" ip=");
    let head = "console=ttyS0 reboot=k panic=1 pci=off root=/dev/vda rw init=/init ip="@;
    let want = " ip="@ + guest + "::"@ + host + ":255.255.255.252::eth0:off"@;
    let n = args.len() - want.len();
    assert(n == head.len() - 4);
    assert(args.skip(n) =~= want);
}

/// The VM of a cold boot runs once all its calls are made, and none of them
/// is refused. It has the size and the kernel of the app, or those configured;
/// its root disk is the root file system, its data disk the app's, and it may
/// write to both; its interface is the plan's TAP, and the guest's end of the
/// plan's link is its address, at which its app is reached. A snapshot of it
/// is stamped as it was asked.
#[verifier::rlimit(40)]
pub proof fn law_cold_boot_makes_the_machine(
    kvm: bool,
    wrap: bool,
    rootfs: Seq<char>,
    rootfs_is_file: bool,
    rt: Runtime,
    cfg: FcConfig,
    app_port: u16,
    vm_key: Seq<char>,
    data_disk: Option<Seq<char>>,
    image_ref: Option<Seq<char>>,
    env_hash: Option<Seq<char>>,
)
    ensures
        cold_plan(kvm, wrap, rootfs, rootfs_is_file, rt, cfg, app_port, vm_key, data_disk, image_ref, env_hash) matches Ok(p) ==> {
            let m = machine_of(p);
            &&& kvm && rootfs_is_file
            &&& m.running && !m.refused
            &&& has_size(
                m,
                if rt.vcpus is Some {
                    rt.vcpus->Some_0 as nat
                } else {
                    cfg.vcpus as nat
                },
                rt.memory_mb as nat,
            )
            &&& has_kernel(
                m,
                if rt.kernel is Some {
                    rt.kernel->Some_0@
                } else {
                    cfg.kernel@
                },
                p.guest_ip,
                p.host_ip,
            )
            &&& has_disk(m, "/drives/rootfs"@, "rootfs"@, rootfs, true)
            &&& data_disk is Some ==> has_disk(m, "/drives/data"@, "data"@, data_disk->Some_0, false)
            &&& data_disk is None ==> !m.parts.dom().contains("/drives/data"@)
            &&& has_interface(m, p.tap, guest_mac(preferred(vm_key)))
            &&& has_link(p, cfg.tap_subnet@, preferred(vm_key))
            &&& p.guest_base == "http://"@ + ipv4_text(p.guest_ip) + ":"@ + decimal(app_port as nat)
            &&& listens(p, cfg.bin@)
            &&& p.scope is Some <==> wrap
            &&& p.image_ref == image_ref && p.env_hash == env_hash
        },
{
    let r = cold_plan(kvm, wrap, rootfs, rootfs_is_file, rt, cfg, app_port, vm_key, data_disk, image_ref, env_hash);
    if let Ok(p) = r {
        keys_differ();
        paths_differ();
        reveal_with_fuel(machine_upto, 7);
        let k = p.calls;
        let m2 = machine_upto(k, 2);
        assert(part(m2, "/boot-source"@, "boot_args"@) is Some);
        args_end_with_address(part(m2, "/boot-source"@, "boot_args"@)->Some_0->Text_0, ipv4_text(p.guest_ip), ipv4_text(p.host_ip));
        if data_disk is Some {
            assert(k.len() == 6);
            assert(k[5].path == "/actions"@);
        } else {
            assert(k.len() == 5);
            assert(k[4].path == "/actions"@);
        }
    }
}

/// The VM of a warm start is loaded from the two files of the snapshot and
/// runs after the one call. Its link is the one of its key, its app is reached
/// at the guest's end, and it keeps the stamps of its snapshot.
pub proof fn law_warm_start_makes_the_machine(
    kvm: bool,
    wrap: bool,
    cache_dir: Seq<char>,
    cache: CacheModel,
    cfg: FcConfig,
    vm_key: Seq<char>,
    app_port: u16,
)
    ensures
        warm_plan(kvm, wrap, cache_dir, cache, cfg, vm_key, app_port) matches Ok(p) ==> {
            let m = machine_of(p);
            &&& kvm
            &&& m.running && !m.refused
            &&& part(m, "/snapshot/load"@, "snapshot_path"@) == Some(JsonModel::Text(joined(cache_dir, "snap.vmstate"@)))
            &&& part(m, "/snapshot/load"@, "mem_backend"@) matches Some(backend) && member(backend, "backend_path"@) == Some(
                JsonModel::Text(joined(cache_dir, "snap.mem"@)),
            ) && member(backend, "backend_type"@) == Some(JsonModel::Text("File"@))
            &&& has_link(p, cfg.tap_subnet@, preferred(vm_key))
            &&& p.guest_base == "http://"@ + ipv4_text(p.guest_ip) + ":"@ + decimal(app_port as nat)
            &&& listens(p, cfg.bin@)
            &&& p.scope is Some <==> wrap
            &&& p.image_ref == cache.snapshot_ref && p.env_hash == cache.snapshot_env
        },
{
    let r = warm_plan(kvm, wrap, cache_dir, cache, cfg, vm_key, app_port);
    if let Ok(p) = r {
        keys_differ();
        paths_differ();
        reveal_with_fuel(machine_upto, 3);
        assert(p.calls.len() == 1);
    }
}

/// The build VM runs once all its calls are made, and none of them is refused.
/// It has two vCPUs and two gibibytes, the toolchain as its root disk, and may
/// write to that, the scratch disk and the build cache; its TAP and its link
/// are its own, and nothing of it is ever stamped.
#[verifier::rlimit(40)]
pub proof fn law_build_makes_the_machine(
    kvm: bool,
    wrap: bool,
    build: BuildVmSpec,
    have_rootfs: bool,
    have_scratch: bool,
    have_cache: bool,
)
    ensures
        build_plan(kvm, wrap, build, have_rootfs, have_scratch, have_cache) matches Ok(p) ==> {
            let m = machine_of(p);
            &&& kvm && have_rootfs && have_scratch && have_cache
            &&& m.running && !m.refused
            &&& has_size(m, 2, 2048)
            &&& has_kernel(m, build.cfg.kernel@, p.guest_ip, p.host_ip)
            &&& has_disk(m, "/drives/rootfs"@, "rootfs"@, build.rootfs@, true)
            &&& has_disk(m, "/drives/scratch"@, "scratch"@, build.scratch@, false)
            &&& has_disk(m, "/drives/cache"@, "cache"@, build.cache@, false)
            &&& has_interface(m, p.tap, guest_mac(16382))
            &&& has_link(p, build.cfg.tap_subnet@, 16382)
            &&& p.tap == "fc-bld0"@
            &&& listens(p, build.cfg.bin@)
            &&& p.scope is Some <==> wrap
            &&& p.image_ref is None && p.env_hash is None
        },
{
    let r = build_plan(kvm, wrap, build, have_rootfs, have_scratch, have_cache);
    if let Ok(p) = r {
        keys_differ();
        paths_differ();
        reveal_with_fuel(machine_upto, 8);
        let k = p.calls;
        assert(k.len() == 7);
        let m2 = machine_upto(k, 2);
        assert(part(m2, "/boot-source"@, "boot_args"@) is Some);
        args_end_with_address(part(m2, "/boot-source"@, "boot_args"@)->Some_0->Text_0, ipv4_text(p.guest_ip), ipv4_text(p.host_ip));
        assert(k[6].path == "/actions"@);
    }
}

/// A name without a slash is the name of its file.
proof fn plain_name(name: Seq<char>)
    requires
        name.len() > 2,
        forall|i: int| 0 <= i < name.len() ==> name[i] != '/',
    ensures
        file_name(name) == Some(name),
{
    last_segment_bounds(name);
    assert(last_segment(name) =~= name);
    assert(last_segment(name).len() > 2);
}

/// A process that was spawned for a VM is recognised by its command line,
/// bare or in a scope, and its API socket is found in it.
pub proof fn law_spawned_is_recognised(wrap: bool, cfg: CpuScopeCfg, kind: FcKind, id: Seq<char>, bin: Seq<char>, tap: Seq<char>)
    requires
        file_name(bin) == Some("firecracker"@),
    ensures
        api_sock_in(fc_argv(wrap, cfg, kind, id, bin, api_sock_of(tap))) == Some(api_sock_of(tap)),
{
    let sock = api_sock_of(tap);
    let argv = fc_argv(wrap, cfg, kind, id, bin, sock);
    reveal_strlit("--");
    reveal_strlit("--api-sock");
    reveal_strlit("systemd-run");
    reveal_strlit("firecracker");
    reveal_strlit("--scope");
    reveal_strlit("--collect");
    reveal_strlit("--unit=");
    reveal_strlit("--slice=");
    reveal_strlit("-p");
    reveal_strlit("CPUQuota=");
    reveal_strlit("CPUWeight=");
    plain_name("systemd-run"@);
    plain_name("--api-sock"@);
    assert(bin != "--api-sock"@);
    let front = "/tmp/firecracker-"@;
    let back = ".sock"@;
    assert(sock.take(front.len() as int) =~= front);
    assert(sock.skip(sock.len() - back.len()) =~= back);
    if wrap {
        let opts = scope_options(scope_of(id), cfg, kind);
        assert(argv.len() == 13);
        assert forall|j: int| 0 <= j < 10 implies argv[j] == opts[j] by {}
        assert(argv[10] == bin && argv[11] == "--api-sock"@ && argv[12] == sock);
        assert(opts[1].len() == 7 && opts[2].len() == 9);
        assert(opts[3].len() >= 7 && opts[3][2] == 'u');
        assert(opts[4].len() >= 8 && opts[4][2] == 's');
        assert(opts[6].len() >= 9 && opts[6][0] == 'C');
        assert(opts[8].len() >= 9 && opts[8][0] == 'C');
        assert("--api-sock"@[2] == 'a' && "--api-sock"@[0] == '-' && "--api-sock"@.len() == 10);
        assert(opts[0].len() == 11);
        assert(opts[5] == "-p"@ && opts[7] == "-p"@ && "-p"@[1] == 'p' && "--"@[1] == '-');
        assert forall|j: int| 0 <= j < 9 implies argv[j] != "--"@ by {}
        find_word_unique(argv, "--"@, 9);
        assert forall|j: int| 0 <= j < 11 implies argv[j] != "--api-sock"@ by {}
        find_word_unique(argv, "--api-sock"@, 11);
    } else {
        assert(argv.len() == 3);
        find_word_unique(argv, "--api-sock"@, 1);
    }
}

/// Is there room for link number `slot` behind the address in front of the
/// subnet's slash?
pub open spec fn has_room(subnet: Seq<char>, slot: nat) -> bool {
    is_ipv4(up_to_char(subnet, '/')) && ipv4_value(up_to_char(subnet, '/')) + 4 * slot + 2 <= u32::MAX
}

/// A VM is planned exactly where the host can run it, its images are there and
/// its subnet has its link; a warm start needs no image.
pub proof fn law_when_there_is_a_plan(
    kvm: bool,
    wrap: bool,
    rootfs: Seq<char>,
    rootfs_is_file: bool,
    rt: Runtime,
    cfg: FcConfig,
    app_port: u16,
    vm_key: Seq<char>,
    data_disk: Option<Seq<char>>,
    stamps: (Option<Seq<char>>, Option<Seq<char>>),
    cache_dir: Seq<char>,
    cache: CacheModel,
    build: BuildVmSpec,
    have_scratch: bool,
    have_cache: bool,
)
    ensures
        cold_plan(kvm, wrap, rootfs, rootfs_is_file, rt, cfg, app_port, vm_key, data_disk, stamps.0, stamps.1) is Ok <==> kvm
            && rootfs_is_file && has_room(cfg.tap_subnet@, preferred(vm_key)),
        warm_plan(kvm, wrap, cache_dir, cache, cfg, vm_key, app_port) is Ok <==> kvm && has_room(cfg.tap_subnet@, preferred(vm_key)),
        build_plan(kvm, wrap, build, rootfs_is_file, have_scratch, have_cache) is Ok <==> kvm && rootfs_is_file && have_scratch && have_cache
            && has_room(build.cfg.tap_subnet@, 16382),
{
}

/// Where making the TAP failed, the command that failed is told, word for word
/// from its beginning; where an API call failed, the call; and what the host
/// says stands at the end.
pub proof fn law_what_is_told_of_a_failed_run(kind: VmKind, p: PlanModel, i: nat, detail: Seq<char>)
    requires
        kind != VmKind::Build,
        i < p.calls.len() <= usize::MAX,
    ensures
        begins_with(
            "ip "@ + joined_with(tap_commands(p.tap, p.host_ip)[0], " "@),
            run_fault_text(kind, p, VmFault::Tap(0), detail),
        ),
        run_fault_text(kind, p, VmFault::Tap(1), detail) == "ip "@ + joined_with(tap_commands(p.tap, p.host_ip)[1], " "@),
        run_fault_text(kind, p, VmFault::Tap(2), detail) == "ip "@ + joined_with(tap_commands(p.tap, p.host_ip)[2], " "@),
        run_fault_text(kind, p, VmFault::Call(i as usize), detail) == p.calls[i as int].label,
        ends_in(run_fault_text(kind, p, VmFault::Ready, detail), ": "@ + detail),
        ends_in(run_fault_text(VmKind::Build, p, VmFault::Exit, detail), ": "@ + detail),
{
    reveal_strlit(": ");
    reveal_strlit(" never became ready: ");
    reveal_strlit("wait on build VM: ");
    adding_told(p.tap);
    address_told(p.tap, ipv4_text(p.host_ip));
    raising_told(p.tap);
    let back = ": "@ + detail;
    let ready = run_fault_text(kind, p, VmFault::Ready, detail);
    assert(ready.skip(ready.len() - back.len()) =~= back);
    let exit = run_fault_text(VmKind::Build, p, VmFault::Exit, detail);
    assert(exit.skip(exit.len() - back.len()) =~= back);
}

/// What is told of the command that adds a TAP is its beginning.
proof fn adding_told(tap: Seq<char>)
    ensures
        begins_with("ip "@ + joined_with(seq!["tuntap"@, "add"@, tap, "mode"@, "tap"@], " "@), "ip tuntap add "@ + tap),
{
    let c = seq!["tuntap"@, "add"@, tap, "mode"@, "tap"@];
    joined_words(c);
    reveal_strlit("ip ");
    reveal_strlit(" ");
    reveal_strlit("tuntap");
    reveal_strlit("add");
    reveal_strlit("ip tuntap add ");
    let front = "ip "@ + "tuntap"@ + " "@ + "add"@ + " "@;
    assert(front =~= "ip tuntap add "@);
    let told = "ip tuntap add "@ + tap;
    let all = "ip "@ + joined_with(c, " "@);
    assert(all =~= front + tap + (" "@ + "mode"@ + " "@ + "tap"@));
    assert(all.take(told.len() as int) =~= told);
}

/// What is told of the command that gives a TAP its address is the command.
proof fn address_told(tap: Seq<char>, ip: Seq<char>)
    ensures
        "ip addr add "@ + ip + "/30 dev "@ + tap == "ip "@ + joined_with(seq!["addr"@, "add"@, ip + "/30"@, "dev"@, tap], " "@),
{
    let c = seq!["addr"@, "add"@, ip + "/30"@, "dev"@, tap];
    joined_words(c);
    reveal_strlit("ip ");
    reveal_strlit(" ");
    reveal_strlit("addr");
    reveal_strlit("add");
    reveal_strlit("/30");
    reveal_strlit("dev");
    reveal_strlit("ip addr add ");
    reveal_strlit("/30 dev ");
    let front = "ip "@ + "addr"@ + " "@ + "add"@ + " "@;
    assert(front =~= "ip addr add "@);
    let mid = "/30"@ + " "@ + "dev"@ + " "@;
    assert(mid =~= "/30 dev "@);
    assert("ip "@ + joined_with(c, " "@) =~= front + ip + mid + tap);
}

/// What is told of the command that raises a TAP is the command.
proof fn raising_told(tap: Seq<char>)
    ensures
        "ip link set "@ + tap + " up"@ == "ip "@ + joined_with(seq!["link"@, "set"@, tap, "up"@], " "@),
{
    let c = seq!["link"@, "set"@, tap, "up"@];
    joined_four(c);
    reveal_strlit("ip ");
    reveal_strlit(" ");
    reveal_strlit("link");
    reveal_strlit("set");
    reveal_strlit("up");
    reveal_strlit(" up");
    reveal_strlit("ip link set ");
    let front = "ip "@ + "link"@ + " "@ + "set"@ + " "@;
    assert(front =~= "ip link set "@);
    let back = " "@ + "up"@;
    assert(back =~= " up"@);
    assert("ip "@ + joined_with(c, " "@) =~= front + tap + back);
}

/// Five words one after the other.
proof fn joined_words(w: Seq<Seq<char>>)
    requires
        w.len() == 5,
    ensures
        joined_with(w, " "@) == w[0] + " "@ + w[1] + " "@ + w[2] + " "@ + w[3] + " "@ + w[4],
{
    joined_four(w.drop_last());
}

/// Four words one after the other.
proof fn joined_four(w: Seq<Seq<char>>)
    requires
        w.len() == 4,
    ensures
        joined_with(w, " "@) == w[0] + " "@ + w[1] + " "@ + w[2] + " "@ + w[3],
{
    let c = w.drop_last();
    let b = c.drop_last();
    let a = b.drop_last();
    assert(joined_with(a, " "@) == w[0]);
    assert(joined_with(b, " "@) == w[0] + " "@ + w[1]);
    assert(joined_with(c, " "@) == w[0] + " "@ + w[1] + " "@ + w[2]);
}

/// The scope that is stopped to take a VM down is the unit that it was spawned
/// in, and a VM that was spawned bare has none.
pub proof fn law_stopped_is_what_was_spawned(wrap: bool, cfg: CpuScopeCfg, kind: FcKind, id: Seq<char>, bin: Seq<char>, sock: Seq<char>)
    ensures
        wrap ==> fc_scope(wrap, id) is Some && fc_argv(wrap, cfg, kind, id, bin, sock)[3] == "--unit="@ + fc_scope(wrap, id)->Some_0,
        !wrap ==> fc_scope(wrap, id) is None && fc_argv(wrap, cfg, kind, id, bin, sock) == seq![bin, "--api-sock"@, sock],
{
    if !wrap {
        assert(fc_argv(wrap, cfg, kind, id, bin, sock) =~= seq![bin, "--api-sock"@, sock]);
    }
}

} // verus!
