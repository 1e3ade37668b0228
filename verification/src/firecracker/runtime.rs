//! An app's microVM: how it is launched, where it is reached, how it is taken
//! down.
use vstd::prelude::*;
use crate::config::FcConfig;
use crate::firecracker::cred_restore::needs_cred_restore;
use crate::firecracker::launch::{
    cache_at_launch, guest_addr, guest_broker_ctrl_addr, guest_code_addr, guest_ssh_addr, launch_with_uuid, restores, vm_key,
    CODE_SERVICE_PORT, GUEST_BROKER_CTRL_PORT, GUEST_SSH_PORT, LaunchMode, LaunchStart,
};
use crate::firecracker::live_snapshot::{snap_start, SnapRun};
use crate::firecracker::pidfile::{named_pid, PidFile};
use crate::firecracker::snapshot::{app_dir, cache_dir, CacheDir, CacheModel};
use crate::firecracker::stateful::stateful_data_disk;
use crate::firecracker::protocol::{port_of, workspace_or_resolved_port};
use crate::firecracker::vm_plan::{
    cold_boot, cold_plan, launch, launch_from_snapshot, warm_plan, LaunchFault, LaunchFaultModel, PlanModel, VmPlan,
};
use crate::firecracker::vm_run::{run_start, VmAction, VmKind, VmRun};
use crate::manifest::Runtime;
use crate::path::joined;
use crate::runtime::{guest_health, RuntimeHealth};
use crate::text::opt_text;

verus! {

/// What a launch needs to know of the host.
#[derive(Debug, Clone, Copy, PartialEq, Eq, Structural)]
pub struct HostFacts {
    /// Is there KVM?
    pub kvm: bool,
    /// Do processes run in a scope?
    pub wrap: bool,
    /// Is the root file system there?
    pub rootfs_is_file: bool,
}

/// A microVM, coming up or serving.
#[derive(Debug)]
pub struct FirecrackerRuntime {
    /// What it takes to bring it up.
    pub plan: VmPlan,
    /// How far that has come.
    pub run: VmRun,
    /// Where its snapshots go; nowhere for a VM that belongs to no app.
    pub snapshot_cache_dir: Option<String>,
    /// Is it a workspace?
    pub is_workspace: bool,
}

/// What a launch came to, with its texts as sequences of characters: which
/// way the VM comes up, and the plan.
pub open spec fn launched(r: Result<FirecrackerRuntime, LaunchFault>) -> Result<(VmKind, PlanModel), LaunchFaultModel> {
    match r {
        Ok(vm) => Ok((vm.run.kind, vm.plan@)),
        Err(f) => Err(f@),
    }
}

/// The port of a launch: a workspace always has the configured one.
pub open spec fn launch_port(is_workspace: bool, rt: Runtime, image_port: Option<u16>, cfg: FcConfig) -> u16 {
    if is_workspace {
        cfg.app_port
    } else {
        port_of(rt.port, image_port, cfg.app_port)
    }
}

/// The data disk of an app, where it has one.
pub open spec fn data_disk_of(data_dir: Seq<char>, uuid: Seq<char>, rt: Runtime) -> Option<Seq<char>> {
    if rt.stateful {
        Some(joined(app_dir(data_dir, uuid), "data.ext4"@))
    } else {
        None
    }
}

/// The plan of an app's cold boot.
pub open spec fn app_cold_plan(
    host: HostFacts,
    rootfs: Seq<char>,
    rt: Runtime,
    cfg: FcConfig,
    app_port: u16,
    uuid: Seq<char>,
    reff: Seq<char>,
    data_dir: Seq<char>,
    env_hash: Seq<char>,
) -> Result<PlanModel, LaunchFaultModel> {
    cold_plan(
        host.kvm,
        host.wrap,
        rootfs,
        host.rootfs_is_file,
        rt,
        cfg,
        app_port,
        uuid + ":"@ + reff,
        data_disk_of(data_dir, uuid, rt),
        Some(reff),
        Some(env_hash),
    )
}

/// The plan of an app's launch: of its warm start where it may restore and can
/// be planned, else of its cold boot.
pub open spec fn app_plan(
    host: HostFacts,
    rootfs: Seq<char>,
    rt: Runtime,
    cfg: FcConfig,
    app_port: u16,
    uuid: Seq<char>,
    reff: Seq<char>,
    data_dir: Seq<char>,
    env_hash: Seq<char>,
    cache: CacheModel,
    restoring: bool,
) -> Result<(VmKind, PlanModel), LaunchFaultModel> {
    let warm = warm_plan(
        host.kvm,
        host.wrap,
        joined(app_dir(data_dir, uuid), "cache"@),
        cache,
        cfg,
        uuid + ":"@ + reff,
        app_port,
    );
    if restoring && warm is Ok {
        Ok((VmKind::Warm, warm->Ok_0))
    } else {
        match app_cold_plan(host, rootfs, rt, cfg, app_port, uuid, reff, data_dir, env_hash) {
            Ok(p) => Ok((VmKind::Cold, p)),
            Err(f) => Err(f),
        }
    }
}

impl FirecrackerRuntime {
    /// A VM at the start of its run.
    fn from_plan(kind: VmKind, plan: VmPlan, snapshot_cache_dir: Option<String>, is_workspace: bool) -> (r: Self)
        ensures
            r.plan == plan,
            r.run == run_start(kind, plan.calls@.len() as usize, plan.spawn.scope is Some),
            r.snapshot_cache_dir == snapshot_cache_dir,
            r.is_workspace == is_workspace,
    {
        let scoped: bool = match &plan.spawn.scope {
            Some(_) => true,
            None => false,
        };
        let run = VmRun::new(kind, plan.calls.len(), scoped);
        FirecrackerRuntime { plan, run, snapshot_cache_dir, is_workspace }
    }

    /// Launches a VM that belongs to no app. It never snapshots.
    pub fn launch(host: HostFacts, rootfs: &str, rt: &Runtime, cfg: &FcConfig) -> (r: Result<Self, LaunchFault>)
        ensures
            match cold_plan(
                host.kvm,
                host.wrap,
                rootfs@,
                host.rootfs_is_file,
                *rt,
                *cfg,
                port_of(rt.port, None, cfg.app_port),
                "fc-launch-default"@,
                None,
                None,
                None,
            ) {
                Ok(p) => launched(r) == Ok::<(VmKind, PlanModel), LaunchFaultModel>((VmKind::Cold, p)),
                Err(f) => launched(r) == Err::<(VmKind, PlanModel), LaunchFaultModel>(f),
            },
            r matches Ok(vm) ==> vm.snapshot_cache_dir is None && !vm.is_workspace && vm.run == run_start(
                VmKind::Cold,
                vm.plan.calls@.len() as usize,
                vm.plan.spawn.scope is Some,
            ),
    {
        match launch(host.kvm, host.wrap, rootfs, host.rootfs_is_file, rt, cfg) {
            Ok(plan) => Ok(FirecrackerRuntime::from_plan(VmKind::Cold, plan, None, false)),
            Err(f) => Err(f),
        }
    }

    /// Cold-boots version `reff` of an app.
    pub fn cold_boot(
        host: HostFacts,
        rootfs: &str,
        rt: &Runtime,
        cfg: &FcConfig,
        image_port: Option<u16>,
        uuid: &str,
        reff: &str,
        data_dir: &str,
        env_hash: &str,
        is_workspace: bool,
    ) -> (r: Result<Self, LaunchFault>)
        ensures
            match app_cold_plan(
                host,
                rootfs@,
                *rt,
                *cfg,
                launch_port(is_workspace, *rt, image_port, *cfg),
                uuid@,
                reff@,
                data_dir@,
                env_hash@,
            ) {
                Ok(p) => launched(r) == Ok::<(VmKind, PlanModel), LaunchFaultModel>((VmKind::Cold, p)),
                Err(f) => launched(r) == Err::<(VmKind, PlanModel), LaunchFaultModel>(f),
            },
            r matches Ok(vm) ==> opt_text(vm.snapshot_cache_dir) == Some(joined(app_dir(data_dir@, uuid@), "cache"@)) && vm.is_workspace
                == is_workspace && vm.run == run_start(vm.run.kind, vm.plan.calls@.len() as usize, vm.plan.spawn.scope is Some),
    {
        let key = vm_key(uuid, reff);
        let disk = stateful_data_disk(data_dir, uuid, rt);
        let disk_ref: Option<&str> = match &disk {
            Some(d) => Some(d),
            None => None,
        };
        match cold_boot(
            host.kvm,
            host.wrap,
            rootfs,
            host.rootfs_is_file,
            rt,
            cfg,
            workspace_or_resolved_port(is_workspace, rt, image_port, cfg),
            &key,
            disk_ref,
            Some(reff),
            Some(env_hash),
        ) {
            Ok(plan) => {
                let dir = cache_dir(data_dir, uuid);
                Ok(FirecrackerRuntime::from_plan(VmKind::Cold, plan, Some(dir), is_workspace))
            },
            Err(f) => Err(f),
        }
    }

    /// Launches version `reff` of an app: decides which way the VM comes up,
    /// clears what may not be used, and plans it. The process that is to be
    /// killed first comes with it.
    pub fn launch_with_uuid(
        host: HostFacts,
        rootfs: &str,
        rt: &Runtime,
        cfg: &FcConfig,
        image_port: Option<u16>,
        uuid: &str,
        reff: &str,
        data_dir: &str,
        is_swap: bool,
        is_workspace: bool,
        has_cap_files: bool,
        env_hash: &str,
        cache: &mut CacheDir,
        pid_file: &mut PidFile,
    ) -> (r: (LaunchStart, Result<Self, LaunchFault>))
        ensures
            ({
                let restoring = restores(
                    old(cache)@,
                    reff@,
                    env_hash@,
                    is_swap,
                    rt.stateful,
                    is_workspace && has_cap_files,
                );
                &&& r.0.mode == if restoring {
                    LaunchMode::Warm
                } else {
                    LaunchMode::Cold
                }
                &&& launched(r.1) == app_plan(
                    host,
                    rootfs@,
                    *rt,
                    *cfg,
                    launch_port(is_workspace, *rt, image_port, *cfg),
                    uuid@,
                    reff@,
                    data_dir@,
                    env_hash@,
                    old(cache)@,
                    restoring,
                )
            }),
            r.1 matches Ok(vm) ==> opt_text(vm.snapshot_cache_dir) == Some(joined(app_dir(data_dir@, uuid@), "cache"@))
                && vm.is_workspace == is_workspace && vm.run == run_start(
                vm.run.kind,
                vm.plan.calls@.len() as usize,
                vm.plan.spawn.scope is Some,
            ),
            final(cache)@ == cache_at_launch(old(cache)@, reff@, env_hash@, is_swap, rt.stateful),
            is_swap ==> r.0.stale_pid is None && *final(pid_file) == *old(pid_file),
            !is_swap ==> match r.0.stale_pid {
                Some(pid) => named_pid(opt_text(old(pid_file).contents)) == Some(pid as nat) && final(pid_file).contents is None,
                None => named_pid(opt_text(old(pid_file).contents)) is None && *final(pid_file) == *old(pid_file),
            },
    {
        let needs_creds: bool = needs_cred_restore(is_workspace, has_cap_files);
        let start = launch_with_uuid(cache, pid_file, reff, env_hash, is_swap, rt.stateful, needs_creds);
        match start.mode {
            LaunchMode::Warm => {
                let key = vm_key(uuid, reff);
                let dir = cache_dir(data_dir, uuid);
                let app_port: u16 = workspace_or_resolved_port(is_workspace, rt, image_port, cfg);
                match launch_from_snapshot(host.kvm, host.wrap, &dir, cache, cfg, &key, app_port) {
                    Ok(plan) => {
                        return (start, Ok(FirecrackerRuntime::from_plan(VmKind::Warm, plan, Some(dir), is_workspace)));
                    },
                    Err(_) => {},
                }
            },
            LaunchMode::Cold => {},
        }
        let vm = FirecrackerRuntime::cold_boot(
            host,
            rootfs,
            rt,
            cfg,
            image_port,
            uuid,
            reff,
            data_dir,
            env_hash,
            is_workspace,
        );
        (start, vm)
    }

    /// Where the guest's SSH server is reached.
    pub fn guest_ssh_addr(&self) -> (r: Option<String>)
        ensures
            opt_text(r) == Some(guest_addr(self.plan.guest_ip as nat, GUEST_SSH_PORT as nat)),
    {
        Some(guest_ssh_addr(self.plan.guest_ip))
    }

    /// Where a workspace's code service is reached.
    pub fn guest_code_addr(&self) -> (r: Option<String>)
        ensures
            opt_text(r) == Some(guest_addr(self.plan.guest_ip as nat, CODE_SERVICE_PORT as nat)),
    {
        Some(guest_code_addr(self.plan.guest_ip))
    }

    /// Where a workspace's broker is controlled.
    pub fn guest_broker_ctrl_addr(&self) -> (r: Option<String>)
        ensures
            opt_text(r) == Some(guest_addr(self.plan.guest_ip as nat, GUEST_BROKER_CTRL_PORT as nat)),
    {
        Some(guest_broker_ctrl_addr(self.plan.guest_ip))
    }

    /// Judges one question to the guest app.
    pub fn health(&self, error: Option<&str>) -> (r: RuntimeHealth)
        ensures
            match error {
                None => r is Serving,
                Some(e) => r is Unavailable && r->Unavailable_0@ == "guest "@ + self.plan.guest_base@ + " unreachable: "@ + e@,
            },
    {
        guest_health(&self.plan.guest_base, error)
    }

    /// Begins a snapshot of the running VM; none is taken of one that belongs
    /// to no app.
    pub fn snapshot(&self, has_cap_files: bool) -> (r: Option<SnapRun>)
        ensures
            r == if self.snapshot_cache_dir is None {
                None::<SnapRun>
            } else {
                Some(snap_start(self.is_workspace, has_cap_files))
            },
    {
        match &self.snapshot_cache_dir {
            Some(_) => Some(SnapRun::new(self.is_workspace, has_cap_files)),
            None => None,
        }
    }

    /// What takes a VM down, in order: its process is killed, if there is one,
    /// its scope stopped, if it has one, and its TAP deleted.
    pub fn shutdown(&self) -> (r: Vec<VmAction>)
        ensures
            r@ == (if self.run.child {
                seq![VmAction::KillChild]
            } else {
                Seq::empty()
            }) + (if self.plan.spawn.scope is Some {
                seq![VmAction::StopScope]
            } else {
                Seq::empty()
            }) + seq![VmAction::DeleteTap],
            self.run.child ==> r@[0] == VmAction::KillChild,
            r@.last() == VmAction::DeleteTap,
            r@.contains(VmAction::StopScope) <==> self.plan.spawn.scope is Some,
            r@.contains(VmAction::KillChild) <==> self.run.child,
    {
        let mut out: Vec<VmAction> = Vec::new();
        if self.run.child {
            out.push(VmAction::KillChild);
        }
        match &self.plan.spawn.scope {
            Some(_) => {
                out.push(VmAction::StopScope);
            },
            None => {},
        }
        out.push(VmAction::DeleteTap);
        assert(out@ =~= (if self.run.child {
            seq![VmAction::KillChild]
        } else {
            Seq::empty()
        }) + (if self.plan.spawn.scope is Some {
            seq![VmAction::StopScope]
        } else {
            Seq::empty()
        }) + seq![VmAction::DeleteTap]);
        assert(self.plan.spawn.scope is Some ==> out@[out@.len() - 2] == VmAction::StopScope);
        out
    }

    /// What is done with a VM that is let go: its process is killed, its scope
    /// is stopped, and neither its socket nor its TAP is left.
    pub fn teardown(&self) -> (r: Vec<VmAction>)
        ensures
            r@ == (if self.run.child {
                seq![VmAction::KillChild]
            } else {
                Seq::empty()
            }) + (if self.plan.spawn.scope is Some {
                seq![VmAction::StopScope]
            } else {
                Seq::empty()
            }) + seq![VmAction::RemoveSocket, VmAction::DeleteTap],
            self.run.child ==> r@[0] == VmAction::KillChild,
            r@.last() == VmAction::DeleteTap,
            r@.contains(VmAction::RemoveSocket),
            r@.contains(VmAction::StopScope) <==> self.plan.spawn.scope is Some,
            r@.contains(VmAction::KillChild) <==> self.run.child,
    {
        let mut out: Vec<VmAction> = Vec::new();
        if self.run.child {
            out.push(VmAction::KillChild);
        }
        match &self.plan.spawn.scope {
            Some(_) => {
                out.push(VmAction::StopScope);
            },
            None => {},
        }
        out.push(VmAction::RemoveSocket);
        out.push(VmAction::DeleteTap);
        assert(out@ =~= (if self.run.child {
            seq![VmAction::KillChild]
        } else {
            Seq::empty()
        }) + (if self.plan.spawn.scope is Some {
            seq![VmAction::StopScope]
        } else {
            Seq::empty()
        }) + seq![VmAction::RemoveSocket, VmAction::DeleteTap]);
        assert(out@[out@.len() - 2] == VmAction::RemoveSocket);
        assert(self.plan.spawn.scope is Some ==> out@[out@.len() - 3] == VmAction::StopScope);
        out
    }
}

/// Whichever way an app's VM comes up, it has the same TAP, socket, link,
/// address and scope, so that it can come up the other way the next time. It
/// is loaded from the snapshot only where it may be, and then always if the
/// host can run it; and it has no plan only where its cold boot has none.
pub proof fn law_either_way_the_same_vm(
    host: HostFacts,
    rootfs: Seq<char>,
    rt: Runtime,
    cfg: FcConfig,
    app_port: u16,
    uuid: Seq<char>,
    reff: Seq<char>,
    data_dir: Seq<char>,
    env_hash: Seq<char>,
    cache: CacheModel,
)
    ensures
        ({
            let cold = app_plan(host, rootfs, rt, cfg, app_port, uuid, reff, data_dir, env_hash, cache, false);
            let warm = app_plan(host, rootfs, rt, cfg, app_port, uuid, reff, data_dir, env_hash, cache, true);
            &&& cold matches Ok(c) ==> c.0 == VmKind::Cold && c.1.image_ref == Some(reff) && c.1.env_hash == Some(env_hash)
            &&& cold matches Ok(c) ==> (warm matches Ok(w) && {
                &&& w.0 == VmKind::Warm
                &&& c.1.tap == w.1.tap && c.1.api_sock == w.1.api_sock && c.1.host_ip == w.1.host_ip && c.1.guest_ip == w.1.guest_ip
                &&& c.1.guest_base == w.1.guest_base && c.1.scope == w.1.scope && c.1.argv == w.1.argv
            })
            &&& host.kvm && !host.rootfs_is_file ==> cold is Err && cold->Err_0 is RootfsMissing
            &&& !host.kvm ==> cold is Err && cold->Err_0 is NoKvm && warm == cold
        }),
{
}

/// A stateful app, and no other, boots with a data disk: the one in its own
/// directory.
pub proof fn law_data_disk_of_the_app(data_dir: Seq<char>, uuid: Seq<char>, rt: Runtime)
    ensures
        rt.stateful ==> data_disk_of(data_dir, uuid, rt) == Some(joined(joined(joined(data_dir, "apps"@), uuid), "data.ext4"@)),
        !rt.stateful ==> data_disk_of(data_dir, uuid, rt) is None,
{
}

/// A workspace is reached at the configured port, whatever it says itself. Any
/// other app is reached at the port it names, else at the one its image names.
pub proof fn law_port_of_a_launch(rt: Runtime, image_port: Option<u16>, cfg: FcConfig)
    ensures
        launch_port(true, rt, image_port, cfg) == cfg.app_port,
        rt.port is Some ==> launch_port(false, rt, image_port, cfg) == rt.port->Some_0,
        rt.port is None && image_port is Some ==> launch_port(false, rt, image_port, cfg) == image_port->Some_0,
        rt.port is None && image_port is None ==> launch_port(false, rt, image_port, cfg) == cfg.app_port,
{
}

} // verus!
