//! Per-VM CPU bounds: each firecracker process runs in its own transient
//! systemd scope, whose name is also the handle that stops it.
use vstd::prelude::*;
use crate::number::{decimal, push_decimal};
use crate::sanitize::{sanitize, sanitized};
use crate::text::{concat2, concat3, strs, svec, texts, texts_push};

verus! {

/// The slice that every firecracker scope lives under.
pub const FC_SLICE: &'static str = "tabbify-fc.slice";

/// CPU bounds of the per-VM scopes.
#[derive(Debug, Clone, Copy, PartialEq, Eq, Structural)]
pub struct CpuScopeCfg {
    /// Quota of a serving guest, in percent of a core.
    pub serving_quota_pct: u32,
    /// Quota of the build guest, in percent of a core.
    pub build_quota_pct: u32,
    /// Relative weight of a guest.
    pub weight: u32,
}

impl Default for CpuScopeCfg {
    fn default() -> (r: Self)
        ensures
            r == (CpuScopeCfg { serving_quota_pct: 100, build_quota_pct: 200, weight: 80 }),
    {
        CpuScopeCfg { serving_quota_pct: 100, build_quota_pct: 200, weight: 80 }
    }
}

/// Which kind of VM is launched.
#[derive(Debug, Clone, Copy, PartialEq, Eq, Structural)]
pub enum FcKind {
    /// An app's serving microVM.
    Serving,
    /// The build VM.
    Build,
}

/// The quota of a kind of VM.
pub open spec fn quota_of(kind: FcKind, cfg: CpuScopeCfg) -> u32 {
    match kind {
        FcKind::Serving => cfg.serving_quota_pct,
        FcKind::Build => cfg.build_quota_pct,
    }
}

impl FcKind {
    /// The quota of this kind of VM.
    pub fn quota_pct(self, cfg: &CpuScopeCfg) -> (r: u32)
        ensures
            r == quota_of(self, *cfg),
    {
        match self {
            FcKind::Serving => cfg.serving_quota_pct,
            FcKind::Build => cfg.build_quota_pct,
        }
    }
}

/// The name of the scope of `id`.
pub open spec fn scope_of(id: Seq<char>) -> Seq<char> {
    "tabbify-fc-"@ + sanitized(id) + ".scope"@
}

/// The name of the scope of `id`: stopping the unit of that name stops the VM.
pub fn scope_name(id: &str) -> (r: String)
    ensures
        r@ == scope_of(id@),
{
    let safe = sanitize(id);
    concat3("tabbify-fc-", &safe, ".scope")
}

/// The options that `systemd-run` gets in front of the command.
pub open spec fn scope_options(scope: Seq<char>, cfg: CpuScopeCfg, kind: FcKind) -> Seq<Seq<char>> {
    seq![
        "systemd-run"@,
        "--scope"@,
        "--collect"@,
        "--unit="@ + scope,
        "--slice="@ + FC_SLICE@,
        "-p"@,
        "CPUQuota="@ + decimal(quota_of(kind, cfg) as nat) + "%"@,
        "-p"@,
        "CPUWeight="@ + decimal(cfg.weight as nat),
        "--"@,
    ]
}

/// The command line that runs `fc_bin` with `fc_args` in the scope: the
/// options, and behind the separator the command as it is.
pub fn systemd_run_argv(scope: &str, cfg: &CpuScopeCfg, kind: FcKind, fc_bin: &str, fc_args: &[String]) -> (r: Vec<String>)
    ensures
        texts(r@) == scope_options(scope@, *cfg, kind) + seq![fc_bin@] + texts(fc_args@),
{
    let unit = concat2("--unit=", scope);
    let slice = concat2("--slice=", FC_SLICE);
    let mut quota = "CPUQuota=".to_owned();
    push_decimal(&mut quota, kind.quota_pct(cfg) as u64);
    quota.append("%");
    let mut weight = "CPUWeight=".to_owned();
    push_decimal(&mut weight, cfg.weight as u64);
    let parts: [&str; 11] = [
        "systemd-run",
        "--scope",
        "--collect",
        &unit,
        &slice,
        "-p",
        &quota,
        "-p",
        &weight,
        "--",
        fc_bin,
    ];
    let mut argv = svec(&parts);
    assert(texts(argv@) =~= scope_options(scope@, *cfg, kind) + seq![fc_bin@]);
    let ghost head = texts(argv@);
    let mut i: usize = 0;
    assert(head + texts(fc_args@).take(0) =~= head);
    while i < fc_args.len()
        invariant
            i <= fc_args@.len(),
            texts(argv@) == head + texts(fc_args@).take(i as int),
        decreases fc_args@.len() - i,
    {
        let arg = fc_args[i].clone();
        proof {
            texts_push(argv@, arg);
            assert((head + texts(fc_args@).take(i as int)).push(arg@) =~= head + texts(fc_args@).take(i + 1));
        }
        argv.push(arg);
        i += 1;
    }
    assert(texts(fc_args@).take(i as int) =~= texts(fc_args@));
    argv
}

/// Is the spawn wrapped in a scope? Only where `systemd-run` is there and
/// systemd is the init system.
pub fn should_wrap(have_systemd_run: bool, systemd_is_pid1: bool) -> (r: bool)
    ensures
        r == (have_systemd_run && systemd_is_pid1),
{
    have_systemd_run && systemd_is_pid1
}

/// Is systemd the init system: on Linux, is its runtime directory there?
pub fn host_has_systemd(is_linux: bool, systemd_dir_exists: bool) -> (r: bool)
    ensures
        r == (is_linux && systemd_dir_exists),
{
    is_linux && systemd_dir_exists
}

/// How the firecracker process is spawned: the command line, and the scope to
/// stop at teardown, if there is one.
#[derive(Debug)]
pub struct FcSpawn {
    /// Program and arguments.
    pub argv: Vec<String>,
    /// Scope that the process runs in.
    pub scope: Option<String>,
}

/// Decides how a firecracker process is spawned: in a scope where the host
/// can have one, else bare.
pub fn spawn_plan(wrap: bool, cfg: &CpuScopeCfg, kind: FcKind, scope_id: &str, fc_bin: &str, fc_args: &[String]) -> (r: FcSpawn)
    ensures
        if wrap {
            &&& r.scope is Some
            &&& r.scope->Some_0@ == scope_of(scope_id@)
            &&& texts(r.argv@) == scope_options(scope_of(scope_id@), *cfg, kind) + seq![fc_bin@] + texts(fc_args@)
        } else {
            &&& r.scope is None
            &&& texts(r.argv@) == seq![fc_bin@] + texts(fc_args@)
        },
{
    if wrap {
        let scope = scope_name(scope_id);
        let argv = systemd_run_argv(&scope, cfg, kind, fc_bin, fc_args);
        FcSpawn { argv, scope: Some(scope) }
    } else {
        let first: [&str; 1] = [fc_bin];
        let mut argv = svec(&first);
        assert(texts(argv@) =~= seq![fc_bin@]);
        let mut i: usize = 0;
        assert(seq![fc_bin@] + texts(fc_args@).take(0) =~= seq![fc_bin@]);
        while i < fc_args.len()
            invariant
                i <= fc_args@.len(),
                texts(argv@) == seq![fc_bin@] + texts(fc_args@).take(i as int),
            decreases fc_args@.len() - i,
        {
            let arg = fc_args[i].clone();
            proof {
                texts_push(argv@, arg);
                assert((seq![fc_bin@] + texts(fc_args@).take(i as int)).push(arg@) =~= seq![fc_bin@] + texts(fc_args@).take(
                    i + 1,
                ));
            }
            argv.push(arg);
            i += 1;
        }
        assert(texts(fc_args@).take(i as int) =~= texts(fc_args@));
        FcSpawn { argv, scope: None }
    }
}

/// The command that stops a scope, and with it every process in it.
pub fn stop_fc_scope(scope: &str) -> (r: Vec<String>)
    ensures
        texts(r@) == seq!["systemctl"@, "stop"@, scope@],
{
    let parts: [&str; 3] = ["systemctl", "stop", scope];
    assert(strs(parts@) =~= seq!["systemctl"@, "stop"@, scope@]);
    svec(&parts)
}

/// No argument of the wrapped command stands in front of the separator: what
/// is behind it is the command, word for word.
pub proof fn law_command_behind_separator(scope: Seq<char>, cfg: CpuScopeCfg, kind: FcKind, bin: Seq<char>, args: Seq<Seq<char>>)
    ensures
        ({
            let argv = scope_options(scope, cfg, kind) + seq![bin] + args;
            &&& argv[9] == "--"@
            &&& argv.skip(10) == seq![bin] + args
        }),
{
    let argv = scope_options(scope, cfg, kind) + seq![bin] + args;
    assert(argv.skip(10) =~= seq![bin] + args);
}

/// A serving guest is bound by its own quota and the build guest by its own,
/// both by the same weight; the unit is the scope, in the slice of all guests.
pub proof fn law_bounds_of_a_scope(scope: Seq<char>, cfg: CpuScopeCfg)
    ensures
        ({
            let serving = scope_options(scope, cfg, FcKind::Serving);
            let build = scope_options(scope, cfg, FcKind::Build);
            &&& serving[6] == "CPUQuota="@ + decimal(cfg.serving_quota_pct as nat) + "%"@
            &&& build[6] == "CPUQuota="@ + decimal(cfg.build_quota_pct as nat) + "%"@
            &&& serving[8] == "CPUWeight="@ + decimal(cfg.weight as nat) && build[8] == serving[8]
            &&& serving[5] == "-p"@ && serving[7] == "-p"@ && build[5] == "-p"@ && build[7] == "-p"@
            &&& serving[3] == "--unit="@ + scope && build[3] == serving[3]
            &&& serving[4] == "--slice=tabbify-fc.slice"@ && build[4] == serving[4]
            &&& serving.contains("--scope"@) && build.contains("--scope"@)
            &&& serving[0] == "systemd-run"@ && build[0] == "systemd-run"@
        }),
{
    reveal_strlit("--slice=");
    reveal_strlit("tabbify-fc.slice");
    reveal_strlit("--slice=tabbify-fc.slice");
    assert("--slice="@ + FC_SLICE@ =~= "--slice=tabbify-fc.slice"@);
    let serving = scope_options(scope, cfg, FcKind::Serving);
    let build = scope_options(scope, cfg, FcKind::Build);
    assert(serving[1] == "--scope"@ && build[1] == "--scope"@);
}

} // verus!
