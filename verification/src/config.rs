//! Operator configuration of the runtimes.
use vstd::prelude::*;
use crate::firecracker::cpu_scope::CpuScopeCfg;

verus! {

/// The docker binary that is used unless another is configured.
pub const DEFAULT_DOCKER_BIN: &'static str = "docker";

/// Firecracker configuration.
#[derive(Debug)]
pub struct FcConfig {
    /// The firecracker binary.
    pub bin: String,
    /// The guest kernel.
    pub kernel: String,
    /// vCPUs of an app that does not name a number.
    pub vcpus: u32,
    /// Subnet that host and guest links are carved from.
    pub tap_subnet: String,
    /// Port of an app of which no other is known.
    pub app_port: u16,
    /// CPU quota of a serving guest, in percent of a core.
    pub cpu_quota_serving_pct: u32,
    /// CPU quota of the build guest, in percent of a core.
    pub cpu_quota_build_pct: u32,
    /// Relative CPU weight of a guest.
    pub cpu_weight: u32,
}

impl Default for FcConfig {
    fn default() -> (r: Self)
        ensures
            r.bin@ == "firecracker"@,
            r.kernel@ == "/opt/tabbify/vmlinux"@,
            r.vcpus == 1,
            r.tap_subnet@ == "172.31.0.0/16"@,
            r.app_port == 8080,
            r.cpu_quota_serving_pct == 100,
            r.cpu_quota_build_pct == 200,
            r.cpu_weight == 80,
    {
        FcConfig {
            bin: "firecracker".to_owned(),
            kernel: "/opt/tabbify/vmlinux".to_owned(),
            vcpus: 1,
            tap_subnet: "172.31.0.0/16".to_owned(),
            app_port: 8080,
            cpu_quota_serving_pct: 100,
            cpu_quota_build_pct: 200,
            cpu_weight: 80,
        }
    }
}

impl FcConfig {
    /// The CPU bounds of the configuration.
    pub fn cpu_scope_cfg(&self) -> (r: CpuScopeCfg)
        ensures
            r.serving_quota_pct == self.cpu_quota_serving_pct,
            r.build_quota_pct == self.cpu_quota_build_pct,
            r.weight == self.cpu_weight,
    {
        CpuScopeCfg {
            serving_quota_pct: self.cpu_quota_serving_pct,
            build_quota_pct: self.cpu_quota_build_pct,
            weight: self.cpu_weight,
        }
    }
}

/// Docker configuration.
#[derive(Debug)]
pub struct DockerConfig {
    /// The docker binary.
    pub docker_bin: String,
    /// Port that container apps listen on.
    pub app_port: u16,
    /// How long one image build may take.
    pub build_timeout_secs: u64,
}

impl Default for DockerConfig {
    fn default() -> (r: Self)
        ensures
            r.docker_bin@ == DEFAULT_DOCKER_BIN@,
            r.app_port == 8080,
            r.build_timeout_secs == 600,
    {
        DockerConfig { docker_bin: DEFAULT_DOCKER_BIN.to_owned(), app_port: 8080, build_timeout_secs: 600 }
    }
}

} // verus!
