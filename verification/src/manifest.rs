//! The app manifest: what an app is, when it runs and how.
use vstd::prelude::*;

verus! {

/// Top-level app manifest, stored per app version.
#[derive(Debug)]
pub struct AppManifest {
    /// App metadata.
    pub app: AppMeta,
    /// Lifecycle policy.
    pub lifecycle: Lifecycle,
    /// Runtime parameters.
    pub runtime: Runtime,
    /// Routing hints.
    pub routes: Routes,
}

/// App metadata.
#[derive(Debug)]
pub struct AppMeta {
    /// The app's UUID as a number, once it has been stamped.
    pub id: Option<u128>,
    /// Display name.
    pub name: String,
    /// Display version.
    pub version: String,
    /// Free-form kind.
    pub kind: String,
    /// Human-readable description.
    pub description: String,
}

/// The kind of an app that does not name one.
pub fn default_kind() -> (r: String)
    ensures
        r@ == "headless"@,
{
    "headless".to_owned()
}

/// Lifecycle policy.
#[derive(Debug)]
pub struct Lifecycle {
    /// Spawn policy.
    pub mode: LifecycleMode,
    /// Seconds after which an idle on-request instance is stopped.
    pub idle_timeout_sec: u64,
}

/// The idle timeout of an app that does not name one.
pub fn default_idle() -> (r: u64)
    ensures
        r == 300,
{
    300
}

/// How an app's instance is scheduled.
#[derive(Debug, Clone, Copy, PartialEq, Eq, Structural)]
pub enum LifecycleMode {
    /// Spawned on deploy and kept running.
    AlwaysOn,
    /// Spawned on the first request and stopped when idle.
    OnRequest,
}

/// Runtime parameters.
#[derive(Debug)]
pub struct Runtime {
    /// Runtime type.
    pub runtime_type: String,
    /// Entry file.
    pub entry: String,
    /// Fuel budget of one request.
    pub fuel_per_request: u64,
    /// Memory in MiB.
    pub memory_mb: u32,
    /// vCPUs of a microVM, where the app names a number.
    pub vcpus: Option<u32>,
    /// Port that the app listens on, where it names one.
    pub port: Option<u16>,
    /// Guest kernel, where the app names one.
    pub kernel: Option<String>,
    /// Registry reference of the app's image, where it names one.
    pub registry_ref: Option<String>,
    /// Does the app own a persistent data disk?
    pub stateful: bool,
    /// Where the data disk is mounted in the guest.
    pub data_mount: Option<String>,
}

/// The runtime type of an app that does not name one.
pub fn default_rt() -> (r: String)
    ensures
        r@ == "wasm-http"@,
{
    "wasm-http".to_owned()
}

/// The entry of an app that does not name one.
pub fn default_entry() -> (r: String)
    ensures
        r@ == "app.wasm"@,
{
    "app.wasm".to_owned()
}

/// The fuel budget of an app that does not name one.
pub fn default_fuel() -> (r: u64)
    ensures
        r == 1_000_000_000,
{
    1_000_000_000
}

/// The memory of an app that does not name one.
pub fn default_mem() -> (r: u32)
    ensures
        r == 64,
{
    64
}

/// Routing hints.
#[derive(Debug)]
pub struct Routes {
    /// Path prefixes that go to the app.
    pub dynamic_prefixes: Vec<String>,
}

impl Default for Routes {
    fn default() -> (r: Self)
        ensures
            r.dynamic_prefixes@.len() == 0,
    {
        Routes { dynamic_prefixes: Vec::new() }
    }
}

} // verus!
