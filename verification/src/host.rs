//! Serving an app on an address of its own.
use vstd::prelude::*;
use crate::json::{json_insert, json_object, json_of, json_text, JsonModel};
use crate::text::{concat2, concat3};

verus! {

/// An IP address.
#[derive(Debug, Clone, Copy, PartialEq, Eq, Structural)]
pub enum IpAddress {
    /// Of version four.
    V4(u32),
    /// Of version six.
    V6(u128),
}

/// An IP address and a port.
#[derive(Debug, Clone, Copy, PartialEq, Eq, Structural)]
pub struct Endpoint {
    /// The address.
    pub ip: IpAddress,
    /// The port.
    pub port: u16,
}

/// Where the listeners of apps are bound.
#[derive(Debug, Clone, Copy, PartialEq, Eq, Structural)]
pub enum HostBind {
    /// On the app's address, which the joiner routes here.
    AppUla(u16),
    /// On the peer's own address, which is routed here already.
    OwnUla(u16),
    /// On that address, at a port that the system picks.
    Loopback(IpAddress),
}

/// How apps are hosted.
#[derive(Debug, Clone, Copy, PartialEq, Eq, Structural)]
pub struct AppHost {
    /// Is there a joiner to route addresses?
    pub mesh: bool,
    /// Where listeners are bound.
    pub bind: HostBind,
}

/// Where the listener of an app is bound.
pub open spec fn bound_at(bind: HostBind, app_ula: u128) -> Endpoint {
    match bind {
        HostBind::AppUla(port) => Endpoint { ip: IpAddress::V6(app_ula), port },
        HostBind::OwnUla(port) => Endpoint { ip: IpAddress::V6(app_ula), port },
        HostBind::Loopback(ip) => Endpoint { ip, port: 0 },
    }
}

impl AppHost {
    /// Hosts apps on addresses that the joiner routes here.
    pub fn mesh(port: u16) -> (r: Self)
        ensures
            r == (AppHost { mesh: true, bind: HostBind::AppUla(port) }),
    {
        AppHost { mesh: true, bind: HostBind::AppUla(port) }
    }

    /// Hosts the app of a runner, whose own address is the app's.
    pub fn mesh_self(_my_ula: u128, port: u16) -> (r: Self)
        ensures
            r == (AppHost { mesh: false, bind: HostBind::OwnUla(port) }),
    {
        AppHost { mesh: false, bind: HostBind::OwnUla(port) }
    }

    /// Hosts apps on the loopback address of version six.
    pub fn loopback() -> (r: Self)
        ensures
            r == (AppHost { mesh: false, bind: HostBind::Loopback(IpAddress::V6(1)) }),
    {
        AppHost::loopback_on(IpAddress::V6(1))
    }

    /// Hosts apps on that address.
    pub fn loopback_on(ip: IpAddress) -> (r: Self)
        ensures
            r == (AppHost { mesh: false, bind: HostBind::Loopback(ip) }),
    {
        AppHost { mesh: false, bind: HostBind::Loopback(ip) }
    }

    /// Is there a joiner to route addresses?
    pub fn is_mesh(&self) -> (r: bool)
        ensures
            r == self.mesh,
    {
        self.mesh
    }

    /// Where listeners are bound.
    pub fn bind(&self) -> (r: HostBind)
        ensures
            r == self.bind,
    {
        self.bind
    }

    /// Where the listener of an app is bound.
    pub fn bind_addr_for(&self, app_ula: u128) -> (r: Endpoint)
        ensures
            r == bound_at(self.bind, app_ula),
    {
        match self.bind {
            HostBind::AppUla(port) => Endpoint { ip: IpAddress::V6(app_ula), port },
            HostBind::OwnUla(port) => Endpoint { ip: IpAddress::V6(app_ula), port },
            HostBind::Loopback(ip) => Endpoint { ip, port: 0 },
        }
    }

    /// The first thing to do to host an app: with a joiner, have it route the
    /// address; else bind the listener.
    pub fn host(&self, app_ula: u128) -> (r: HostStep)
        ensures
            r == if self.mesh {
                HostStep::Route(app_ula)
            } else {
                HostStep::Bind(bound_at(self.bind, app_ula))
            },
    {
        if self.mesh {
            HostStep::Route(app_ula)
        } else {
            HostStep::Bind(self.bind_addr_for(app_ula))
        }
    }

    /// What to do once the last thing succeeded or not.
    pub fn host_next(&self, app_ula: u128, last: HostStep, ok: bool) -> (r: HostStep)
        ensures
            r == host_after(*self, app_ula, last, ok),
    {
        if !ok {
            return HostStep::Failed;
        }
        match last {
            HostStep::Route(_) => HostStep::Bind(self.bind_addr_for(app_ula)),
            HostStep::Bind(_) => HostStep::Serve,
            HostStep::Serve => HostStep::Serve,
            HostStep::Failed => HostStep::Failed,
        }
    }

    /// What to do to stop hosting: the listener is ended, and with a joiner
    /// the address is no longer routed here. Neither depends on the other.
    pub fn unhost(&self, hosted: &HostedApp) -> (r: Option<u128>)
        ensures
            r == if self.mesh {
                Some(hosted.app_ula)
            } else {
                None
            },
    {
        if self.mesh {
            Some(hosted.app_ula)
        } else {
            None
        }
    }
}

/// What to do next to host an app.
#[derive(Debug, Clone, Copy, PartialEq, Eq, Structural)]
pub enum HostStep {
    /// Have the joiner route the address here.
    Route(u128),
    /// Bind the listener.
    Bind(Endpoint),
    /// Serve the app.
    Serve,
    /// The app is not hosted.
    Failed,
}

/// What to do once the last thing succeeded or not.
pub open spec fn host_after(host: AppHost, app_ula: u128, last: HostStep, ok: bool) -> HostStep {
    if !ok {
        HostStep::Failed
    } else {
        match last {
            HostStep::Route(_) => HostStep::Bind(bound_at(host.bind, app_ula)),
            HostStep::Bind(_) => HostStep::Serve,
            HostStep::Serve => HostStep::Serve,
            HostStep::Failed => HostStep::Failed,
        }
    }
}

/// What is said where a step of hosting an app failed: `address` is the step's
/// address as text, and `detail` what went wrong. A bound listener may still
/// not tell where it is.
pub open spec fn host_fault_text(step: HostStep, address: Seq<char>, detail: Seq<char>) -> Seq<char> {
    match step {
        HostStep::Route(_) => "joiner host_app_ula("@ + address + "): "@ + detail,
        HostStep::Bind(_) => "bind per-app listener "@ + address + ": "@ + detail,
        HostStep::Serve => "per-app listener local_addr: "@ + detail,
        HostStep::Failed => detail,
    }
}

/// What is said where a step of hosting an app failed.
pub fn host_fault(step: HostStep, address: &str, detail: &str) -> (r: String)
    ensures
        r@ == host_fault_text(step, address@, detail@),
{
    match step {
        HostStep::Route(_) => {
            let mut out = concat3("joiner host_app_ula(", address, "): ");
            out.append(detail);
            out
        },
        HostStep::Bind(_) => {
            let mut out = concat3("bind per-app listener ", address, ": ");
            out.append(detail);
            out
        },
        HostStep::Serve => concat2("per-app listener local_addr: ", detail),
        HostStep::Failed => detail.to_owned(),
    }
}

/// With a joiner, no listener is bound before the address is routed here;
/// without one, no address is ever routed.
pub proof fn law_route_before_bind(host: AppHost, app_ula: u128, ok: bool)
    ensures
        host.mesh ==> host_after(host, app_ula, HostStep::Route(app_ula), ok) == if ok {
            HostStep::Bind(bound_at(host.bind, app_ula))
        } else {
            HostStep::Failed
        },
        forall|last: HostStep, o: bool| !(#[trigger] host_after(host, app_ula, last, o) is Route),
{
}

/// An app that is hosted.
#[derive(Debug, Clone, Copy, PartialEq, Eq, Structural)]
pub struct HostedApp {
    /// The app's address.
    pub app_ula: u128,
    /// Where its listener was bound.
    pub addr: Endpoint,
}

/// What is answered where an app could not be served.
pub open spec fn error_body(msg: Seq<char>) -> JsonModel {
    JsonModel::Object(map!["error"@ => JsonModel::Text(msg)])
}

/// What is answered where an app could not be served.
pub fn error_json(msg: &str) -> (r: serde_json::Value)
    ensures
        json_of(r) == error_body(msg@),
{
    let mut o = json_object();
    json_insert(&mut o, "error", json_text(msg));
    o
}

/// Why an app could not be served.
#[derive(Debug)]
pub enum ServeFault {
    /// The request could not be read.
    Body(String),
    /// The app failed.
    Runtime(String),
    /// Its response is none.
    Response,
}

/// The status and the body that a failure is answered with.
pub fn serve_failure(fault: &ServeFault) -> (r: (u16, serde_json::Value))
    ensures
        match fault {
            ServeFault::Body(e) => r.0 == 400 && json_of(r.1) == error_body("read request body: "@ + e@),
            ServeFault::Runtime(e) => r.0 == 500 && json_of(r.1) == error_body("wasm execution failed: "@ + e@),
            ServeFault::Response => r.0 == 500 && json_of(r.1) == error_body("build response"@),
        },
{
    match fault {
        ServeFault::Body(e) => (400, error_json(&concat2("read request body: ", e))),
        ServeFault::Runtime(e) => (500, error_json(&concat2("wasm execution failed: ", e))),
        ServeFault::Response => (500, error_json("build response")),
    }
}

/// The loopback address of version four.
pub const LOOPBACK_V4: u32 = 0x7F00_0001;

/// Where the control API listens: where it is told to, else at its port on the
/// peer's own address, or on the loopback address where there is no mesh.
pub fn control_endpoint(no_mesh: bool, bind: Option<Endpoint>, my_ula: u128, port: u16) -> (r: Endpoint)
    ensures
        r == match bind {
            Some(e) => e,
            None => if no_mesh {
                Endpoint { ip: IpAddress::V4(LOOPBACK_V4), port }
            } else {
                Endpoint { ip: IpAddress::V6(my_ula), port }
            },
        },
{
    match bind {
        Some(e) => e,
        None => if no_mesh {
            Endpoint { ip: IpAddress::V4(LOOPBACK_V4), port }
        } else {
            Endpoint { ip: IpAddress::V6(my_ula), port }
        },
    }
}

/// The listener of an app is bound on the app's own address, at the port that
/// the host has for it; only on loopback is it bound elsewhere, at a port that
/// the system picks.
pub proof fn law_listener_on_the_app_address(bind: HostBind, app_ula: u128)
    ensures
        !(bind is Loopback) ==> bound_at(bind, app_ula).ip == IpAddress::V6(app_ula),
        bind matches HostBind::AppUla(port) ==> bound_at(bind, app_ula).port == port,
        bind matches HostBind::OwnUla(port) ==> bound_at(bind, app_ula).port == port,
        bind matches HostBind::Loopback(ip) ==> bound_at(bind, app_ula).ip == ip && bound_at(bind, app_ula).port == 0,
{
}

/// A step that fails ends it, whatever it was; what follows one that succeeds
/// is the next one, until the app is served.
pub proof fn law_hosting_goes_on(host: AppHost, app_ula: u128, step: HostStep)
    ensures
        host_after(host, app_ula, step, false) is Failed,
        step is Route ==> host_after(host, app_ula, step, true) is Bind,
        step is Bind ==> host_after(host, app_ula, step, true) is Serve,
        step is Serve ==> host_after(host, app_ula, step, true) is Serve,
        step is Failed ==> host_after(host, app_ula, step, true) is Failed,
{
}

/// Where a step of hosting an app failed, what went wrong stands at the end,
/// and the address is told of a step that has one.
pub proof fn law_what_is_told_of_a_failed_step(step: HostStep, address: Seq<char>, detail: Seq<char>)
    ensures
        crate::text::ends_in(host_fault_text(step, address, detail), detail),
        step is Route ==> crate::text::begins_with(host_fault_text(step, address, detail), "joiner host_app_ula("@ + address + ")"@),
        step is Bind ==> crate::text::begins_with(host_fault_text(step, address, detail), "bind per-app listener "@ + address + ":"@),
{
    reveal_strlit("): ");
    reveal_strlit(")");
    reveal_strlit(": ");
    reveal_strlit(":");
    let t = host_fault_text(step, address, detail);
    assert(t.skip(t.len() - detail.len()) =~= detail);
    if step is Route {
        let front = "joiner host_app_ula("@ + address + ")"@;
        assert(t.take(front.len() as int) =~= front);
    }
    if step is Bind {
        let front = "bind per-app listener "@ + address + ":"@;
        assert(t.take(front.len() as int) =~= front);
    }
}

} // verus!
