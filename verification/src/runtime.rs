//! What the runtimes of apps have in common.
use vstd::prelude::*;
use crate::number::{decimal, push_decimal};
use crate::text::concat3;

verus! {

/// How an app is.
#[derive(Debug)]
pub enum RuntimeHealth {
    /// It answers.
    Serving,
    /// It does not; the text says why.
    Unavailable(String),
}

/// Why an app is gone.
#[derive(Debug)]
pub enum ExitReason {
    /// Its process ended.
    Died(String),
}

/// Judges one question to a guest app: any answer means that it serves.
pub fn guest_health(guest_base: &str, error: Option<&str>) -> (r: RuntimeHealth)
    ensures
        match error {
            None => r is Serving,
            Some(e) => r is Unavailable && r->Unavailable_0@ == "guest "@ + guest_base@ + " unreachable: "@ + e@,
        },
{
    match error {
        None => RuntimeHealth::Serving,
        Some(e) => {
            let mut out = concat3("guest ", guest_base, " unreachable: ");
            out.append(e);
            RuntimeHealth::Unavailable(out)
        },
    }
}

/// Judges one look at a firecracker process: anything but a zero means that it
/// is gone.
pub fn watch_for_exit(pid: u32, waited: i32) -> (r: Option<ExitReason>)
    ensures
        match r {
            None => waited == 0,
            Some(ExitReason::Died(t)) => waited != 0 && t@ == "firecracker child pid "@ + decimal(pid as nat) + " exited"@,
        },
{
    if waited == 0 {
        return None;
    }
    let mut out = "firecracker child pid ".to_owned();
    push_decimal(&mut out, pid as u64);
    out.append(" exited");
    Some(ExitReason::Died(out))
}

} // verus!
