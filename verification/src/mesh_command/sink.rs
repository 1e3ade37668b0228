//! What the commands that reach the host do.
use vstd::prelude::*;
use crate::mesh_command::reboot_guard::{after_request, may_reboot, RebootGuard, RebootHistory};
use crate::path::{join, joined};
use crate::text::{strs, svec, texts};

verus! {

/// Path of the file that the reboots are noted in.
pub fn reboot_history_path(data_dir: &str) -> (r: String)
    ensures
        r@ == joined(data_dir@, "reboot-guard.json"@),
{
    join(data_dir, "reboot-guard.json")
}

/// What carries the commands out.
#[derive(Debug)]
pub struct SupervisorCommandSink {
    /// Guards against rebooting over and over.
    pub reboot_guard: RebootGuard,
    /// The unit that is restarted to join anew.
    pub unit: String,
}

impl SupervisorCommandSink {
    /// A sink whose reboots are noted in `data_dir`.
    pub fn new(data_dir: &str, unit: &str, history: RebootHistory) -> (r: Self)
        ensures
            r.reboot_guard.path@ == joined(data_dir@, "reboot-guard.json"@),
            r.reboot_guard.history == history,
            r.unit@ == unit@,
    {
        SupervisorCommandSink {
            reboot_guard: RebootGuard::new(reboot_history_path(data_dir), history),
            unit: unit.to_owned(),
        }
    }

    /// The arguments of `systemctl` that restart the unit.
    pub fn restart_joiner(&self) -> (r: Vec<String>)
        ensures
            texts(r@) == seq!["restart"@, self.unit@],
    {
        let parts: [&str; 2] = ["restart", &self.unit];
        assert(strs(parts@) =~= seq!["restart"@, self.unit@]);
        svec(&parts)
    }

    /// The arguments of `systemctl` that reboot the host, where the guard
    /// grants it. They are for use once the history is stored, as
    /// `reboot_granted` says.
    pub fn reboot_host(&mut self, now: u64) -> (r: Option<Vec<String>>)
        ensures
            r is Some <==> may_reboot(old(self).reboot_guard.history.reboots@, now),
            r is Some ==> texts(r->Some_0@) == seq!["reboot"@],
            final(self).reboot_guard.history.reboots@ == after_request(old(self).reboot_guard.history.reboots@, now),
            final(self).reboot_guard.path == old(self).reboot_guard.path,
            final(self).unit == old(self).unit,
    {
        if !self.reboot_guard.try_reboot(now) {
            return None;
        }
        let parts: [&str; 1] = ["reboot"];
        assert(strs(parts@) =~= seq!["reboot"@]);
        Some(svec(&parts))
    }
}

} // verus!
