//! An app's running container.
use vstd::prelude::*;
use crate::config::DockerConfig;
use crate::manifest::Runtime;
use crate::runtime::{ExitReason, RuntimeHealth};
use crate::text::{begins_with, chars_of, concat3, opt_text, starts_with_text, text_len, text_range};
use crate::words::{trim_text, trimmed};

verus! {

/// How long a container app may take to answer, in milliseconds.
pub const READY_TIMEOUT: u64 = 30_000;

/// The pause between two questions to a container app, in milliseconds.
pub const READY_POLL: u64 = 250;

/// The port that container apps listen on.
pub fn rt_app_port(_rt: &Runtime, cfg: &DockerConfig) -> (r: u16)
    ensures
        r == cfg.app_port,
{
    cfg.app_port
}

/// A text without the scheme in front of it, however often it stands there.
pub open spec fn without_scheme(s: Seq<char>) -> Seq<char>
    decreases s.len(),
{
    if begins_with(s, "http://"@) && "http://"@.len() > 0 {
        without_scheme(s.skip("http://"@.len() as int))
    } else {
        s
    }
}

/// Host and port of a base address; none where nothing stands behind the
/// scheme.
pub fn host_port(container_base: &str) -> (r: Option<String>)
    ensures
        opt_text(r) == if without_scheme(container_base@).len() == 0 {
            None
        } else {
            Some(without_scheme(container_base@))
        },
{
    let mut rest: String = container_base.to_owned();
    proof {
        reveal_strlit("http://");
    }
    while starts_with_text(&rest, "http://")
        invariant
            "http://"@.len() == 7,
            without_scheme(rest@) == without_scheme(container_base@),
        decreases rest@.len(),
    {
        let v = chars_of(&rest);
        rest = text_range(&v, 7, v.len());
        assert(v@.subrange(7, v@.len() as int) =~= v@.skip(7));
    }
    if text_len(&rest) == 0 {
        None
    } else {
        Some(rest)
    }
}

/// Judges whether a container serves: its published port must take a
/// connection. `probed` is what came of the attempt.
pub fn health(container_base: &str, probed: bool) -> (r: RuntimeHealth)
    ensures
        ({
            let hp = without_scheme(container_base@);
            if hp.len() == 0 {
                r is Unavailable && r->Unavailable_0@ == "container base URL is malformed"@
            } else if probed {
                r is Serving
            } else {
                r is Unavailable && r->Unavailable_0@ == "TCP connect to container port "@ + hp + " refused"@
            }
        }),
{
    match host_port(container_base) {
        Some(hp) => if probed {
            RuntimeHealth::Serving
        } else {
            RuntimeHealth::Unavailable(concat3("TCP connect to container port ", &hp, " refused"))
        },
        None => RuntimeHealth::Unavailable("container base URL is malformed".to_owned()),
    }
}

/// What is said of a container that exited: `waited` is what docker printed,
/// or why it could not be waited for.
pub fn container_exit_watcher(container: &str, waited: Result<&str, &str>) -> (r: ExitReason)
    ensures
        match waited {
            Ok(out) => r->Died_0@ == "container "@ + container@ + " exited with code "@ + trimmed(out@),
            Err(e) => r->Died_0@ == "container "@ + container@ + ": docker wait failed: "@ + e@,
        },
{
    match waited {
        Ok(out) => {
            let mut t = concat3("container ", container, " exited with code ");
            let code = trim_text(out);
            t.append(&code);
            ExitReason::Died(t)
        },
        Err(e) => {
            let mut t = concat3("container ", container, ": docker wait failed: ");
            t.append(e);
            ExitReason::Died(t)
        },
    }
}

/// What to do after one question to the container app.
#[derive(Debug)]
pub enum ContainerWait {
    /// It answered.
    Ready,
    /// Ask again after the poll interval.
    Sleep,
    /// It did not answer in time; the text says why.
    Fail(String),
}

/// What to do after one question to the container app; `error` is why there
/// was no answer.
pub fn wait_until_ready(container_base: &str, error: Option<&str>, now_ms: u64, deadline_ms: u64) -> (r: ContainerWait)
    ensures
        match error {
            None => r is Ready,
            Some(e) => if now_ms < deadline_ms {
                r is Sleep
            } else {
                r is Fail && r->Fail_0@ == "container app at "@ + container_base@ + " never became ready: "@ + e@
            },
        },
{
    match error {
        None => ContainerWait::Ready,
        Some(e) => if now_ms < deadline_ms {
            ContainerWait::Sleep
        } else {
            let mut t = concat3("container app at ", container_base, " never became ready: ");
            t.append(e);
            ContainerWait::Fail(t)
        },
    }
}

} // verus!
