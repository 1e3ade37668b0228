//! Launching an app's container.
//!
//! The image comes from the first source that has it: a prebuilt tarball, the
//! registry, docker's own store, or a build from the sources.
use vstd::prelude::*;
use crate::config::DockerConfig;
use crate::docker::image_build::{derive_id, precheck};
use crate::docker::protocol::{
    build_args, container_name, container_of, image_cache_decision, image_tag, inspect_args, load_args, published, pull_args, rm_args,
    run_args, stop_args, tag_args, versioned_image_tag, ImageCacheDecision,
};
use crate::docker::runtime::rt_app_port;
use crate::manifest::Runtime;
use crate::number::{decimal, push_decimal};
use crate::path::{file_name, join, joined, parent_dir, parent_of, stem_of};
use crate::text::{opt_owned, opt_str, opt_text, texts};

verus! {

/// What to do next to launch a container.
#[derive(Debug, Clone, Copy, PartialEq, Eq, Structural)]
pub enum DockerAction {
    /// Load the image from the prebuilt tarball.
    Load,
    /// Pull the image from the registry.
    Pull,
    /// Give the pulled image its local tag.
    TagPulled,
    /// Ask whether the image is there.
    Inspect,
    /// Build the image.
    Build,
    /// Reserve a loopback port.
    Reserve,
    /// Remove a stale container of that name; it may not be there.
    RemoveStale,
    /// Run the container.
    Run,
    /// Wait for the app to answer.
    AwaitReady,
    /// Remove the container.
    Remove,
    /// Nothing: the launch is over.
    Stop,
}

/// Where a launch failed.
#[derive(Debug, Clone, Copy, PartialEq, Eq, Structural)]
pub enum DockerFault {
    /// The build.
    Build,
    /// No port could be reserved.
    Reserve,
    /// The container did not run.
    Run,
    /// The app did not answer in time.
    Ready,
}

/// The state of a launch.
#[derive(Debug, Clone, Copy, PartialEq, Eq, Structural)]
pub struct DockerLaunch {
    /// Is there a registry reference?
    pub has_ref: bool,
    /// What to do next.
    pub next: DockerAction,
    /// Is the image known to be in docker's store?
    pub image: bool,
    /// Is there a container that was run and not removed?
    pub container: bool,
    /// Where the launch failed, if it did.
    pub fault: Option<DockerFault>,
}

/// What is done about the registry.
pub open spec fn after_load(has_ref: bool) -> DockerAction {
    if has_ref {
        DockerAction::Pull
    } else {
        DockerAction::Inspect
    }
}

/// The first state of a launch.
pub open spec fn docker_start(has_tar: bool, has_ref: bool) -> DockerLaunch {
    DockerLaunch {
        has_ref,
        next: if has_tar {
            DockerAction::Load
        } else {
            after_load(has_ref)
        },
        image: false,
        container: false,
        fault: None,
    }
}

/// The state after the next action succeeded or not. A tarball or a registry
/// that does not give the image only means that the next source is tried. An
/// image that is there is not built.
pub open spec fn docker_after(s: DockerLaunch, ok: bool) -> DockerLaunch {
    match s.next {
        DockerAction::Load => DockerLaunch { next: after_load(s.has_ref), ..s },
        DockerAction::Pull => DockerLaunch {
            next: if ok {
                DockerAction::TagPulled
            } else {
                DockerAction::Inspect
            },
            ..s
        },
        DockerAction::TagPulled => DockerLaunch { next: DockerAction::Inspect, ..s },
        DockerAction::Inspect => DockerLaunch {
            next: if ok {
                DockerAction::Reserve
            } else {
                DockerAction::Build
            },
            image: ok,
            ..s
        },
        DockerAction::Build => if ok {
            DockerLaunch { next: DockerAction::Reserve, image: true, ..s }
        } else {
            DockerLaunch { next: DockerAction::Stop, fault: Some(DockerFault::Build), ..s }
        },
        DockerAction::Reserve => if ok {
            DockerLaunch { next: DockerAction::RemoveStale, ..s }
        } else {
            DockerLaunch { next: DockerAction::Stop, fault: Some(DockerFault::Reserve), ..s }
        },
        DockerAction::RemoveStale => DockerLaunch { next: DockerAction::Run, ..s },
        DockerAction::Run => if ok {
            DockerLaunch { next: DockerAction::AwaitReady, container: true, ..s }
        } else {
            DockerLaunch { next: DockerAction::Stop, fault: Some(DockerFault::Run), ..s }
        },
        DockerAction::AwaitReady => if ok {
            DockerLaunch { next: DockerAction::Stop, ..s }
        } else {
            DockerLaunch { next: DockerAction::Remove, fault: Some(DockerFault::Ready), ..s }
        },
        DockerAction::Remove => DockerLaunch { next: DockerAction::Stop, container: false, ..s },
        DockerAction::Stop => s,
    }
}

impl DockerLaunch {
    /// The first state of a launch: whether there is a prebuilt tarball, and
    /// whether there is a registry reference.
    pub fn new(has_tar: bool, has_ref: bool) -> (r: Self)
        ensures
            r == docker_start(has_tar, has_ref),
    {
        DockerLaunch {
            has_ref,
            next: if has_tar {
                DockerAction::Load
            } else if has_ref {
                DockerAction::Pull
            } else {
                DockerAction::Inspect
            },
            image: false,
            container: false,
            fault: None,
        }
    }

    /// Goes on after the next action succeeded or not.
    pub fn advance(&mut self, ok: bool)
        ensures
            *final(self) == docker_after(*old(self), ok),
    {
        match self.next {
            DockerAction::Load => {
                self.next = if self.has_ref {
                    DockerAction::Pull
                } else {
                    DockerAction::Inspect
                };
            },
            DockerAction::Pull => {
                self.next = if ok {
                    DockerAction::TagPulled
                } else {
                    DockerAction::Inspect
                };
            },
            DockerAction::TagPulled => {
                self.next = DockerAction::Inspect;
            },
            DockerAction::Inspect => {
                self.image = ok;
                self.next = match image_cache_decision(ok) {
                    ImageCacheDecision::Skip => DockerAction::Reserve,
                    ImageCacheDecision::Build => DockerAction::Build,
                };
            },
            DockerAction::Build => {
                if ok {
                    self.image = true;
                    self.next = DockerAction::Reserve;
                } else {
                    self.fault = Some(DockerFault::Build);
                    self.next = DockerAction::Stop;
                }
            },
            DockerAction::Reserve => {
                if ok {
                    self.next = DockerAction::RemoveStale;
                } else {
                    self.fault = Some(DockerFault::Reserve);
                    self.next = DockerAction::Stop;
                }
            },
            DockerAction::RemoveStale => {
                self.next = DockerAction::Run;
            },
            DockerAction::Run => {
                if ok {
                    self.container = true;
                    self.next = DockerAction::AwaitReady;
                } else {
                    self.fault = Some(DockerFault::Run);
                    self.next = DockerAction::Stop;
                }
            },
            DockerAction::AwaitReady => {
                if ok {
                    self.next = DockerAction::Stop;
                } else {
                    self.fault = Some(DockerFault::Ready);
                    self.next = DockerAction::Remove;
                }
            },
            DockerAction::Remove => {
                self.container = false;
                self.next = DockerAction::Stop;
            },
            DockerAction::Stop => {},
        }
    }
}

/// The state after a number of actions.
pub open spec fn docker_all(s: DockerLaunch, events: Seq<bool>) -> DockerLaunch
    decreases events.len(),
{
    if events.len() == 0 {
        s
    } else {
        docker_after(docker_all(s, events.drop_last()), events.last())
    }
}

/// What holds of every state of a launch.
pub open spec fn docker_inv(s: DockerLaunch) -> bool {
    match s.next {
        DockerAction::Load => !s.image && !s.container && s.fault is None,
        DockerAction::Pull => !s.image && !s.container && s.fault is None && s.has_ref,
        DockerAction::TagPulled => !s.image && !s.container && s.fault is None && s.has_ref,
        DockerAction::Inspect => !s.image && !s.container && s.fault is None,
        DockerAction::Build => !s.image && !s.container && s.fault is None,
        DockerAction::Reserve => s.image && !s.container && s.fault is None,
        DockerAction::RemoveStale => s.image && !s.container && s.fault is None,
        DockerAction::Run => s.image && !s.container && s.fault is None,
        DockerAction::AwaitReady => s.image && s.container && s.fault is None,
        DockerAction::Remove => s.container && s.fault == Some(DockerFault::Ready),
        DockerAction::Stop => if s.fault is None {
            s.image && s.container
        } else {
            !s.container
        },
    }
}

/// Every launch keeps it: a container is run only from an image that is
/// there, a launch that succeeded has its container, and one that failed has
/// left none behind.
pub proof fn law_docker_launch(has_tar: bool, has_ref: bool, events: Seq<bool>)
    ensures
        docker_inv(docker_all(docker_start(has_tar, has_ref), events)),
    decreases events.len(),
{
    if events.len() > 0 {
        law_docker_launch(has_tar, has_ref, events.drop_last());
    }
}

/// How many actions a launch has left at most.
pub open spec fn docker_left(s: DockerLaunch) -> int {
    match s.next {
        DockerAction::Load => 10,
        DockerAction::Pull => 9,
        DockerAction::TagPulled => 8,
        DockerAction::Inspect => 7,
        DockerAction::Build => 6,
        DockerAction::Reserve => 5,
        DockerAction::RemoveStale => 4,
        DockerAction::Run => 3,
        DockerAction::AwaitReady => 2,
        DockerAction::Remove => 1,
        DockerAction::Stop => 0,
    }
}

/// Every launch is over after at most ten actions: each that is not the last
/// leaves fewer to do.
pub proof fn law_docker_launch_ends(s: DockerLaunch, ok: bool)
    requires
        s.next != DockerAction::Stop,
    ensures
        0 <= docker_left(docker_after(s, ok)) < docker_left(s) <= 10,
{
}

/// The action number `i` of a launch in which nothing fails that must not: the
/// tarball is loaded if there is one, the image pulled and tagged if there is a
/// reference, and then asked for; only if it is not there is it built. A port
/// is reserved, a stale container removed, the container run and its app
/// awaited. `pulled` and `there` say whether the image could be pulled and
/// whether it was there. Behind the end there is nothing to do.
pub open spec fn docker_at(has_tar: bool, has_ref: bool, pulled: bool, there: bool, i: int) -> DockerAction {
    let loaded: int = if has_tar {
        1
    } else {
        0
    };
    let fetched: int = loaded + if has_ref && pulled {
        2int
    } else if has_ref {
        1
    } else {
        0
    };
    let made: int = fetched + if there {
        1int
    } else {
        2
    };
    if i < loaded {
        DockerAction::Load
    } else if i < fetched {
        if i == loaded {
            DockerAction::Pull
        } else {
            DockerAction::TagPulled
        }
    } else if i < made {
        if i == fetched {
            DockerAction::Inspect
        } else {
            DockerAction::Build
        }
    } else if i == made {
        DockerAction::Reserve
    } else if i == made + 1 {
        DockerAction::RemoveStale
    } else if i == made + 2 {
        DockerAction::Run
    } else if i == made + 3 {
        DockerAction::AwaitReady
    } else {
        DockerAction::Stop
    }
}

/// Is that how action `a` goes in such a launch?
pub open spec fn docker_fits(a: DockerAction, ok: bool, pulled: bool, there: bool) -> bool {
    match a {
        DockerAction::Load => true,
        DockerAction::Pull => ok == pulled,
        DockerAction::TagPulled => true,
        DockerAction::Inspect => ok == there,
        DockerAction::RemoveStale => true,
        DockerAction::Remove => true,
        DockerAction::Stop => true,
        _ => ok,
    }
}

/// Do the first `n` actions go as they do in such a launch?
pub open spec fn docker_goes_well(has_tar: bool, has_ref: bool, pulled: bool, there: bool, events: Seq<bool>, n: int) -> bool {
    forall|i: int|
        0 <= i < n ==> docker_fits(docker_at(has_tar, has_ref, pulled, there, i), #[trigger] events[i], pulled, there)
}

/// A launch goes by the script for as long as nothing fails that must not.
pub proof fn law_docker_launch_goes_by_the_script(has_tar: bool, has_ref: bool, pulled: bool, there: bool, events: Seq<bool>)
    requires
        docker_goes_well(has_tar, has_ref, pulled, there, events, events.len() as int),
    ensures
        ({
            let s = docker_all(docker_start(has_tar, has_ref), events);
            &&& s.next == docker_at(has_tar, has_ref, pulled, there, events.len() as int)
            &&& s.fault is None
            &&& s.has_ref == has_ref
        }),
    decreases events.len(),
{
    if events.len() > 0 {
        let head = events.drop_last();
        assert forall|i: int| 0 <= i < head.len() implies docker_fits(
            docker_at(has_tar, has_ref, pulled, there, i),
            #[trigger] head[i],
            pulled,
            there,
        ) by {
            assert(events[i] == head[i]);
        }
        law_docker_launch_goes_by_the_script(has_tar, has_ref, pulled, there, head);
        let n = events.len() - 1;
        assert(docker_fits(docker_at(has_tar, has_ref, pulled, there, n), events[n], pulled, there));
    }
}

/// A build, a port or a container that fails ends the launch with that fault
/// and nothing more to do; an app that does not answer in time has its
/// container removed first.
pub proof fn law_failed_docker_launch(has_tar: bool, has_ref: bool, pulled: bool, there: bool, events: Seq<bool>, n: int)
    requires
        0 <= n < events.len(),
        docker_goes_well(has_tar, has_ref, pulled, there, events, n),
        !docker_fits(docker_at(has_tar, has_ref, pulled, there, n), events[n], pulled, there),
        docker_at(has_tar, has_ref, pulled, there, n) != DockerAction::Pull,
        docker_at(has_tar, has_ref, pulled, there, n) != DockerAction::Inspect,
    ensures
        ({
            let s = docker_all(docker_start(has_tar, has_ref), events);
            let a = docker_at(has_tar, has_ref, pulled, there, n);
            &&& s.fault == Some(
                match a {
                    DockerAction::Build => DockerFault::Build,
                    DockerAction::Reserve => DockerFault::Reserve,
                    DockerAction::Run => DockerFault::Run,
                    _ => DockerFault::Ready,
                },
            )
            &&& s.next == if a == DockerAction::AwaitReady && events.len() == n + 1 {
                DockerAction::Remove
            } else {
                DockerAction::Stop
            }
        }),
    decreases events.len(),
{
    let head = events.drop_last();
    assert forall|i: int| 0 <= i < n implies docker_fits(
        docker_at(has_tar, has_ref, pulled, there, i),
        #[trigger] head[i],
        pulled,
        there,
    ) by {
        assert(events[i] == head[i]);
    }
    if events.len() == n + 1 {
        law_docker_launch_goes_by_the_script(has_tar, has_ref, pulled, there, head);
    } else {
        assert(head[n] == events[n]);
        law_failed_docker_launch(has_tar, has_ref, pulled, there, head, n);
    }
}

/// An app's container, coming up or serving.
#[derive(Debug)]
pub struct DockerRuntime {
    /// Tag of the image.
    pub image: String,
    /// Name of the container.
    pub container: String,
    /// The prebuilt tarball, where there could be one.
    pub tar: String,
    /// Registry reference.
    pub image_ref: Option<String>,
    /// Port that the app listens on.
    pub app_port: u16,
    /// How far the launch has come.
    pub run: DockerLaunch,
}

/// The directory of an app's version: the one that its build context lies in.
pub open spec fn app_dir_of(context: Seq<char>) -> Seq<char> {
    match parent_of(context) {
        Some(dir) => dir,
        None => context,
    }
}

/// Where the prebuilt tarball of an app would be: beside its build context.
pub fn tar_path(context: &str) -> (r: String)
    ensures
        r@ == joined(app_dir_of(context@), "image.tar.gz"@),
{
    match parent_dir(context) {
        Some(dir) => join(&dir, "image.tar.gz"),
        None => join(context, "image.tar.gz"),
    }
}

/// What must hold before a container is launched, and what is said where it
/// does not.
pub open spec fn launch_refusal(available: bool, context: Seq<char>, context_is_file: bool) -> Option<Seq<char>> {
    if !available {
        Some("docker runtime requires a reachable Docker daemon (`docker info` failed)"@)
    } else if !context_is_file {
        Some("docker build context not found at "@ + context)
    } else {
        None
    }
}

/// The docker command of an action, where it is one.
pub open spec fn docker_command(
    action: DockerAction,
    image: Seq<char>,
    container: Seq<char>,
    tar: Seq<char>,
    image_ref: Option<Seq<char>>,
    host_port: nat,
    app_port: nat,
) -> Option<Seq<Seq<char>>> {
    match action {
        DockerAction::Load => Some(seq!["load"@, "-i"@, tar]),
        DockerAction::Pull => match image_ref {
            Some(reff) => Some(seq!["pull"@, reff]),
            None => None,
        },
        DockerAction::TagPulled => match image_ref {
            Some(reff) => Some(seq!["tag"@, reff, image]),
            None => None,
        },
        DockerAction::Inspect => Some(seq!["image"@, "inspect"@, image]),
        DockerAction::Build => Some(seq!["build"@, "-t"@, image, "-"@]),
        DockerAction::RemoveStale => Some(seq!["rm"@, "-f"@, container]),
        DockerAction::Run => Some(
            seq!["run"@, "-d"@, "--name"@, container, "-p"@, published(host_port, app_port), image],
        ),
        DockerAction::Remove => Some(seq!["rm"@, "-f"@, container]),
        DockerAction::Reserve => None,
        DockerAction::AwaitReady => None,
        DockerAction::Stop => None,
    }
}

/// Where the app in a container is reached.
pub fn container_base(host_port: u16) -> (r: String)
    ensures
        r@ == "http://127.0.0.1:"@ + decimal(host_port as nat),
{
    let mut out: String = "http://127.0.0.1:".to_owned();
    push_decimal(&mut out, host_port as u64);
    out
}

impl DockerRuntime {
    /// Launches a container under an id taken from the name of the build
    /// context.
    pub fn launch(
        available: bool,
        context: &str,
        context_is_file: bool,
        has_tar: bool,
        rt: &Runtime,
        cfg: &DockerConfig,
        launch: u64,
    ) -> (r: Result<Self, String>)
        ensures
            (match r {
                Ok(_) => None,
                Err(e) => Some(e@),
            }) == launch_refusal(available, context@, context_is_file),
            r matches Ok(d) ==> ({
                let id = match file_name(context@) {
                    Some(n) => stem_of(n),
                    None => "context"@,
                };
                d.image@ == image_tag(id, 0) && d.container@ == container_of(id, launch as nat) && d.image_ref is None && d.tar@
                    == joined(app_dir_of(context@), "image.tar.gz"@) && d.app_port == cfg.app_port && d.run == docker_start(has_tar, false)
            }),
    {
        let id = derive_id(context);
        DockerRuntime::launch_with_id(available, context, context_is_file, has_tar, rt, cfg, &id, 0, None, launch)
    }

    /// Launches an app's container. The flags say whether docker answers,
    /// whether the build context is there, and whether there is a prebuilt
    /// tarball beside the context; `launch` counts the launches of this
    /// process.
    pub fn launch_with_id(
        available: bool,
        context: &str,
        context_is_file: bool,
        has_tar: bool,
        rt: &Runtime,
        cfg: &DockerConfig,
        id: &str,
        version: u64,
        image_ref: Option<&str>,
        launch: u64,
    ) -> (r: Result<Self, String>)
        ensures
            (match r {
                Ok(_) => None,
                Err(e) => Some(e@),
            }) == launch_refusal(available, context@, context_is_file),
            r matches Ok(d) ==> d.image@ == image_tag(id@, version as nat) && d.container@ == container_of(id@, launch as nat)
                && opt_text(d.image_ref) == opt_str(image_ref) && d.tar@ == joined(app_dir_of(context@), "image.tar.gz"@) && d.app_port
                == cfg.app_port && d.run == docker_start(has_tar, image_ref is Some),
    {
        match precheck(available, context, context_is_file) {
            Ok(_) => {},
            Err(e) => return Err(e),
        }
        let has_ref: bool = match image_ref {
            Some(_) => true,
            None => false,
        };
        Ok(
            DockerRuntime {
                image: versioned_image_tag(id, version),
                container: container_name(id, launch),
                tar: tar_path(context),
                image_ref: opt_owned(image_ref),
                app_port: rt_app_port(rt, cfg),
                run: DockerLaunch::new(has_tar, has_ref),
            },
        )
    }

    /// Is the build left out? The inspect runner is handed the command that
    /// asks for this runtime's own image, and says whether it is there: only
    /// then is it not built.
    pub fn should_skip_build(&self, inspect_runner: impl Fn(Vec<String>) -> bool) -> (r: bool)
        requires
            forall|args: Vec<String>| texts(args@) == seq!["image"@, "inspect"@, self.image@] ==> #[trigger] inspect_runner.requires((args,)),
        ensures
            exists|args: Vec<String>|
                texts(args@) == seq!["image"@, "inspect"@, self.image@] && #[trigger] inspect_runner.ensures((args,), r),
    {
        let exists: bool = inspect_runner(inspect_args(&self.image));
        match image_cache_decision(exists) {
            ImageCacheDecision::Skip => true,
            ImageCacheDecision::Build => false,
        }
    }

    /// Is the image loaded from the prebuilt tarball in `app_dir`? Where there
    /// is one, the runner is handed the command that loads it, and says whether
    /// it was.
    pub fn load_image_tar(&self, app_dir: &str, tar_is_file: bool, tar_load_runner: impl Fn(Vec<String>) -> bool) -> (r: bool)
        requires
            forall|args: Vec<String>|
                texts(args@) == seq!["load"@, "-i"@, joined(app_dir@, "image.tar.gz"@)] ==> #[trigger] tar_load_runner.requires((args,)),
        ensures
            !tar_is_file ==> !r,
            tar_is_file ==> exists|args: Vec<String>|
                texts(args@) == seq!["load"@, "-i"@, joined(app_dir@, "image.tar.gz"@)] && #[trigger] tar_load_runner.ensures((args,), r),
    {
        if !tar_is_file {
            return false;
        }
        let tar = join(app_dir, "image.tar.gz");
        tar_load_runner(load_args(&tar))
    }

    /// The two commands that take the container down, in order: it is stopped,
    /// and then removed.
    pub fn shutdown(&self) -> (r: [Vec<String>; 2])
        ensures
            texts(r@[0]@) == seq!["stop"@, self.container@],
            texts(r@[1]@) == seq!["rm"@, "-f"@, self.container@],
    {
        [stop_args(&self.container), rm_args(&self.container)]
    }

    /// The docker command of an action, where it is one.
    pub fn command(&self, action: DockerAction, host_port: u16) -> (r: Option<Vec<String>>)
        ensures
            (match r {
                Some(v) => Some(texts(v@)),
                None => None,
            }) == docker_command(
                action,
                self.image@,
                self.container@,
                self.tar@,
                opt_text(self.image_ref),
                host_port as nat,
                self.app_port as nat,
            ),
    {
        match action {
            DockerAction::Load => Some(load_args(&self.tar)),
            DockerAction::Pull => match &self.image_ref {
                Some(reff) => Some(pull_args(reff)),
                None => None,
            },
            DockerAction::TagPulled => match &self.image_ref {
                Some(reff) => Some(tag_args(reff, &self.image)),
                None => None,
            },
            DockerAction::Inspect => Some(inspect_args(&self.image)),
            DockerAction::Build => Some(build_args(&self.image)),
            DockerAction::RemoveStale => Some(rm_args(&self.container)),
            DockerAction::Run => Some(run_args(&self.container, host_port, self.app_port, &self.image)),
            DockerAction::Remove => Some(rm_args(&self.container)),
            DockerAction::Reserve => None,
            DockerAction::AwaitReady => None,
            DockerAction::Stop => None,
        }
    }
}

/// The commands of a launch agree with one another: the image that is asked
/// for is the one that is built, that a pulled one is tagged as, and that is
/// run; what is pulled is what is tagged; and the container that is removed,
/// before and after, is the one that is run, with its port on loopback.
pub proof fn law_docker_commands_agree(
    image: Seq<char>,
    container: Seq<char>,
    tar: Seq<char>,
    reff: Seq<char>,
    host_port: nat,
    app_port: nat,
)
    ensures
        ({
            let command = |a: DockerAction| docker_command(a, image, container, tar, Some(reff), host_port, app_port);
            let run = command(DockerAction::Run)->Some_0;
            &&& command(DockerAction::Inspect)->Some_0.last() == image
            &&& command(DockerAction::Inspect)->Some_0.take(2) == seq!["image"@, "inspect"@]
            &&& command(DockerAction::Build)->Some_0[0] == "build"@ && command(DockerAction::Build)->Some_0[2] == image
            &&& command(DockerAction::TagPulled)->Some_0[0] == "tag"@ && command(DockerAction::TagPulled)->Some_0[1] == reff
            &&& command(DockerAction::TagPulled)->Some_0[2] == image
            &&& command(DockerAction::Pull)->Some_0 == seq!["pull"@, reff]
            &&& command(DockerAction::Load)->Some_0.last() == tar && command(DockerAction::Load)->Some_0[0] == "load"@
            &&& command(DockerAction::RemoveStale) == command(DockerAction::Remove)
            &&& command(DockerAction::Remove)->Some_0 == seq!["rm"@, "-f"@, container]
            &&& run[0] == "run"@ && run.last() == image
            &&& run[2] == "--name"@ && run[3] == container
            &&& run[4] == "-p"@ && run[5] == "127.0.0.1:"@ + decimal(host_port) + ":"@ + decimal(app_port)
            &&& docker_command(DockerAction::Pull, image, container, tar, None, host_port, app_port) is None
            &&& docker_command(DockerAction::TagPulled, image, container, tar, None, host_port, app_port) is None
        }),
{
    let inspect = docker_command(DockerAction::Inspect, image, container, tar, Some(reff), host_port, app_port)->Some_0;
    assert(inspect.take(2) =~= seq!["image"@, "inspect"@]);
}

} // verus!
