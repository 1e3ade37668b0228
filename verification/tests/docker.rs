//! Docker builds and containers: the daemon gate, image naming, argv builders,
//! the registry push and the launch sequence.
use tabbify_supervisor::config::DockerConfig;
use tabbify_supervisor::docker::image_build::{
    build_image, derive_id, precheck, production_command_runner, run_docker, BuildEnd, CommandEnd,
};
use tabbify_supervisor::docker::launch::{container_base, tar_path, DockerAction, DockerFault, DockerLaunch, DockerRuntime};
use tabbify_supervisor::docker::protocol::{
    build_args, container_name, docker_available_with, image_cache_decision, inspect_args, load_args, pull_args, push_args,
    rm_args, rmi_args, run_args, stop_args, tag_args, versioned_image_tag, ImageCacheDecision,
};
use tabbify_supervisor::docker::purge::{purge_containers, purge_image};
use tabbify_supervisor::docker::push::{push_image, PushStep};
use tabbify_supervisor::docker::runtime::{
    container_exit_watcher, health, host_port, rt_app_port, wait_until_ready, ContainerWait, READY_POLL, READY_TIMEOUT,
};
use tabbify_supervisor::manifest::Runtime;
use tabbify_supervisor::runtime::{ExitReason, RuntimeHealth};

fn docker_rt() -> Runtime {
    Runtime {
        runtime_type: "docker".to_owned(),
        entry: "context.tar.gz".to_owned(),
        fuel_per_request: 0,
        memory_mb: 0,
        vcpus: None,
        port: None,
        kernel: None,
        registry_ref: None,
        stateful: false,
        data_mount: None,
    }
}

fn docker_cfg() -> DockerConfig {
    DockerConfig { app_port: 9000, ..DockerConfig::default() }
}

#[test]
fn derive_id_uses_file_stem() {
    assert_eq!(derive_id("/cache/apps/u/v1/context.tar.gz"), "context.tar");
}

#[test]
fn precheck_without_docker_errors_clearly() {
    let err = precheck(false, "/whatever/context.tar.gz", false).unwrap_err();
    let msg = err.to_string().to_lowercase();
    assert!(msg.contains("docker") && msg.contains("daemon"), "got: {err}");
}

#[test]
fn precheck_with_docker_but_missing_context_errors() {
    let err = precheck(true, "/does/not/exist.tar.gz", false).unwrap_err();
    assert!(err.to_string().contains("build context not found"), "got: {err}");
}

#[test]
fn precheck_passes_when_available_and_context_present() {
    let f = tempfile::NamedTempFile::new().unwrap();
    let path = f.path().to_str().unwrap().to_owned();
    assert!(precheck(true, &path, f.path().is_file()).is_ok());
}

#[test]
fn runtime_rt_app_port_uses_config() {
    assert_eq!(rt_app_port(&docker_rt(), &docker_cfg()), 9000);
}

#[test]
fn runtime_tests_rt_app_port_uses_config() {
    let rt = Runtime { vcpus: None, ..docker_rt() };
    let cfg = DockerConfig { app_port: 9000, ..DockerConfig::default() };
    assert_eq!(rt_app_port(&rt, &cfg), 9000);
    assert_eq!(rt.entry, "context.tar.gz");
    assert_eq!(rt.runtime_type, "docker");
}

#[test]
fn docker_gate_reflects_the_injected_probe() {
    assert!(docker_available_with(|| true));
    assert!(!docker_available_with(|| false));
}

#[test]
fn versioned_image_tag_encodes_uuid_and_version() {
    let uuid = "0191e7c2-1111-7222-8333-444455556666";
    assert_eq!(versioned_image_tag(uuid, 3), "tbf-img-0191e7c2-1111-7222-8333-444455556666-v3");
}

#[test]
fn versioned_image_tag_differs_across_versions() {
    let uuid = "abc123";
    assert_ne!(versioned_image_tag(uuid, 1), versioned_image_tag(uuid, 2));
}

#[test]
fn versioned_image_tag_sanitizes_uuid() {
    assert_eq!(versioned_image_tag("My/App", 1), "tbf-img-my-app-v1");
}

#[test]
fn purge_rmi_targets_versioned_image_tag() {
    let uuid = "0191e7c2-1111-7222-8333-444455556666";
    let version = 7_u64;
    let tag = versioned_image_tag(uuid, version);
    let expected = vec![
        "rmi".to_owned(),
        "-f".to_owned(),
        "tbf-img-0191e7c2-1111-7222-8333-444455556666-v7".to_owned(),
    ];
    assert_eq!(rmi_args(&tag), expected, "purge must pass the versioned image tag to docker rmi");
    let (_list, rmi) = purge_image(uuid, version);
    assert_eq!(rmi, expected);
}

#[test]
fn rmi_args_force_remove_image_by_tag() {
    assert_eq!(rmi_args("tabbify-app-x"), vec!["rmi", "-f", "tabbify-app-x"]);
}

#[test]
fn push_args_returns_correct_argv() {
    assert_eq!(push_args("[fd5a::1]:5000/acme/app:sha"), vec!["push", "[fd5a::1]:5000/acme/app:sha"]);
}

#[test]
fn tag_args_returns_correct_argv() {
    assert_eq!(
        tag_args("[fd5a::1]:5000/acme/app:abc", "tbf-img-uuid-v3"),
        vec!["tag", "[fd5a::1]:5000/acme/app:abc", "tbf-img-uuid-v3"]
    );
}

/// Runs the push steps with `answer` in place of docker, and gives the commands
/// issued and how it ended.
fn drive_push(local: &str, reff: &str, answer: fn(&[String]) -> Result<(), String>) -> (Vec<Vec<String>>, Result<(), String>) {
    let mut issued: Vec<Vec<String>> = Vec::new();
    let mut error: Option<String> = None;
    loop {
        match push_image(local, reff, issued.len(), error.as_deref()) {
            PushStep::Run(args) => {
                error = answer(&args).err();
                issued.push(args);
            }
            PushStep::Pushed => return (issued, Ok(())),
            PushStep::Failed(e) => return (issued, Err(e)),
        }
    }
}

#[test]
fn push_image_issues_tag_then_push_on_success() {
    let (cmds, result) = drive_push("tbf-img-uuid-v1", "[fd5a::1]:5000/acme/app:sha", |_| Ok(()));
    assert!(result.is_ok(), "both tag + push succeed");
    assert_eq!(cmds.len(), 2, "must issue exactly 2 commands (tag + push)");
    assert_eq!(
        cmds[0],
        vec!["tag".to_owned(), "tbf-img-uuid-v1".to_owned(), "[fd5a::1]:5000/acme/app:sha".to_owned()],
        "first command must be docker tag <local_tag> <ref>"
    );
    assert_eq!(
        cmds[1],
        vec!["push".to_owned(), "[fd5a::1]:5000/acme/app:sha".to_owned()],
        "second command must be docker push <ref>"
    );
}

#[test]
fn push_image_returns_err_and_skips_push_on_tag_failure() {
    let (cmds, result) = drive_push("tbf-img-uuid-v2", "[fd5a::1]:5000/acme/app:sha", |_| Err("tag failed".to_owned()));
    assert!(result.is_err(), "tag fails");
    assert_eq!(cmds.len(), 1, "must issue only the tag command");
}

#[test]
fn push_image_surfaces_push_stderr_in_err() {
    let (_, result) = drive_push("tbf-img-uuid-v9", "[fd5a::1]:5000/acme/app:sha", |args| {
        if args[0] == "push" {
            Err("unauthorized: authentication required".to_owned())
        } else {
            Ok(())
        }
    });
    let err = result.unwrap_err();
    assert!(err.contains("unauthorized: authentication required"), "got: {err}");
}

#[test]
fn docker_commands_are_exact() {
    {
        assert_eq!(pull_args("r:1"), vec!["pull", "r:1"]);
        assert_eq!(inspect_args("t"), vec!["image", "inspect", "t"]);
        assert_eq!(load_args("/x.tar"), vec!["load", "-i", "/x.tar"]);
        assert_eq!(build_args("t"), vec!["build", "-t", "t", "-"]);
        assert_eq!(stop_args("c"), vec!["stop", "c"]);
        assert_eq!(rm_args("c"), vec!["rm", "-f", "c"]);
        assert!(run_args("c", 40001, 8080, "t").contains(&"127.0.0.1:40001:8080".to_owned()));
        assert!(run_args("c", 40001, 8080, "t").contains(&"c".to_owned()));
        assert_eq!(run_args("c", 40001, 8080, "t").last().unwrap(), "t");
    }
    {
        assert_ne!(container_name("My/App", 1), container_name("My/App", 2));
        assert!(container_name("My/App", 7).contains("my-app"));
    }
    {
        assert_eq!(image_cache_decision(true), ImageCacheDecision::Skip);
        assert_eq!(image_cache_decision(false), ImageCacheDecision::Build);
    }
}


#[test]
fn commands_fail_with_their_own_words() {
    let args = push_args("r");
    assert!(production_command_runner("docker", &args, &CommandEnd::Success).is_ok());
    let e = production_command_runner("docker", &args, &CommandEnd::Exit(Some(1), "denied".to_owned())).unwrap_err();
    assert!(e.contains("denied"), "{e}");
    let e = production_command_runner("docker", &args, &CommandEnd::NotSpawned("no such file".to_owned())).unwrap_err();
    assert!(e.contains("no such file"), "{e}");
    assert!(run_docker(&args, "denied").contains("denied"));
    assert!(build_image(&BuildEnd::Success).is_ok());
    assert!(build_image(&BuildEnd::Exit(Some(2), "bad Dockerfile".to_owned())).unwrap_err().contains("bad Dockerfile"));
    assert!(build_image(&BuildEnd::TimedOut(600)).unwrap_err().contains("600"));
}

#[test]
fn container_launches_end() {
    {
        let rt = docker_rt();
        let cfg = docker_cfg();
        assert!(DockerRuntime::launch(false, "/c/context.tar.gz", true, false, &rt, &cfg, 1).is_err());
        let d = DockerRuntime::launch_with_id(true, "/c/context.tar.gz", true, false, &rt, &cfg, "U", 3, None, 1).unwrap();
        assert_eq!(d.image, "tbf-img-u-v3");
        assert_eq!(d.app_port, 9000);
        let mut run = DockerLaunch::new(false, false);
        let mut seen = Vec::new();
        while run.next != DockerAction::Stop {
            seen.push(run.next);
            let there = run.next != DockerAction::Inspect;
            run.advance(there);
        }
        assert!(seen.contains(&DockerAction::Build));
        assert!(seen.contains(&DockerAction::AwaitReady));
        assert!(run.container && run.fault.is_none());
        let mut run = DockerLaunch::new(false, false);
        while run.next != DockerAction::Stop {
            let ok = run.next != DockerAction::AwaitReady;
            run.advance(ok);
        }
        assert_eq!(run.fault, Some(DockerFault::Ready));
        assert!(!run.container, "a container that never answers is removed");
    }
    {
        let mut run = DockerLaunch::new(true, true);
        assert_eq!(run.next, DockerAction::Load);
        let mut seen = Vec::new();
        while run.next != DockerAction::Stop {
            seen.push(run.next);
            run.advance(true);
        }
        assert!(!seen.contains(&DockerAction::Build));
    }
}


#[test]
fn containers_are_watched_and_removed() {
    {
        assert_eq!(container_base(40001), "http://127.0.0.1:40001");
        assert_eq!(host_port("http://127.0.0.1:40001"), Some("127.0.0.1:40001".to_owned()));
        assert!(matches!(health("http://127.0.0.1:40001", true), RuntimeHealth::Serving));
        assert!(matches!(health("http://127.0.0.1:40001", false), RuntimeHealth::Unavailable(_)));
        let ExitReason::Died(why) = container_exit_watcher("c", Ok("137"));
        assert!(why.contains("137"), "{why}");
        assert!(matches!(wait_until_ready("b", None, 0, READY_TIMEOUT), ContainerWait::Ready));
        assert!(matches!(wait_until_ready("b", Some("refused"), 0, READY_TIMEOUT), ContainerWait::Sleep));
        match wait_until_ready("b", Some("refused"), READY_TIMEOUT, READY_TIMEOUT) {
            ContainerWait::Fail(e) => assert!(e.contains("refused"), "{e}"),
            other => panic!("{other:?}"),
        }
        assert_eq!(READY_POLL, 250);
    }
    {
        assert_eq!(purge_containers(""), None);
        assert_eq!(purge_containers("a\nb\n"), Some(vec!["rm".to_owned(), "-f".to_owned(), "a".to_owned(), "b".to_owned()]));
    }
}

#[test]
fn the_build_is_left_out_only_where_the_image_is_there() {
    let d = DockerRuntime::launch_with_id(true, "/c/context.tar.gz", true, false, &docker_rt(), &docker_cfg(), "U", 3, None, 1).unwrap();
    assert!(d.should_skip_build(|args| args == ["image", "inspect", "tbf-img-u-v3"]));
    assert!(!d.should_skip_build(|args| args != ["image", "inspect", "tbf-img-u-v3"]));
    assert_eq!(d.tar, "/c/image.tar.gz");
    assert_eq!(tar_path("/"), "/image.tar.gz");
    assert!(d.load_image_tar("/c", true, |args| args == ["load", "-i", "/c/image.tar.gz"]));
    assert!(!d.load_image_tar("/c", true, |_| false));
    assert!(!d.load_image_tar("/c", false, |_| true));
}
