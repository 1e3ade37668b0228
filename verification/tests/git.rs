//! Cloning: the commands, the credentials and the errors.
use tabbify_supervisor::git::{
    clone, clone_fault, format_git_error, git_subcommand, inject_username, is_commit_sha, resolve_cloned_head, rev_parse_args, secret_fault, CloneAction,
    ClonePlan, CloneRun, SecretStep, MAX_STDERR_TAIL,
};

fn words(a: &[&str]) -> Vec<String> {
    a.iter().map(|s| (*s).to_owned()).collect()
}

#[test]
fn format_git_error_names_subcommand_not_dash_c() {
    let args = words(&["-C", "/tmp/dest", "fetch", "--depth", "1", "origin", "deadbeef"]);
    let msg = format_git_error(&args, Some(128), "fatal: Repository not found\n");
    assert!(msg.contains("git fetch"), "error must name the `fetch` subcommand: {msg}");
    assert!(!msg.contains("Some(\"-C\")"), "error must NOT contain the opaque `Some(\"-C\")`: {msg}");
}

#[test]
fn format_git_error_includes_code_and_stderr() {
    let args = words(&["-C", "/tmp/dest", "fetch", "origin", "main"]);
    let msg = format_git_error(&args, Some(128), "fatal: Repository not found\n");
    assert!(msg.contains("128"), "error must include the exit code: {msg}");
    assert!(msg.contains("Repository not found"), "error must include the git stderr text: {msg}");
}

#[test]
fn format_git_error_handles_missing_code() {
    let args = words(&["init", "-q", "/tmp/dest"]);
    let msg = format_git_error(&args, None, "some failure\n");
    assert!(msg.contains("git init"), "must still name the subcommand: {msg}");
    assert!(msg.contains("some failure"), "must still include stderr: {msg}");
    assert!(!msg.contains("Some("), "must not leak a debug-formatted Option: {msg}");
}

#[test]
fn format_git_error_handles_empty_stderr() {
    let args = words(&["-C", "/tmp/dest", "checkout", "FETCH_HEAD"]);
    let msg = format_git_error(&args, Some(1), "");
    assert!(msg.contains("git checkout"), "must name the subcommand even with empty stderr: {msg}");
    assert!(msg.contains('1'), "must include the exit code: {msg}");
}

#[test]
fn format_git_error_keeps_stderr_tail() {
    let args = words(&["-C", "/d", "fetch"]);
    let long = format!("{}TAIL_MARKER_END", "x".repeat(10_000));
    let msg = format_git_error(&args, Some(128), &long);
    assert!(msg.contains("TAIL_MARKER_END"), "the tail of stderr must survive: {msg}");
    assert!(msg.len() < 5_000, "the message must be bounded: len={}", msg.len());
    assert_eq!(MAX_STDERR_TAIL, 2_000);
}

/// One git command that was run, with what was in its environment.
type Call = (Vec<String>, Vec<(String, String)>);

/// Runs a clone with `answer` in place of git. Gives the commands run, how it
/// ended, and whether the token file and the askpass script are left.
fn drive_clone(
    plan: &ClonePlan,
    token: bool,
    answer: fn(&[String]) -> Result<(), String>,
) -> (Vec<Call>, Option<String>, bool, bool) {
    let mut run = CloneRun::new(token);
    let mut calls: Vec<Call> = Vec::new();
    let mut error: Option<String> = None;
    let (mut token_file, mut askpass) = (false, false);
    while run.next != CloneAction::Stop {
        let command = match run.next {
            CloneAction::Init => Some((plan.init.clone(), Vec::new())),
            CloneAction::RemoteAdd => Some((plan.remote_add.clone(), Vec::new())),
            CloneAction::Fetch => Some((plan.fetch.clone(), plan.fetch_env.clone())),
            CloneAction::Checkout => Some((plan.checkout.clone(), Vec::new())),
            CloneAction::WriteToken => {
                token_file = true;
                None
            }
            CloneAction::WriteAskpass => {
                askpass = true;
                None
            }
            CloneAction::RemoveToken => {
                token_file = false;
                None
            }
            CloneAction::RemoveAskpass => {
                askpass = false;
                None
            }
            CloneAction::MakeParent | CloneAction::Stop => None,
        };
        let mut ok = true;
        if let Some((args, env)) = command {
            if let Err(e) = answer(&args) {
                ok = false;
                error = Some(e);
            }
            calls.push((args, env));
        }
        run.advance(ok);
    }
    assert_eq!(run.fault.is_some(), error.is_some());
    (calls, error, token_file, askpass)
}

fn find_call<'a>(calls: &'a [Call], subcommand: &str) -> &'a Call {
    match calls.iter().find(|(args, _)| args.iter().any(|a| a == subcommand)) {
        Some(c) => c,
        None => panic!("no recorded call contains {subcommand:?}; got {calls:?}"),
    }
}

#[test]
fn clone_propagates_meaningful_subcommand_and_stderr() {
    let plan = clone("https://github.com/acme/missing.git", "deadbeef", None, "/w/src").unwrap();
    let (_, error, _, _) = drive_clone(&plan, false, |args| {
        if args.iter().any(|a| a == "fetch") {
            Err(format_git_error(args, Some(128), "fatal: Repository not found\n"))
        } else {
            Ok(())
        }
    });
    let chain = error.unwrap();
    assert!(chain.contains("git fetch"), "propagated error must name the failing subcommand: {chain}");
    assert!(chain.contains("Repository not found"), "propagated error must carry the git stderr: {chain}");
    assert!(!chain.contains("Some(\"-C\")"), "propagated error must NOT be the opaque `Some(\"-C\")`: {chain}");
}

#[test]
fn resolve_cloned_head_returns_trimmed_sha() {
    let sha = "c64f621abcdef0123456789abcdef0123456789a";
    let got = resolve_cloned_head(Ok(&format!("{sha}\n"))).unwrap();
    assert_eq!(got, sha);
    assert!(is_commit_sha(sha));
}

#[test]
fn resolve_cloned_head_invokes_rev_parse_head_in_dest() {
    assert!(resolve_cloned_head(Ok("c64f621abcdef0123456789abcdef0123456789a\n")).is_ok());
    assert_eq!(rev_parse_args("/tmp/dest"), vec!["-C", "/tmp/dest", "rev-parse", "HEAD"]);
}

#[test]
fn resolve_cloned_head_rejects_non_sha_output() {
    let err = resolve_cloned_head(Ok("main\n")).unwrap_err();
    assert!(err.contains("commit sha"), "error must explain the unproven-commit refusal: {err}");
}

#[test]
fn resolve_cloned_head_rejects_abbreviated_sha() {
    assert!(resolve_cloned_head(Ok("c64f621\n")).is_err(), "an abbreviated 7-char sha must be rejected");
}

#[test]
fn resolve_cloned_head_rejects_uppercase_sha() {
    let upper = "C64F621ABCDEF0123456789ABCDEF0123456789A";
    assert!(resolve_cloned_head(Ok(&format!("{upper}\n"))).is_err(), "an uppercase-hex sha must be rejected");
}

#[test]
fn resolve_cloned_head_propagates_command_error() {
    let chain = resolve_cloned_head(Err("git rev-parse failed (128): not a git repo")).unwrap_err();
    assert!(chain.contains("rev-parse"), "error must reference the rev-parse step: {chain}");
    assert_eq!(chain, "git rev-parse HEAD: git rev-parse failed (128): not a git repo");
}

#[test]
fn clones_need_a_parent_and_errors_keep_characters() {
    {
        assert_eq!(git_subcommand(&words(&["-C", "/d", "fetch"])), "fetch");
        assert_eq!(git_subcommand(&words(&["init", "-q"])), "init");
    }
    {
        let e = clone("https://github.com/acme/app.git", "main", Some("t"), "/").unwrap_err();
        assert_eq!(e, "dest path has no parent: /");
        assert!(clone("https://github.com/acme/app.git", "main", None, "/").is_err());
    }
    {
        let plan = clone("https://github.com/acme/app.git", "main", None, "/w/src").unwrap();
        assert_eq!(clone_fault(CloneAction::MakeParent, &plan, "denied"), "create dest parent dir /w: denied");
        assert_eq!(clone_fault(CloneAction::Fetch, &plan, "gone"), "git fetch: gone");
        assert_eq!(secret_fault(SecretStep::Restrict, "/w/t", 0o600, "denied"), "chmod 600 /w/t: denied");
        assert_eq!(secret_fault(SecretStep::Create, "/w/t", 0o600, "denied"), "create secret file /w/t: denied");
    }
    {
        let args = words(&["fetch"]);
        let long = "\u{e4}".repeat(3_000);
        let msg = format_git_error(&args, Some(128), &long);
        assert!(msg.ends_with('\u{e4}'));
    }
}

#[test]
fn inject_username_adds_x_access_token() {
    assert_eq!(
        inject_username("https://github.com/acme/app.git", "x-access-token"),
        "https://x-access-token@github.com/acme/app.git"
    );
}

#[test]
fn inject_username_leaves_non_https_unchanged() {
    let url = "git@github.com:acme/app.git";
    assert_eq!(inject_username(url, "x-access-token"), url);
}

#[test]
fn inject_username_leaves_already_credentialled_url_unchanged() {
    let url = "https://existing-user@github.com/acme/app.git";
    assert_eq!(inject_username(url, "x-access-token"), url);
}

#[test]
fn inject_username_works_without_dot_git_suffix() {
    let once = inject_username("https://github.com/acme/app", "x-access-token");
    assert_eq!(once, "https://x-access-token@github.com/acme/app");
    assert_eq!(inject_username(&once, "x-access-token"), once);
}

#[test]
fn clone_with_token_keeps_token_out_of_argv() {
    let plan = clone("https://github.com/acme/app.git", "v1", Some("ghs_SECRETtoken"), "/w/src").unwrap();
    let (calls, error, _, _) = drive_clone(&plan, true, |_| Ok(()));
    assert!(error.is_none());
    assert_eq!(calls.len(), 4, "expected 4 git invocations, got {calls:?}");
    for (args, _) in &calls {
        assert!(args.iter().all(|a| !a.contains("ghs_SECRETtoken")), "token must NOT be in argv: {args:?}");
    }
    let (remote_args, _) = find_call(&calls, "remote");
    assert!(
        remote_args.iter().any(|a| a.contains("x-access-token@github.com")),
        "remote add URL must carry non-secret username: {remote_args:?}"
    );
    let (_, fetch_env) = find_call(&calls, "fetch");
    assert!(fetch_env.iter().any(|(k, _)| k == "GIT_ASKPASS"), "fetch env must include GIT_ASKPASS");
    assert!(
        fetch_env.iter().any(|(k, v)| k == "GIT_TERMINAL_PROMPT" && v == "0"),
        "fetch env must include GIT_TERMINAL_PROMPT=0"
    );
    for sub in ["init", "remote", "checkout"] {
        let (_, env) = find_call(&calls, sub);
        assert!(!env.iter().any(|(k, _)| k == "GIT_ASKPASS"), "{sub} must not carry GIT_ASKPASS in env");
    }
    assert!(!plan.askpass_script.contains("ghs_SECRETtoken"));
    assert_eq!(plan.token_path, "/w/.tabbify-git-token");
    assert_eq!((plan.token_mode, plan.askpass_mode), (0o600, 0o700));
}

#[test]
fn clone_invokes_init_remote_fetch_checkout_in_order() {
    let plan = clone("https://github.com/acme/app.git", "deadbeef", None, "/w/src").unwrap();
    let (calls, _, _, _) = drive_clone(&plan, false, |_| Ok(()));
    let sequence: Vec<String> = calls
        .iter()
        .map(|(args, _)| {
            args.iter()
                .find(|a| matches!(a.as_str(), "init" | "remote" | "fetch" | "checkout"))
                .cloned()
                .unwrap_or_default()
        })
        .collect();
    assert_eq!(sequence, vec!["init", "remote", "fetch", "checkout"], "got {calls:?}");
}

#[test]
fn clone_fetches_ref_verbatim_supporting_sha_branch_or_tag() {
    let sha = "c64f621abcdef0123456789abcdef0123456789a";
    let plan = clone("https://github.com/acme/app.git", sha, None, "/w/src").unwrap();
    let (calls, _, _, _) = drive_clone(&plan, false, |_| Ok(()));
    let (fetch_args, _) = find_call(&calls, "fetch");
    assert!(fetch_args.iter().any(|a| a == sha), "fetch must include the SHA verbatim: {fetch_args:?}");
    assert!(!fetch_args.iter().any(|a| a == "--branch"), "fetch must NOT use --branch: {fetch_args:?}");
    assert!(fetch_args.iter().any(|a| a == "--depth"), "fetch must stay shallow with --depth 1: {fetch_args:?}");
    let (checkout_args, _) = find_call(&calls, "checkout");
    assert!(checkout_args.iter().any(|a| a == "FETCH_HEAD"), "checkout must target FETCH_HEAD: {checkout_args:?}");
}

#[test]
fn clone_with_token_cleans_up_files_on_success() {
    let plan = clone("https://github.com/acme/app.git", "main", Some("ghs_TOKEN"), "/w/src").unwrap();
    assert_eq!(plan.token_path, "/w/.tabbify-git-token");
    assert_eq!(plan.askpass_path, "/w/.tabbify-askpass.sh");
    let (_, _, token_file, askpass_file) = drive_clone(&plan, true, |_| Ok(()));
    assert!(!token_file, "token file must be removed after clone");
    assert!(!askpass_file, "askpass script must be removed after clone");
}

#[test]
fn clone_with_token_cleans_up_files_on_error() {
    let plan = clone("https://github.com/acme/app.git", "main", Some("ghs_TOKEN"), "/w/src").unwrap();
    let (_, error, token_file, askpass_file) = drive_clone(&plan, true, |_| Err("git clone failed".to_owned()));
    assert!(error.is_some());
    assert!(!token_file, "token file must be removed even on error");
    assert!(!askpass_file, "askpass script must be removed even on error");
    let (_, error, token_file, askpass_file) = drive_clone(&plan, true, |args| {
        if args.iter().any(|a| a == "fetch") {
            Err("git clone failed".to_owned())
        } else {
            Ok(())
        }
    });
    assert!(error.is_some());
    assert!(!token_file && !askpass_file);
}

#[test]
fn clone_without_token_uses_plain_url_and_no_askpass() {
    let plan = clone("https://github.com/acme/pub.git", "main", None, "/w/src").unwrap();
    let (calls, _, _, _) = drive_clone(&plan, false, |_| Ok(()));
    let (remote_args, _) = find_call(&calls, "remote");
    assert!(
        remote_args.iter().any(|a| a == "https://github.com/acme/pub.git"),
        "remote add must carry the original URL for public clone: {remote_args:?}"
    );
    for (_, env) in &calls {
        assert!(!env.iter().any(|(k, _)| k == "GIT_ASKPASS"), "no GIT_ASKPASS for public clone: {env:?}");
    }
}
