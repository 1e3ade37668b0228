//! Building an image, and what is said where that fails.
use vstd::prelude::*;
use crate::number::{decimal, push_decimal};
use crate::path::{file_name, stem_name, stem_of};
use crate::process::{code_text, push_code, push_signed, signed};
use crate::text::{concat2, concat3, join_texts, joined_with, text_len, texts};
use crate::words::{trim_text, trimmed};

verus! {

/// What is said of a docker command that ended badly: the command, its exit
/// code, and what it wrote, if anything.
pub open spec fn exit_text(bin: Seq<char>, args: Seq<Seq<char>>, code: Option<i32>, stderr: Seq<char>) -> Seq<char> {
    let head = "`"@ + bin + " "@ + joined_with(args, " "@) + "` exited with status "@ + code_text(code);
    if trimmed(stderr).len() == 0 {
        head
    } else {
        head + ": "@ + trimmed(stderr)
    }
}

/// How a docker command ended.
#[derive(Debug)]
pub enum CommandEnd {
    /// With success.
    Success,
    /// Badly, with an exit code unless a signal ended it, and what it wrote.
    Exit(Option<i32>, String),
    /// It could not be spawned.
    NotSpawned(String),
}

/// Judges how a docker command ended, and says what went wrong.
pub fn production_command_runner(docker_bin: &str, args: &Vec<String>, end: &CommandEnd) -> (r: Result<(), String>)
    ensures
        r is Ok <==> end is Success,
        r is Err ==> r->Err_0@ == match end {
            CommandEnd::Exit(code, stderr) => exit_text(docker_bin@, texts(args@), *code, stderr@),
            CommandEnd::NotSpawned(e) => "failed to spawn `"@ + docker_bin@ + " "@ + joined_with(texts(args@), " "@) + "`: "@ + e@,
            CommandEnd::Success => Seq::empty(),
        },
{
    match end {
        CommandEnd::Success => Ok(()),
        CommandEnd::Exit(code, stderr) => {
            let mut out = concat3("`", docker_bin, " ");
            let argv = join_texts(args, " ");
            out.append(&argv);
            out.append("` exited with status ");
            push_code(&mut out, *code);
            let t = trim_text(stderr);
            if text_len(&t) > 0 {
                out.append(": ");
                out.append(&t);
            }
            Err(out)
        },
        CommandEnd::NotSpawned(e) => {
            let mut out = concat3("failed to spawn `", docker_bin, " ");
            let argv = join_texts(args, " ");
            out.append(&argv);
            out.append("`: ");
            out.append(e);
            Err(out)
        },
    }
}

/// How an image build ended.
#[derive(Debug)]
pub enum BuildEnd {
    /// With success.
    Success,
    /// Badly.
    Exit(Option<i32>, String),
    /// Not in time.
    TimedOut(u64),
}

/// An exit code as Rust prints it for debugging.
pub open spec fn debug_code(code: Option<i32>) -> Seq<char> {
    match code {
        Some(c) => "Some("@ + signed(c as int) + ")"@,
        None => "None"@,
    }
}

/// Judges how an image build ended, and says what went wrong.
pub fn build_image(end: &BuildEnd) -> (r: Result<(), String>)
    ensures
        r is Ok <==> end is Success,
        r is Err ==> r->Err_0@ == match end {
            BuildEnd::Exit(code, stderr) => "docker build failed (exit "@ + debug_code(*code) + "): "@ + trimmed(stderr@),
            BuildEnd::TimedOut(secs) => "docker build timed out after "@ + decimal(*secs as nat) + "s"@,
            BuildEnd::Success => Seq::empty(),
        },
{
    match end {
        BuildEnd::Success => Ok(()),
        BuildEnd::Exit(code, stderr) => {
            let mut out: String = "docker build failed (exit ".to_owned();
            match code {
                Some(c) => {
                    let ghost head = out@;
                    out.append("Some(");
                    push_signed(&mut out, *c);
                    out.append(")");
                    assert(out@ =~= head + debug_code(*code));
                },
                None => {
                    out.append("None");
                },
            }
            out.append("): ");
            let t = trim_text(stderr);
            out.append(&t);
            Err(out)
        },
        BuildEnd::TimedOut(secs) => {
            let mut out: String = "docker build timed out after ".to_owned();
            push_decimal(&mut out, *secs);
            out.append("s");
            Err(out)
        },
    }
}

/// What is said of a docker command that failed.
pub fn run_docker(args: &Vec<String>, stderr: &str) -> (r: String)
    ensures
        r@ == "`docker "@ + joined_with(texts(args@), " "@) + "` failed: "@ + trimmed(stderr@),
{
    let argv = join_texts(args, " ");
    let mut out = concat3("`docker ", &argv, "` failed: ");
    let t = trim_text(stderr);
    out.append(&t);
    out
}

/// An id taken from the name of the build context: the name without its last
/// extension, or a fixed one where there is no name.
pub fn derive_id(context: &str) -> (r: String)
    ensures
        r@ == match file_name(context@) {
            Some(n) => stem_of(n),
            None => "context"@,
        },
{
    match stem_name(context) {
        Some(s) => s,
        None => "context".to_owned(),
    }
}

/// What must hold before a container is launched: docker answers, and the
/// build context is there.
pub fn precheck(available: bool, context: &str, context_is_file: bool) -> (r: Result<(), String>)
    ensures
        r is Ok <==> available && context_is_file,
        r is Err ==> r->Err_0@ == if !available {
            "docker runtime requires a reachable Docker daemon (`docker info` failed)"@
        } else {
            "docker build context not found at "@ + context@
        },
{
    if !available {
        return Err("docker runtime requires a reachable Docker daemon (`docker info` failed)".to_owned());
    }
    if !context_is_file {
        return Err(concat2("docker build context not found at ", context));
    }
    Ok(())
}

} // verus!
