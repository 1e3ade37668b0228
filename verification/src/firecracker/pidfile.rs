//! The per-app pidfile: which firecracker process belongs to an app, and what
//! to do about one that a crashed runner left behind.
use vstd::prelude::*;
use vstd::utf8::{decode_utf8, valid_utf8};
use crate::firecracker::protocol::{lossy_text, utf8_lossy};
use crate::number::{decimal, decimal_reads_back, decimal_text, is_digit, law_decimal_round_trip, parse_unsigned, parsed};
use crate::path::{file_name, join, joined, name_of};
use crate::sanitize::{sanitize, sanitized};
use crate::text::{begins_with, concat2, concat3, ends_in, ends_with_text, opt_text, starts_with_text, text_eq, texts};
use crate::words::{find_after, trim_text, trimmed, trimmed_fixed, word_after};

verus! {

/// Path of the pidfile of `uuid` in `dir`.
pub fn path(dir: &str, uuid: &str) -> (r: String)
    ensures
        r@ == joined(dir@, "tabbify-fc-"@ + sanitized(uuid@) + ".pid"@),
{
    let safe = sanitize(uuid);
    join(dir, &concat3("tabbify-fc-", &safe, ".pid"))
}

/// Path of the console log of `uuid` in `dir`.
pub fn console_log_path(dir: &str, uuid: &str) -> (r: String)
    ensures
        r@ == joined(joined(dir@, "fc"@), sanitized(uuid@) + ".console.log"@),
{
    let safe = sanitize(uuid);
    join(&join(dir, "fc"), &concat2(&safe, ".console.log"))
}

/// What a pidfile holds; `None` where it is absent or could not be read.
#[derive(Debug)]
pub struct PidFile {
    /// Its contents.
    pub contents: Option<String>,
}

/// The process that a pidfile names: a number, white space around it aside.
pub open spec fn named_pid(contents: Option<Seq<char>>) -> Option<nat> {
    match contents {
        Some(t) => parsed(trimmed(t), u32::MAX as nat),
        None => None,
    }
}

/// Notes the process.
pub fn write(file: &mut PidFile, pid: u32)
    ensures
        opt_text(final(file).contents) == Some(decimal(pid as nat)),
{
    file.contents = Some(decimal_text(pid as u64));
}

/// The process that the pidfile names.
pub fn read(file: &PidFile) -> (r: Option<u32>)
    ensures
        match r {
            Some(pid) => named_pid(opt_text(file.contents)) == Some(pid as nat),
            None => named_pid(opt_text(file.contents)) is None,
        },
{
    match &file.contents {
        Some(t) => {
            let inner = trim_text(t);
            match parse_unsigned(&inner, u32::MAX as u64) {
                Some(n) => Some(n as u32),
                None => None,
            }
        },
        None => None,
    }
}

/// Removes the pidfile.
pub fn remove(file: &mut PidFile)
    ensures
        final(file).contents is None,
{
    file.contents = None;
}

/// Reads the pidfile and, where it names a process, removes it.
pub fn take(file: &mut PidFile) -> (r: Option<u32>)
    ensures
        match r {
            Some(pid) => named_pid(opt_text(old(file).contents)) == Some(pid as nat) && final(file).contents is None,
            None => named_pid(opt_text(old(file).contents)) is None && *final(file) == *old(file),
        },
{
    match read(file) {
        Some(pid) => {
            remove(file);
            Some(pid)
        },
        None => None,
    }
}

/// A noted process is read back, and after it was taken there is none.
pub proof fn law_pid_round_trip(pid: u32)
    ensures
        named_pid(Some(decimal(pid as nat))) == Some(pid as nat),
        named_pid(None) is None,
{
    let d = decimal(pid as nat);
    decimal_reads_back(pid as nat);
    assert(is_digit(d[0]) && is_digit(d[d.len() - 1]));
    trimmed_fixed(d);
    law_decimal_round_trip(pid as nat, u32::MAX as nat);
}

/// Is the process to be killed? Only one that is alive, by the answer of a
/// probe, and never number 0, which would mean the caller's own group.
pub fn kill_stale_if_alive(pid: u32, is_alive: impl Fn(u32) -> bool) -> (kill: bool)
    requires
        is_alive.requires((pid,)),
    ensures
        pid == 0 ==> !kill,
        pid != 0 ==> is_alive.ensures((pid,), kill),
{
    if pid == 0 {
        return false;
    }
    is_alive(pid)
}

/// Is the process alive, by the answer of a signal probe? Number 0 never is:
/// it would mean the caller's own group.
pub fn process_is_alive(pid: u32, signal_probe: impl Fn(u32) -> bool) -> (r: bool)
    requires
        signal_probe.requires((pid,)),
    ensures
        pid == 0 ==> !r,
        pid != 0 ==> signal_probe.ensures((pid,), r),
{
    if pid == 0 {
        return false;
    }
    signal_probe(pid)
}

// ---- command lines ------------------------------------------------------------

/// How many bytes at the front of `s` are not zero.
pub open spec fn lead_token(s: Seq<u8>) -> int
    decreases s.len(),
{
    if s.len() > 0 && s[0] != 0 {
        1 + lead_token(s.skip(1))
    } else {
        0
    }
}

/// The pieces of a command line whose arguments each end in a zero byte, empty
/// ones left out.
pub open spec fn cmdline_pieces(s: Seq<u8>) -> Seq<Seq<u8>>
    decreases s.len(),
{
    if s.len() == 0 {
        Seq::empty()
    } else if s[0] == 0 {
        cmdline_pieces(s.skip(1))
    } else {
        proof {
            lead_token_bounds(s);
        }
        seq![s.take(lead_token(s))] + cmdline_pieces(s.skip(lead_token(s)))
    }
}

/// The arguments of a command line: its pieces, read as text.
pub open spec fn cmdline_args(s: Seq<u8>) -> Seq<Seq<char>> {
    Seq::new(cmdline_pieces(s).len(), |i: int| utf8_lossy(cmdline_pieces(s)[i]))
}

/// Is every piece of a command line text?
pub open spec fn cmdline_is_text(s: Seq<u8>) -> bool {
    forall|i: int| 0 <= i < cmdline_pieces(s).len() ==> valid_utf8(#[trigger] cmdline_pieces(s)[i])
}

/// The texts that the pieces of a command line are.
pub open spec fn cmdline_texts(s: Seq<u8>) -> Seq<Seq<char>> {
    Seq::new(cmdline_pieces(s).len(), |i: int| decode_utf8(cmdline_pieces(s)[i]))
}

/// Are these the pieces, read as text?
pub open spec fn reads_as(out: Seq<String>, pieces: Seq<Seq<u8>>) -> bool {
    out.len() == pieces.len() && forall|i: int|
        0 <= i < out.len() ==> (#[trigger] out[i])@ == utf8_lossy(pieces[i]) && (valid_utf8(pieces[i]) ==> out[i]@ == decode_utf8(
            pieces[i],
        ))
}

/// A token ends within the command line, at its first zero byte.
pub proof fn lead_token_bounds(s: Seq<u8>)
    ensures
        0 <= lead_token(s) <= s.len(),
        forall|j: int| 0 <= j < lead_token(s) ==> s[j] != 0,
        lead_token(s) < s.len() ==> s[lead_token(s)] == 0,
        s.len() > 0 && s[0] != 0 ==> lead_token(s) >= 1,
    decreases s.len(),
{
    if s.len() > 0 && s[0] != 0 {
        lead_token_bounds(s.skip(1));
        assert forall|j: int| 0 <= j < lead_token(s) implies s[j] != 0 by {
            if j > 0 {
                assert(s.skip(1)[j - 1] == s[j]);
            }
        }
    }
}

/// The arguments of a raw command line.
pub fn split_cmdline(cmdline: &[u8]) -> (r: Vec<String>)
    ensures
        texts(r@) == cmdline_args(cmdline@),
        cmdline_is_text(cmdline@) ==> texts(r@) == cmdline_texts(cmdline@),
{
    let mut out: Vec<String> = Vec::new();
    let mut i: usize = 0;
    let ghost mut done: Seq<Seq<u8>> = Seq::empty();
    assert(cmdline@.skip(0) =~= cmdline@);
    assert(done + cmdline_pieces(cmdline@) =~= cmdline_pieces(cmdline@));
    while i < cmdline.len()
        invariant
            i <= cmdline@.len(),
            reads_as(out@, done),
            done + cmdline_pieces(cmdline@.skip(i as int)) == cmdline_pieces(cmdline@),
        decreases cmdline@.len() - i,
    {
        let ghost rest = cmdline@.skip(i as int);
        assert(rest[0] == cmdline@[i as int]);
        if cmdline[i] == 0 {
            assert(rest.skip(1) =~= cmdline@.skip(i + 1));
            i += 1;
        } else {
            let mut end: usize = i;
            while end < cmdline.len() && cmdline[end] != 0
                invariant
                    i <= end <= cmdline@.len(),
                    forall|j: int| i <= j < end ==> cmdline@[j] != 0,
                decreases cmdline@.len() - end,
            {
                end += 1;
            }
            proof {
                lead_token_bounds(rest);
                let k = lead_token(rest);
                if k < end - i {
                    assert(rest[k] == cmdline@[i + k]);
                }
                if end - i < k {
                    assert(rest[end - i] == cmdline@[end as int]);
                }
            }
            let token = vstd::slice::slice_subrange(cmdline, i, end);
            let word = lossy_text(token);
            proof {
                assert(rest.take(end - i) =~= token@);
                assert(rest.skip(end - i) =~= cmdline@.skip(end as int));
                assert(done.push(token@) + cmdline_pieces(cmdline@.skip(end as int)) =~= done + (seq![token@] + cmdline_pieces(
                    cmdline@.skip(end as int),
                )));
                done = done.push(token@);
            }
            out.push(word);
            i = end;
        }
    }
    proof {
        assert(cmdline@.skip(i as int) =~= Seq::empty());
        assert(done + Seq::<Seq<u8>>::empty() =~= done);
        assert(texts(out@) =~= cmdline_args(cmdline@));
        if cmdline_is_text(cmdline@) {
            assert forall|k: int| 0 <= k < out@.len() implies texts(out@)[k] == cmdline_texts(cmdline@)[k] by {
                assert(out@[k]@ == texts(out@)[k]);
                assert(valid_utf8(cmdline_pieces(cmdline@)[k]));
            }
            assert(texts(out@) =~= cmdline_texts(cmdline@));
        }
    }
    out
}

/// Is the argument a path to the program `name`?
pub open spec fn is_program(arg: Seq<char>, name: Seq<char>) -> bool {
    file_name(arg) == Some(name)
}

/// Do the arguments run firecracker? Its own program may come first; or
/// `systemd-run` does, and firecracker stands right behind the first `--`.
pub open spec fn invokes_firecracker(args: Seq<Seq<char>>) -> bool {
    args.len() > 0 && (is_program(args[0], "firecracker"@) || (is_program(args[0], "systemd-run"@) && match word_after(args, "--"@) {
        Some(arg) => is_program(arg, "firecracker"@),
        None => false,
    }))
}

/// Is the argument a path to the program `name`?
fn names_program(arg: &str, name: &str) -> (r: bool)
    ensures
        r == is_program(arg@, name@),
{
    match name_of(arg) {
        Some(n) => text_eq(&n, name),
        None => false,
    }
}

/// Do the arguments run firecracker?
fn runs_firecracker(args: &Vec<String>) -> (r: bool)
    ensures
        r == invokes_firecracker(texts(args@)),
{
    if args.len() == 0 {
        return false;
    }
    assert(texts(args@)[0] == args@[0]@);
    if names_program(&args[0], "firecracker") {
        return true;
    }
    if !names_program(&args[0], "systemd-run") {
        return false;
    }
    match find_after(args, "--") {
        Some(arg) => names_program(&arg, "firecracker"),
        None => false,
    }
}

/// The API socket that a command line of firecracker names: the argument
/// behind the first `--api-sock`, where it is one of ours.
pub open spec fn api_sock_in(args: Seq<Seq<char>>) -> Option<Seq<char>> {
    if !invokes_firecracker(args) {
        None
    } else {
        match word_after(args, "--api-sock"@) {
            Some(sock) => if begins_with(sock, "/tmp/firecracker-"@) && ends_in(sock, ".sock"@) {
                Some(sock)
            } else {
                None
            },
            None => None,
        }
    }
}

/// The API socket that the arguments of a process name.
pub fn api_sock_of_args(args: &Vec<String>) -> (r: Option<String>)
    ensures
        opt_text(r) == api_sock_in(texts(args@)),
{
    if !runs_firecracker(args) {
        return None;
    }
    match find_after(args, "--api-sock") {
        Some(sock) => {
            if starts_with_text(&sock, "/tmp/firecracker-") && ends_with_text(&sock, ".sock") {
                Some(sock)
            } else {
                None
            }
        },
        None => None,
    }
}

/// The API socket that a raw command line names, if it is one of firecracker
/// with a socket of ours.
pub fn parse_firecracker_api_sock(cmdline: &[u8]) -> (r: Option<String>)
    ensures
        opt_text(r) == api_sock_in(cmdline_args(cmdline@)),
        cmdline_is_text(cmdline@) ==> opt_text(r) == api_sock_in(cmdline_texts(cmdline@)),
{
    let args = split_cmdline(cmdline);
    api_sock_of_args(&args)
}

/// Only a process that runs firecracker, itself or through `systemd-run`, has
/// a socket; and that is the argument behind the first `--api-sock`, where it
/// is named as ours are.
pub proof fn law_only_our_sockets(args: Seq<Seq<char>>, sock: Seq<char>)
    requires
        api_sock_in(args) == Some(sock),
    ensures
        args.len() >= 3,
        file_name(args[0]) == Some("firecracker"@) || (file_name(args[0]) == Some("systemd-run"@) && word_after(args, "--"@) is Some
            && file_name(word_after(args, "--"@)->Some_0) == Some("firecracker"@)),
        word_after(args, "--api-sock"@) == Some(sock),
        begins_with(sock, "/tmp/firecracker-"@),
        ends_in(sock, ".sock"@),
{
    reveal_strlit("--api-sock");
    reveal_strlit("firecracker");
    reveal_strlit("systemd-run");
    if args.len() == 2 {
        crate::words::law_word_behind_the_first(
            args,
            "--api-sock"@,
            if args[0] == "--api-sock"@ {
                0
            } else if args[1] == "--api-sock"@ {
                1
            } else {
                2
            },
        );
        crate::path::law_joined_name(Seq::empty(), "--api-sock"@);
        assert(Seq::<char>::empty() + "--api-sock"@ =~= "--api-sock"@);
    }
    if args.len() == 1 {
        crate::words::law_word_behind_the_first(
            args,
            "--api-sock"@,
            if args[0] == "--api-sock"@ {
                0
            } else {
                1
            },
        );
    }
}

} // verus!
