//! Cloning a repository without letting its token be seen.
//!
//! A token never stands in a command line. It lies in a file that a small
//! script prints to git when git asks for a password, and both files are gone
//! once the fetch is over.
use vstd::prelude::*;
use vstd::utf8::encode_utf8;
use crate::firecracker::link_error::{debug_quoted, debug_text};
use crate::number::{octal, push_octal};
use crate::path::{join, joined, parent_dir, parent_of};
use crate::process::{code_text, push_code};
use crate::text::{
    before_char, begins_with, chars_of, concat2, concat3, contains_char, ends_in, find_char_first, has_char, opt_str, parted_after, starts_with_text, strs,
    svec, text_eq, text_len, text_range, texts, up_to_char,
};
use crate::words::{trim_text, trimmed};

verus! {

// ---- commits ------------------------------------------------------------------------

/// Is the character a hexadecimal digit in lower case?
pub open spec fn is_hex_lower(c: char) -> bool {
    ('0' <= c && c <= '9') || ('a' <= c && c <= 'f')
}

/// Is the text the full name of a commit: forty hexadecimal digits in lower case?
pub open spec fn commit_sha(s: Seq<char>) -> bool {
    s.len() == 40 && forall|i: int| 0 <= i < s.len() ==> is_hex_lower(#[trigger] s[i])
}

/// Is the text the full name of a commit?
pub fn is_commit_sha(s: &str) -> (r: bool)
    ensures
        r == commit_sha(s@),
{
    let v = chars_of(s);
    if v.len() != 40 {
        return false;
    }
    let mut i: usize = 0;
    while i < v.len()
        invariant
            i <= v@.len(),
            v@ == s@,
            forall|j: int| 0 <= j < i ==> is_hex_lower(#[trigger] s@[j]),
        decreases v@.len() - i,
    {
        let c: char = v[i];
        if !((c >= '0' && c <= '9') || (c >= 'a' && c <= 'f')) {
            assert(!is_hex_lower(s@[i as int]));
            return false;
        }
        i += 1;
    }
    true
}

/// The arguments that ask which commit is checked out.
pub fn rev_parse_args(dest: &str) -> (r: Vec<String>)
    ensures
        texts(r@) == seq!["-C"@, dest@, "rev-parse"@, "HEAD"@],
{
    let parts: [&str; 4] = ["-C", dest, "rev-parse", "HEAD"];
    assert(strs(parts@) =~= seq!["-C"@, dest@, "rev-parse"@, "HEAD"@]);
    svec(&parts)
}

/// What is said of an answer that names no commit.
pub open spec fn unproven_text(answer: Seq<char>) -> Seq<char> {
    "git rev-parse HEAD did not yield a 40-char lowercase hex commit sha (got "@ + debug_quoted(answer)
        + "); refusing to tag the image with an unproven commit"@
}

/// The commit that git says is checked out; `captured` is what it answered,
/// or why it did not. Anything but the full name of a commit is refused, so
/// that no image is tagged after something that can move.
pub fn resolve_cloned_head(captured: Result<&str, &str>) -> (r: Result<String, String>)
    ensures
        match captured {
            Ok(answer) => if commit_sha(trimmed(answer@)) {
                r is Ok && r->Ok_0@ == trimmed(answer@)
            } else {
                r is Err && r->Err_0@ == unproven_text(trimmed(answer@))
            },
            Err(e) => r is Err && r->Err_0@ == "git rev-parse HEAD: "@ + e@,
        },
{
    let answer: &str = match captured {
        Ok(a) => a,
        Err(e) => return Err(concat2("git rev-parse HEAD: ", e)),
    };
    let sha = trim_text(answer);
    if is_commit_sha(&sha) {
        return Ok(sha);
    }
    let quoted = debug_text(&sha);
    Err(
        concat3(
            "git rev-parse HEAD did not yield a 40-char lowercase hex commit sha (got ",
            &quoted,
            "); refusing to tag the image with an unproven commit",
        ),
    )
}

// ---- errors --------------------------------------------------------------------------

/// How many bytes of what git wrote an error keeps.
pub const MAX_STDERR_TAIL: usize = 2_000;

/// The git command in a list of arguments: the first word that is neither an
/// option nor the directory behind `-C`.
pub open spec fn subcommand(args: Seq<Seq<char>>) -> Seq<char>
    decreases args.len(),
{
    if args.len() == 0 {
        "?"@
    } else if args[0] == "-C"@ {
        if args.len() == 1 {
            "?"@
        } else {
            subcommand(args.skip(2))
        }
    } else if args[0].len() > 0 && args[0][0] == '-' {
        subcommand(args.skip(1))
    } else {
        args[0]
    }
}

/// The git command in a list of arguments.
pub fn git_subcommand(args: &[String]) -> (r: &str)
    ensures
        r@ == subcommand(texts(args@)),
{
    let ghost all = texts(args@);
    let mut i: usize = 0;
    assert(all.skip(0) =~= all);
    proof {
        reveal_strlit("-");
    }
    while i < args.len()
        invariant
            i <= args@.len(),
            all == texts(args@),
            "-"@ == seq!['-'],
            subcommand(all) == subcommand(all.skip(i as int)),
        decreases args@.len() - i,
    {
        let arg: &str = &args[i];
        assert(all.skip(i as int)[0] == arg@);
        if text_eq(arg, "-C") {
            if i + 1 >= args.len() {
                return "?";
            }
            assert(all.skip(i as int).skip(2) =~= all.skip(i + 2));
            i += 2;
        } else if starts_with_text(arg, "-") {
            proof {
                assert(arg@.len() >= 1 && arg@.take(1) =~= seq!['-']);
                assert(arg@[0] == arg@.take(1)[0]);
                assert(all.skip(i as int).skip(1) =~= all.skip(i + 1));
            }
            i += 1;
        } else {
            proof {
                if arg@.len() > 0 && arg@[0] == '-' {
                    assert(arg@.take(1) =~= seq!['-']);
                }
            }
            return arg;
        }
    }
    assert(all.skip(i as int).len() == 0);
    "?"
}

/// How many bytes a text takes.
pub open spec fn byte_len(s: Seq<char>) -> nat {
    encode_utf8(s).len()
}

/// The longest end of a text that takes at most `max` bytes.
pub open spec fn tail_within(s: Seq<char>, max: nat) -> Seq<char>
    decreases s.len(),
{
    if byte_len(s) <= max || s.len() == 0 {
        s
    } else {
        tail_within(s.skip(1), max)
    }
}

/// How many bytes a character takes.
fn char_bytes(c: char) -> (r: usize)
    ensures
        r == vstd::utf8::encode_scalar(c as u32).len(),
        1 <= r <= 4,
{
    proof {
        vstd::utf8::char_is_scalar(c);
    }
    let v: u32 = c as u32;
    if v <= 0x7F {
        1
    } else if v <= 0x7FF {
        2
    } else if v <= 0xFFFF {
        3
    } else {
        4
    }
}

/// A text takes the bytes of its first character and those of the rest.
proof fn byte_len_first(s: Seq<char>)
    requires
        s.len() > 0,
    ensures
        byte_len(s) == vstd::utf8::encode_scalar(s[0] as u32).len() + byte_len(s.skip(1)),
{
    assert(s.drop_first() =~= s.skip(1));
}

/// Where the end of a text that still fits begins.
proof fn tail_begins(s: Seq<char>, max: nat, start: int)
    requires
        0 <= start <= s.len(),
        byte_len(s.skip(start)) <= max,
        start > 0 ==> byte_len(s.skip(start - 1)) > max,
    ensures
        tail_within(s, max) == s.skip(start),
    decreases start,
{
    if start == 0 {
        assert(s.skip(0) =~= s);
    } else {
        tail_longer(s, start - 1, max);
        assert(s.skip(1).skip(start - 1) =~= s.skip(start));
        if start > 1 {
            assert(s.skip(1).skip(start - 2) =~= s.skip(start - 1));
        }
        tail_begins(s.skip(1), max, start - 1);
    }
}

/// A text is at least as long as any of its ends.
proof fn tail_longer(s: Seq<char>, from: int, max: nat)
    requires
        0 <= from < s.len(),
        byte_len(s.skip(from)) > max,
    ensures
        byte_len(s) > max,
    decreases from,
{
    if from == 0 {
        assert(s.skip(0) =~= s);
    } else {
        byte_len_first(s.skip(from - 1));
        assert(s.skip(from - 1).skip(1) =~= s.skip(from));
        tail_longer(s, from - 1, max);
    }
}

/// What an error keeps of what git wrote: its end, marked where something in
/// front of it is left out.
pub open spec fn kept_stderr(stderr: Seq<char>) -> Seq<char> {
    let t = trimmed(stderr);
    if byte_len(t) <= MAX_STDERR_TAIL {
        t
    } else {
        "\u{2026}"@ + tail_within(t, MAX_STDERR_TAIL as nat)
    }
}

/// What an error keeps of what git wrote.
fn keep_stderr(stderr: &str) -> (r: String)
    ensures
        r@ == kept_stderr(stderr@),
{
    let t = trim_text(stderr);
    let v = chars_of(&t);
    let mut start: usize = v.len();
    let mut used: usize = 0;
    proof {
        assert(t@.skip(v@.len() as int) =~= Seq::empty());
    }
    while start > 0 && used + char_bytes(v[start - 1]) <= MAX_STDERR_TAIL
        invariant
            v@ == t@,
            start <= v@.len(),
            used <= MAX_STDERR_TAIL,
            used == byte_len(t@.skip(start as int)),
        decreases start,
    {
        proof {
            byte_len_first(t@.skip(start - 1));
            assert(t@.skip(start - 1).skip(1) =~= t@.skip(start as int));
            assert(t@.skip(start - 1)[0] == v@[start - 1]);
        }
        used = used + char_bytes(v[start - 1]);
        start -= 1;
    }
    proof {
        if start > 0 {
            byte_len_first(t@.skip(start - 1));
            assert(t@.skip(start - 1).skip(1) =~= t@.skip(start as int));
            assert(t@.skip(start - 1)[0] == v@[start - 1]);
            tail_longer(t@, start - 1, MAX_STDERR_TAIL as nat);
        } else {
            assert(t@.skip(0) =~= t@);
        }
        tail_begins(t@, MAX_STDERR_TAIL as nat, start as int);
    }
    if start == 0 {
        return t;
    }
    let rest = text_range(&v, start, v.len());
    assert(v@.subrange(start as int, v@.len() as int) =~= t@.skip(start as int));
    concat2("\u{2026}", &rest)
}

/// What is said of a git command that failed.
pub open spec fn git_error_text(args: Seq<Seq<char>>, code: Option<i32>, stderr: Seq<char>) -> Seq<char> {
    let head = "git "@ + subcommand(args) + " failed ("@ + code_text(code) + ")"@;
    if kept_stderr(stderr).len() == 0 {
        head
    } else {
        head + ": "@ + kept_stderr(stderr)
    }
}

/// What is said of a git command that failed: which it was, its exit code, and
/// the end of what it wrote.
pub fn format_git_error(args: &[String], code: Option<i32>, stderr: &str) -> (r: String)
    ensures
        r@ == git_error_text(texts(args@), code, stderr@),
{
    let mut out = concat3("git ", git_subcommand(args), " failed (");
    push_code(&mut out, code);
    out.append(")");
    let tail = keep_stderr(stderr);
    if text_len(&tail) > 0 {
        out.append(": ");
        out.append(&tail);
    }
    out
}

/// What an error keeps takes at most so many bytes, and the three of the mark.
pub proof fn law_git_error_bounded(stderr: Seq<char>)
    ensures
        byte_len(kept_stderr(stderr)) <= MAX_STDERR_TAIL + 3,
{
    let t = trimmed(stderr);
    if byte_len(t) > MAX_STDERR_TAIL {
        tail_fits(t, MAX_STDERR_TAIL as nat);
        let kept = kept_stderr(stderr);
        let tail = tail_within(t, MAX_STDERR_TAIL as nat);
        reveal_strlit("\u{2026}");
        assert(kept[0] == '\u{2026}');
        byte_len_first(kept);
        assert(kept.skip(1) =~= tail);
    }
}

/// The end of a text that fits does fit.
proof fn tail_fits(s: Seq<char>, max: nat)
    ensures
        byte_len(tail_within(s, max)) <= max,
    decreases s.len(),
{
    if s.len() == 0 {
        assert(byte_len(s) == 0);
    } else if byte_len(s) > max {
        tail_fits(s.skip(1), max);
    }
}

// ---- the address of a repository ---------------------------------------------------------

/// An `https` address with a user name in it; any other address, and one that
/// has a user name already, as it is.
pub open spec fn with_username(url: Seq<char>, username: Seq<char>) -> Seq<char> {
    if !begins_with(url, "https://"@) {
        url
    } else {
        let rest = url.skip("https://"@.len() as int);
        if has_char(up_to_char(rest, '/'), '@') {
            url
        } else {
            "https://"@ + username + "@"@ + rest
        }
    }
}

/// Puts a user name into an `https` address.
pub fn inject_username(url: &str, username: &str) -> (r: String)
    ensures
        r@ == with_username(url@, username@),
{
    proof {
        reveal_strlit("https://");
    }
    if !starts_with_text(url, "https://") {
        return url.to_owned();
    }
    let v = chars_of(url);
    let rest = text_range(&v, 8, v.len());
    assert(rest@ =~= url@.skip(8));
    let host = before_char(&rest, '/');
    if contains_char(&host, '@') {
        return url.to_owned();
    }
    let mut out = concat3("https://", username, "@");
    out.append(&rest);
    out
}

/// A user name is put in once: an address that has one is left alone.
pub proof fn law_username_once(url: Seq<char>, username: Seq<char>, other: Seq<char>)
    requires
        !has_char(username, '/'),
    ensures
        with_username(with_username(url, username), other) == with_username(url, username) || with_username(url, username) == url,
{
    reveal_strlit("https://");
    reveal_strlit("@");
    let once = with_username(url, username);
    if once != url {
        let rest = url.skip(8);
        let after = once.skip(8);
        assert(after =~= username + "@"@ + rest);
        assert(once.take(8) =~= "https://"@);
        assert(begins_with(once, "https://"@));
        find_char_first(after, '/');
        find_char_first(username, '/');
        let host = up_to_char(after, '/');
        let n = username.len() as int;
        assert(after[n] == '@');
        assert forall|j: int| 0 <= j <= n implies after[j] != '/' by {
            if j < n {
                assert(after[j] == username[j]);
            }
        }
        assert(host.len() > n);
        assert(host[n] == '@');
        find_char_first(host, '@');
        assert(has_char(host, '@'));
    }
}

// ---- cloning -----------------------------------------------------------------------------

/// What to do next to clone a repository.
#[derive(Debug, Clone, Copy, PartialEq, Eq, Structural)]
pub enum CloneAction {
    /// Make the directory that the clone goes into.
    MakeParent,
    /// `git init`.
    Init,
    /// `git remote add`.
    RemoteAdd,
    /// Write the token's file.
    WriteToken,
    /// Write the script that prints it.
    WriteAskpass,
    /// `git fetch`.
    Fetch,
    /// Remove the token's file.
    RemoveToken,
    /// Remove the script.
    RemoveAskpass,
    /// `git checkout`.
    Checkout,
    /// Nothing: the clone is over.
    Stop,
}

/// The state of a clone.
#[derive(Debug, Clone, Copy, PartialEq, Eq, Structural)]
pub struct CloneRun {
    /// Is there a token?
    pub token: bool,
    /// What to do next.
    pub next: CloneAction,
    /// May the token's file be there?
    pub token_file: bool,
    /// May the script be there?
    pub askpass: bool,
    /// The action that failed first, if one did.
    pub fault: Option<CloneAction>,
}

/// The first state of a clone.
pub open spec fn clone_start(token: bool) -> CloneRun {
    CloneRun { token, next: CloneAction::MakeParent, token_file: false, askpass: false, fault: None }
}

/// The state after a failure with nothing to clean up.
pub open spec fn clone_failed(s: CloneRun) -> CloneRun {
    CloneRun { next: CloneAction::Stop, fault: Some(s.next), ..s }
}

/// The state after the next action succeeded or not. From the moment that the
/// token is written down, every way leads over the removal of both files.
pub open spec fn clone_after(s: CloneRun, ok: bool) -> CloneRun {
    match s.next {
        CloneAction::MakeParent => if ok {
            CloneRun { next: CloneAction::Init, ..s }
        } else {
            clone_failed(s)
        },
        CloneAction::Init => if ok {
            CloneRun { next: CloneAction::RemoteAdd, ..s }
        } else {
            clone_failed(s)
        },
        CloneAction::RemoteAdd => if !ok {
            clone_failed(s)
        } else if s.token {
            CloneRun { next: CloneAction::WriteToken, ..s }
        } else {
            CloneRun { next: CloneAction::Fetch, ..s }
        },
        CloneAction::WriteToken => if ok {
            CloneRun { next: CloneAction::WriteAskpass, token_file: true, ..s }
        } else {
            CloneRun { next: CloneAction::RemoveToken, token_file: true, fault: Some(CloneAction::WriteToken), ..s }
        },
        CloneAction::WriteAskpass => if ok {
            CloneRun { next: CloneAction::Fetch, askpass: true, ..s }
        } else {
            CloneRun { next: CloneAction::RemoveToken, askpass: true, fault: Some(CloneAction::WriteAskpass), ..s }
        },
        CloneAction::Fetch => CloneRun {
            next: if s.token {
                CloneAction::RemoveToken
            } else if ok {
                CloneAction::Checkout
            } else {
                CloneAction::Stop
            },
            fault: if ok {
                s.fault
            } else {
                Some(CloneAction::Fetch)
            },
            ..s
        },
        CloneAction::RemoveToken => CloneRun { next: CloneAction::RemoveAskpass, token_file: false, ..s },
        CloneAction::RemoveAskpass => CloneRun {
            next: if s.fault is None {
                CloneAction::Checkout
            } else {
                CloneAction::Stop
            },
            askpass: false,
            ..s
        },
        CloneAction::Checkout => if ok {
            CloneRun { next: CloneAction::Stop, ..s }
        } else {
            clone_failed(s)
        },
        CloneAction::Stop => s,
    }
}

impl CloneRun {
    /// The first state of a clone, with or without a token.
    pub fn new(token: bool) -> (r: Self)
        ensures
            r == clone_start(token),
    {
        CloneRun { token, next: CloneAction::MakeParent, token_file: false, askpass: false, fault: None }
    }

    /// Goes on after the next action succeeded or not.
    pub fn advance(&mut self, ok: bool)
        ensures
            *final(self) == clone_after(*old(self), ok),
    {
        match self.next {
            CloneAction::MakeParent => {
                if ok {
                    self.next = CloneAction::Init;
                } else {
                    self.fail();
                }
            },
            CloneAction::Init => {
                if ok {
                    self.next = CloneAction::RemoteAdd;
                } else {
                    self.fail();
                }
            },
            CloneAction::RemoteAdd => {
                if !ok {
                    self.fail();
                } else if self.token {
                    self.next = CloneAction::WriteToken;
                } else {
                    self.next = CloneAction::Fetch;
                }
            },
            CloneAction::WriteToken => {
                self.token_file = true;
                if ok {
                    self.next = CloneAction::WriteAskpass;
                } else {
                    self.fault = Some(CloneAction::WriteToken);
                    self.next = CloneAction::RemoveToken;
                }
            },
            CloneAction::WriteAskpass => {
                self.askpass = true;
                if ok {
                    self.next = CloneAction::Fetch;
                } else {
                    self.fault = Some(CloneAction::WriteAskpass);
                    self.next = CloneAction::RemoveToken;
                }
            },
            CloneAction::Fetch => {
                if !ok {
                    self.fault = Some(CloneAction::Fetch);
                }
                self.next = if self.token {
                    CloneAction::RemoveToken
                } else if ok {
                    CloneAction::Checkout
                } else {
                    CloneAction::Stop
                };
            },
            CloneAction::RemoveToken => {
                self.token_file = false;
                self.next = CloneAction::RemoveAskpass;
            },
            CloneAction::RemoveAskpass => {
                self.askpass = false;
                self.next = match self.fault {
                    None => CloneAction::Checkout,
                    Some(_) => CloneAction::Stop,
                };
            },
            CloneAction::Checkout => {
                if ok {
                    self.next = CloneAction::Stop;
                } else {
                    self.fail();
                }
            },
            CloneAction::Stop => {},
        }
    }

    /// Ends a clone that failed with nothing to clean up.
    fn fail(&mut self)
        ensures
            *final(self) == clone_failed(*old(self)),
    {
        self.fault = Some(self.next);
        self.next = CloneAction::Stop;
    }
}

/// The state after a number of actions.
pub open spec fn clone_all(s: CloneRun, events: Seq<bool>) -> CloneRun
    decreases events.len(),
{
    if events.len() == 0 {
        s
    } else {
        clone_after(clone_all(s, events.drop_last()), events.last())
    }
}

/// What holds of every state of a clone.
pub open spec fn clone_inv(s: CloneRun) -> bool {
    &&& s.token_file || s.askpass ==> s.token
    &&& match s.next {
        CloneAction::WriteToken => s.token && !s.token_file && !s.askpass && s.fault is None,
        CloneAction::WriteAskpass => s.token && s.token_file && !s.askpass && s.fault is None,
        CloneAction::Fetch => s.token_file == s.token && s.askpass == s.token && s.fault is None,
        CloneAction::RemoveToken => s.token && s.token_file,
        CloneAction::RemoveAskpass => s.token && !s.token_file,
        CloneAction::Stop => !s.token_file && !s.askpass,
        _ => !s.token_file && !s.askpass && s.fault is None,
    }
}

/// A clone that is over, however it went, has left neither the token's file
/// nor the script behind; and while one of them may be there, the only command
/// that runs is the fetch.
pub proof fn law_no_token_left(token: bool, events: Seq<bool>)
    ensures
        ({
            let s = clone_all(clone_start(token), events);
            &&& clone_inv(s)
            &&& s.token == token
            &&& s.next == CloneAction::Stop ==> !s.token_file && !s.askpass
            &&& (s.token_file || s.askpass) ==> s.next != CloneAction::Init && s.next != CloneAction::RemoteAdd && s.next
                != CloneAction::Checkout
        }),
    decreases events.len(),
{
    if events.len() > 0 {
        law_no_token_left(token, events.drop_last());
    }
}

/// The action number `i` of a clone in which nothing fails: the directory is
/// made ready, the repository made and told its remote, the reference fetched
/// and checked out. With a token, its file and the script are written right
/// before the fetch and removed right behind it.
pub open spec fn clone_script(token: bool, i: int) -> CloneAction {
    if i == 0 {
        CloneAction::MakeParent
    } else if i == 1 {
        CloneAction::Init
    } else if i == 2 {
        CloneAction::RemoteAdd
    } else if !token {
        if i == 3 {
            CloneAction::Fetch
        } else if i == 4 {
            CloneAction::Checkout
        } else {
            CloneAction::Stop
        }
    } else if i == 3 {
        CloneAction::WriteToken
    } else if i == 4 {
        CloneAction::WriteAskpass
    } else if i == 5 {
        CloneAction::Fetch
    } else if i == 6 {
        CloneAction::RemoveToken
    } else if i == 7 {
        CloneAction::RemoveAskpass
    } else if i == 8 {
        CloneAction::Checkout
    } else {
        CloneAction::Stop
    }
}

/// May the action fail without the clone failing? Only a removal may.
pub open spec fn clone_may_fail(a: CloneAction) -> bool {
    a == CloneAction::RemoveToken || a == CloneAction::RemoveAskpass || a == CloneAction::Stop
}

/// Do the first `n` actions of the script succeed, where they must?
pub open spec fn clone_goes_well(token: bool, events: Seq<bool>, n: int) -> bool {
    forall|i: int| 0 <= i < n ==> #[trigger] events[i] || clone_may_fail(clone_script(token, i))
}

/// A clone goes by the script for as long as nothing fails that must not.
pub proof fn law_clone_goes_by_the_script(token: bool, events: Seq<bool>)
    requires
        clone_goes_well(token, events, events.len() as int),
    ensures
        clone_all(clone_start(token), events).next == clone_script(token, events.len() as int),
        clone_all(clone_start(token), events).fault is None,
        clone_all(clone_start(token), events).token == token,
    decreases events.len(),
{
    if events.len() > 0 {
        let head = events.drop_last();
        assert forall|i: int| 0 <= i < head.len() implies #[trigger] head[i] || clone_may_fail(clone_script(token, i)) by {
            assert(events[i] == head[i]);
        }
        law_clone_goes_by_the_script(token, head);
        assert(events[events.len() - 1] || clone_may_fail(clone_script(token, events.len() - 1)));
    }
}

/// The first action that fails though it must not is the clone's fault for
/// good. Where the token or the script may have been written, both are removed
/// next; then nothing more is done.
pub proof fn law_failed_clone_cleans_up(token: bool, events: Seq<bool>, n: int)
    requires
        0 <= n < events.len(),
        clone_goes_well(token, events, n),
        !events[n],
        !clone_may_fail(clone_script(token, n)),
    ensures
        ({
            let s = clone_all(clone_start(token), events);
            let k = events.len() - n - 1;
            let written = token && 3 <= n <= 5;
            &&& s.fault == Some(clone_script(token, n))
            &&& s.next == if written && k == 0 {
                CloneAction::RemoveToken
            } else if written && k == 1 {
                CloneAction::RemoveAskpass
            } else {
                CloneAction::Stop
            }
        }),
    decreases events.len(),
{
    let head = events.drop_last();
    assert forall|i: int| 0 <= i < n implies #[trigger] head[i] || clone_may_fail(clone_script(token, i)) by {
        assert(events[i] == head[i]);
    }
    if events.len() == n + 1 {
        law_clone_goes_by_the_script(token, head);
    } else {
        assert(head[n] == events[n]);
        law_failed_clone_cleans_up(token, head, n);
    }
}

/// What a clone works with.
#[derive(Debug)]
pub struct ClonePlan {
    /// Arguments of `git init`.
    pub init: Vec<String>,
    /// Arguments of `git remote add`.
    pub remote_add: Vec<String>,
    /// Arguments of `git fetch`.
    pub fetch: Vec<String>,
    /// Environment of `git fetch`; that of the other commands is empty.
    pub fetch_env: Vec<(String, String)>,
    /// Arguments of `git checkout`.
    pub checkout: Vec<String>,
    /// The directory that the clone's own directory lies in.
    pub parent: String,
    /// Path of the token's file.
    pub token_path: String,
    /// Path of the script.
    pub askpass_path: String,
    /// The script, which prints the token's file.
    pub askpass_script: String,
    /// Permission bits of the token's file: its owner's alone.
    pub token_mode: u32,
    /// Permission bits of the script: its owner's alone, who may run it.
    pub askpass_mode: u32,
}

/// A `ClonePlan` with its texts as sequences of characters.
#[verifier::ext_equal]
pub struct CloneModel {
    pub init: Seq<Seq<char>>,
    pub remote_add: Seq<Seq<char>>,
    pub fetch: Seq<Seq<char>>,
    pub fetch_env: Seq<(Seq<char>, Seq<char>)>,
    pub checkout: Seq<Seq<char>>,
    pub parent: Seq<char>,
    pub token_path: Seq<char>,
    pub askpass_path: Seq<char>,
    pub askpass_script: Seq<char>,
    pub token_mode: u32,
    pub askpass_mode: u32,
}

/// The texts of pairs.
pub open spec fn pairs(v: Seq<(String, String)>) -> Seq<(Seq<char>, Seq<char>)> {
    Seq::new(v.len(), |i: int| (v[i].0@, v[i].1@))
}

impl View for ClonePlan {
    type V = CloneModel;

    open spec fn view(&self) -> CloneModel {
        CloneModel {
            init: texts(self.init@),
            remote_add: texts(self.remote_add@),
            fetch: texts(self.fetch@),
            fetch_env: pairs(self.fetch_env@),
            checkout: texts(self.checkout@),
            parent: self.parent@,
            token_path: self.token_path@,
            askpass_path: self.askpass_path@,
            askpass_script: self.askpass_script@,
            token_mode: self.token_mode,
            askpass_mode: self.askpass_mode,
        }
    }
}

/// The plan of a clone: an empty repository, the remote, a shallow fetch of
/// just that reference, and its checkout. A token only changes the user name
/// in the address and the environment of the fetch.
pub open spec fn clone_plan(repo_url: Seq<char>, git_ref: Seq<char>, token: Option<Seq<char>>, dest: Seq<char>, parent: Seq<char>) -> CloneModel {
    let token_path = joined(parent, ".tabbify-git-token"@);
    let askpass_path = joined(parent, ".tabbify-askpass.sh"@);
    CloneModel {
        init: seq!["init"@, "-q"@, dest],
        remote_add: seq![
            "-C"@,
            dest,
            "remote"@,
            "add"@,
            "origin"@,
            if token is Some {
                with_username(repo_url, "x-access-token"@)
            } else {
                repo_url
            },
        ],
        fetch: seq!["-C"@, dest, "fetch"@, "--depth"@, "1"@, "origin"@, git_ref],
        fetch_env: if token is Some {
            seq![("GIT_ASKPASS"@, askpass_path), ("GIT_TERMINAL_PROMPT"@, "0"@)]
        } else {
            Seq::empty()
        },
        checkout: seq!["-C"@, dest, "checkout"@, "FETCH_HEAD"@],
        parent,
        token_path,
        askpass_path,
        askpass_script: "#!/bin/sh\ncat \""@ + token_path + "\"\n"@,
        token_mode: 0o600,
        askpass_mode: 0o700,
    }
}

/// Plans the clone of `repo_url` at `git_ref` into the directory `dest`. What
/// the fetch needs of the token lies beside it; where `dest` has no parent, it
/// is refused.
pub fn clone(repo_url: &str, git_ref: &str, token: Option<&str>, dest: &str) -> (r: Result<ClonePlan, String>)
    ensures
        match parent_of(dest@) {
            Some(parent) => r is Ok && r->Ok_0@ == clone_plan(repo_url@, git_ref@, opt_str(token), dest@, parent),
            None => r is Err && r->Err_0@ == "dest path has no parent: "@ + dest@,
        },
{
    let parent_path: String = match parent_dir(dest) {
        Some(p) => p,
        None => return Err(concat2("dest path has no parent: ", dest)),
    };
    let token_path = join(&parent_path, ".tabbify-git-token");
    let askpass_path = join(&parent_path, ".tabbify-askpass.sh");
    let url: String = match token {
        Some(_) => inject_username(repo_url, "x-access-token"),
        None => repo_url.to_owned(),
    };
    let ghost want = clone_plan(repo_url@, git_ref@, opt_str(token), dest@, parent_path@);
    let a: [&str; 3] = ["init", "-q", dest];
    assert(strs(a@) =~= want.init);
    let b: [&str; 6] = ["-C", dest, "remote", "add", "origin", &url];
    assert(strs(b@) =~= want.remote_add);
    let c: [&str; 7] = ["-C", dest, "fetch", "--depth", "1", "origin", git_ref];
    assert(strs(c@) =~= want.fetch);
    let d: [&str; 4] = ["-C", dest, "checkout", "FETCH_HEAD"];
    assert(strs(d@) =~= want.checkout);
    let mut env: Vec<(String, String)> = Vec::new();
    match token {
        Some(_) => {
            env.push(("GIT_ASKPASS".to_owned(), askpass_path.as_str().to_owned()));
            env.push(("GIT_TERMINAL_PROMPT".to_owned(), "0".to_owned()));
        },
        None => {},
    }
    assert(pairs(env@) =~= want.fetch_env);
    let script = concat3("#!/bin/sh\ncat \"", &token_path, "\"\n");
    Ok(
        ClonePlan {
            init: svec(&a),
            remote_add: svec(&b),
            fetch: svec(&c),
            fetch_env: env,
            checkout: svec(&d),
            parent: parent_path,
            token_path,
            askpass_path,
            askpass_script: script,
            token_mode: 0o600,
            askpass_mode: 0o700,
        },
    )
}

// ---- what is said of a failure ------------------------------------------------------------

/// A step of writing a file that only its owner may read.
#[derive(Debug, Clone, Copy, PartialEq, Eq, Structural)]
pub enum SecretStep {
    /// Make the file, or empty it.
    Create,
    /// Take it from everyone else, before anything is in it.
    Restrict,
    /// Write it.
    Write,
}

/// What is said where such a step failed.
pub open spec fn secret_fault_text(step: SecretStep, path: Seq<char>, mode: u32, detail: Seq<char>) -> Seq<char> {
    match step {
        SecretStep::Create => "create secret file "@ + path + ": "@ + detail,
        SecretStep::Restrict => "chmod "@ + octal(mode as nat) + " "@ + path + ": "@ + detail,
        SecretStep::Write => "write secret file "@ + path + ": "@ + detail,
    }
}

/// What is said where a step of writing a file with those permission bits
/// failed.
pub fn secret_fault(step: SecretStep, path: &str, mode: u32, detail: &str) -> (r: String)
    ensures
        r@ == secret_fault_text(step, path@, mode, detail@),
{
    let mut out: String = match step {
        SecretStep::Create => "create secret file ".to_owned(),
        SecretStep::Restrict => {
            let mut chmod: String = "chmod ".to_owned();
            push_octal(&mut chmod, mode);
            chmod.append(" ");
            chmod
        },
        SecretStep::Write => "write secret file ".to_owned(),
    };
    out.append(path);
    out.append(": ");
    out.append(detail);
    out
}

/// What is said where an action of a clone into a directory in `parent`
/// failed. A file that could not be written has its own words.
pub open spec fn clone_fault_text(action: CloneAction, parent: Seq<char>, detail: Seq<char>) -> Seq<char> {
    match action {
        CloneAction::MakeParent => "create dest parent dir "@ + parent + ": "@ + detail,
        CloneAction::Init => "git init: "@ + detail,
        CloneAction::RemoteAdd => "git remote add: "@ + detail,
        CloneAction::Fetch => "git fetch: "@ + detail,
        CloneAction::Checkout => "git checkout: "@ + detail,
        CloneAction::WriteToken => detail,
        CloneAction::WriteAskpass => detail,
        CloneAction::RemoveToken => detail,
        CloneAction::RemoveAskpass => detail,
        CloneAction::Stop => detail,
    }
}

/// What is said where an action of a clone failed; `detail` is what went wrong.
pub fn clone_fault(action: CloneAction, plan: &ClonePlan, detail: &str) -> (r: String)
    ensures
        r@ == clone_fault_text(action, plan@.parent, detail@),
{
    match action {
        CloneAction::MakeParent => {
            let mut out = concat3("create dest parent dir ", &plan.parent, ": ");
            out.append(detail);
            out
        },
        CloneAction::Init => concat2("git init: ", detail),
        CloneAction::RemoteAdd => concat2("git remote add: ", detail),
        CloneAction::Fetch => concat2("git fetch: ", detail),
        CloneAction::Checkout => concat2("git checkout: ", detail),
        CloneAction::WriteToken => detail.to_owned(),
        CloneAction::WriteAskpass => detail.to_owned(),
        CloneAction::RemoveToken => detail.to_owned(),
        CloneAction::RemoveAskpass => detail.to_owned(),
        CloneAction::Stop => detail.to_owned(),
    }
}

/// No command line, no environment and no script depends on what the token
/// is: they are the same for any two tokens.
pub proof fn law_token_out_of_sight(
    repo_url: Seq<char>,
    git_ref: Seq<char>,
    one: Seq<char>,
    other: Seq<char>,
    dest: Seq<char>,
    parent: Seq<char>,
)
    ensures
        clone_plan(repo_url, git_ref, Some(one), dest, parent) == clone_plan(repo_url, git_ref, Some(other), dest, parent),
{
}

/// Only the fetch learns of the script, and only where there is a token.
pub proof fn law_askpass_for_fetch_only(repo_url: Seq<char>, git_ref: Seq<char>, token: Option<Seq<char>>, dest: Seq<char>, parent: Seq<char>)
    ensures
        clone_plan(repo_url, git_ref, token, dest, parent).fetch_env.len() > 0 <==> token is Some,
        token is None ==> clone_plan(repo_url, git_ref, token, dest, parent).remote_add[5] == repo_url,
{
}

/// The commands of a clone agree with one another: all but the first work in
/// the directory that the first makes, what is fetched is the reference, from
/// the remote that was added, and only its last commit; and what was fetched
/// is checked out.
pub proof fn law_clone_commands_agree(repo_url: Seq<char>, git_ref: Seq<char>, token: Option<Seq<char>>, dest: Seq<char>, parent: Seq<char>)
    ensures
        ({
            let p = clone_plan(repo_url, git_ref, token, dest, parent);
            &&& p.init.first() == "init"@ && p.init.last() == dest
            &&& p.remote_add.take(2) == seq!["-C"@, dest] && p.fetch.take(2) == seq!["-C"@, dest] && p.checkout.take(2) == seq![
                "-C"@,
                dest,
            ]
            &&& subcommand(p.remote_add) == "remote"@ && subcommand(p.fetch) == "fetch"@ && subcommand(p.checkout) == "checkout"@
            &&& p.remote_add[3] == "add"@ && p.remote_add[4] == p.fetch[5]
            &&& p.fetch.last() == git_ref
            &&& p.fetch[3] == "--depth"@ && p.fetch[4] == "1"@
            &&& p.checkout.last() == "FETCH_HEAD"@
            &&& p.parent == parent
        }),
{
    let p = clone_plan(repo_url, git_ref, token, dest, parent);
    let head = seq!["-C"@, dest];
    assert(p.remote_add.take(2) =~= head && p.fetch.take(2) =~= head && p.checkout.take(2) =~= head);
    law_subcommand(dest, p.remote_add.skip(2));
    law_subcommand(dest, p.fetch.skip(2));
    law_subcommand(dest, p.checkout.skip(2));
    assert(p.remote_add =~= head + p.remote_add.skip(2));
    assert(p.fetch =~= head + p.fetch.skip(2));
    assert(p.checkout =~= head + p.checkout.skip(2));
    reveal_strlit("remote");
    reveal_strlit("fetch");
    reveal_strlit("checkout");
    reveal_strlit("-C");
}

/// The directory behind `-C` is no command, nor is an option; the first word
/// that is neither is the one.
pub proof fn law_subcommand(dir: Seq<char>, rest: Seq<Seq<char>>)
    ensures
        subcommand(seq!["-C"@, dir] + rest) == subcommand(rest),
        rest.len() > 0 && rest[0].len() > 0 && rest[0][0] == '-' && rest[0] != "-C"@ ==> subcommand(rest) == subcommand(rest.skip(1)),
        rest.len() > 0 && (rest[0].len() == 0 || rest[0][0] != '-') ==> subcommand(rest) == rest[0],
        rest.len() == 0 ==> subcommand(rest) == "?"@,
{
    reveal_strlit("-C");
    let all = seq!["-C"@, dir] + rest;
    assert(all.skip(2) =~= rest);
    assert(all[0] == "-C"@);
}

/// With a token, git asks the script for it and no one else: the script prints
/// the file that holds the token, both lie in the parent of the clone, and
/// neither may be read by anyone but the owner, who may run the script alone.
pub proof fn law_askpass_prints_the_token(repo_url: Seq<char>, git_ref: Seq<char>, token: Seq<char>, dest: Seq<char>, parent: Seq<char>)
    ensures
        ({
            let p = clone_plan(repo_url, git_ref, Some(token), dest, parent);
            &&& p.fetch_env.contains(("GIT_ASKPASS"@, p.askpass_path))
            &&& p.fetch_env.contains(("GIT_TERMINAL_PROMPT"@, "0"@))
            &&& p.askpass_script == "#!/bin/sh\ncat \""@ + p.token_path + "\"\n"@
            &&& p.token_path == joined(parent, ".tabbify-git-token"@)
            &&& p.askpass_path == joined(parent, ".tabbify-askpass.sh"@)
            &&& p.token_mode / 64 == 6 && p.token_mode % 64 == 0
            &&& p.askpass_mode / 64 == 7 && p.askpass_mode % 64 == 0
            &&& p.remote_add.last() == with_username(repo_url, "x-access-token"@)
        }),
{
    let p = clone_plan(repo_url, git_ref, Some(token), dest, parent);
    assert(p.fetch_env[0] == ("GIT_ASKPASS"@, p.askpass_path));
    assert(p.fetch_env[1] == ("GIT_TERMINAL_PROMPT"@, "0"@));
}

/// A user name goes right behind the scheme of an `https` address whose host
/// has none, and into no other address.
pub proof fn law_where_a_username_goes(host: Seq<char>, path: Seq<char>, other: Seq<char>, username: Seq<char>)
    requires
        !has_char(host, '/'),
        !has_char(host, '@'),
        !begins_with(other, "https://"@),
    ensures
        with_username("https://"@ + host + "/"@ + path, username) == "https://"@ + username + "@"@ + host + "/"@ + path,
        with_username("https://"@ + username + "@"@ + host + "/"@ + path, username) == "https://"@ + username + "@"@ + host + "/"@ + path
            || has_char(username, '/'),
        with_username(other, username) == other,
{
    reveal_strlit("https://");
    reveal_strlit("/");
    reveal_strlit("@");
    let rest = host + "/"@ + path;
    let url = "https://"@ + host + "/"@ + path;
    assert(url.take(8) =~= "https://"@);
    assert(url.skip(8) =~= rest);
    find_char_first(host, '/');
    find_char_first(host, '@');
    assert(rest =~= host.push('/') + path);
    parted_after(host, '/', path);
    assert(with_username(url, username) =~= "https://"@ + username + "@"@ + host + "/"@ + path);
    if !has_char(username, '/') {
        law_username_once(url, username, username);
        let once = with_username(url, username);
        assert(once.len() > url.len());
    }
}

/// An error keeps all that git wrote where that is no more than two thousand
/// bytes, and else the longest end of it that is.
pub proof fn law_what_an_error_keeps(stderr: Seq<char>)
    ensures
        ({
            let t = trimmed(stderr);
            let tail = tail_within(t, 2000);
            &&& byte_len(t) <= 2000 ==> kept_stderr(stderr) == t
            &&& byte_len(t) > 2000 ==> kept_stderr(stderr) == "\u{2026}"@ + tail
            &&& byte_len(tail) <= 2000
            &&& tail.len() <= t.len() && tail == t.skip(t.len() - tail.len())
            &&& tail.len() < t.len() ==> byte_len(t.skip(t.len() - tail.len() - 1)) > 2000
        }),
{
    tail_is_longest(trimmed(stderr), 2000);
}

/// The end of a text that fits is the longest one that does.
proof fn tail_is_longest(s: Seq<char>, max: nat)
    ensures
        ({
            let tail = tail_within(s, max);
            &&& byte_len(tail) <= max
            &&& tail.len() <= s.len() && tail == s.skip(s.len() - tail.len())
            &&& tail.len() < s.len() ==> byte_len(s.skip(s.len() - tail.len() - 1)) > max
        }),
    decreases s.len(),
{
    tail_fits(s, max);
    let tail = tail_within(s, max);
    if byte_len(s) <= max || s.len() == 0 {
        assert(s.skip(0) =~= s);
    } else {
        let rest = s.skip(1);
        tail_is_longest(rest, max);
        assert(rest.skip(rest.len() - tail.len()) =~= s.skip(s.len() - tail.len()));
        if tail.len() < rest.len() {
            assert(rest.skip(rest.len() - tail.len() - 1) =~= s.skip(s.len() - tail.len() - 1));
        } else {
            assert(s.skip(0) =~= s);
        }
    }
}

/// Where a git command of a clone failed, it is told which, and what went
/// wrong stands at the end.
pub proof fn law_what_is_told_of_a_failed_clone(plan: CloneModel, action: CloneAction, detail: Seq<char>)
    ensures
        ends_in(clone_fault_text(action, plan.parent, detail), detail),
        action == CloneAction::Init ==> clone_fault_text(action, plan.parent, detail) == "git init: "@ + detail,
        action == CloneAction::Fetch ==> clone_fault_text(action, plan.parent, detail) == "git fetch: "@ + detail,
        action == CloneAction::RemoteAdd ==> clone_fault_text(action, plan.parent, detail) == "git remote add: "@ + detail,
        action == CloneAction::Checkout ==> clone_fault_text(action, plan.parent, detail) == "git checkout: "@ + detail,
        action == CloneAction::MakeParent ==> clone_fault_text(action, plan.parent, detail) == "create dest parent dir "@ + plan.parent
            + ": "@ + detail,
{
    let t = clone_fault_text(action, plan.parent, detail);
    assert(t.skip(t.len() - detail.len()) =~= detail);
}

} // verus!
