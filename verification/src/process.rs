//! How programs end, and what is said of those that end badly.
use vstd::prelude::*;
use crate::number::{decimal, push_decimal};
use crate::text::{join_texts, joined_with, texts};
use crate::words::{trim_text, trimmed};

verus! {

/// An integer in decimal, with its sign.
pub open spec fn signed(n: int) -> Seq<char> {
    if n < 0 {
        "-"@ + decimal((-n) as nat)
    } else {
        decimal(n as nat)
    }
}

/// Adds an integer in decimal, with its sign.
pub fn push_signed(out: &mut String, n: i32)
    ensures
        final(out)@ == old(out)@ + signed(n as int),
{
    if n < 0 {
        out.append("-");
        push_decimal(out, (-(n as i64)) as u64);
        assert(out@ =~= old(out)@ + signed(n as int));
    } else {
        push_decimal(out, n as u64);
    }
}

/// The exit code of a process, or that a signal ended it.
pub open spec fn code_text(code: Option<i32>) -> Seq<char> {
    match code {
        Some(c) => signed(c as int),
        None => "signal"@,
    }
}

/// Adds the exit code of a process, or that a signal ended it.
pub fn push_code(out: &mut String, code: Option<i32>)
    ensures
        final(out)@ == old(out)@ + code_text(code),
{
    match code {
        Some(c) => {
            push_signed(out, c);
        },
        None => {
            out.append("signal");
        },
    }
}

/// What a program that ended badly is reported as.
pub open spec fn failed_text(program: Seq<char>, args: Seq<Seq<char>>, stderr: Seq<char>) -> Seq<char> {
    program + " "@ + joined_with(args, " "@) + " failed: "@ + trimmed(stderr)
}

/// What a program that ended badly is reported as: its name, its arguments
/// and what it wrote.
pub fn command_failure(program: &str, args: &Vec<String>, stderr: &str) -> (r: String)
    ensures
        r@ == failed_text(program@, texts(args@), stderr@),
{
    let mut out: String = program.to_owned();
    out.append(" ");
    let joined = join_texts(args, " ");
    out.append(&joined);
    out.append(" failed: ");
    let t = trim_text(stderr);
    out.append(&t);
    out
}

} // verus!
