//! Getting a fresh join token at startup.
//!
//! A supervisor holds a narrow credential that is good for a token of its own
//! and for nothing else. Whatever goes wrong, it falls back to the token that
//! it was configured with.
use vstd::prelude::*;
use crate::http_status::{is_status, is_success, status_line, status_text, success};
use crate::json::{json_from_str, json_read, opt_json, string_member, text_member, JsonModel};
use crate::sanitize::{lower_text, to_lower};
use crate::text::{concat2, concat3, opt_str, opt_text, text_eq, text_len, trim_end_char, without_end};
use crate::words::{trim_text, trimmed};

verus! {

/// The environment variable that holds the credential.
pub const RENEWAL_SECRET_ENV: &'static str = "TABBIFY_RENEWAL_SECRET";

/// The environment variable that holds the base address.
pub const RENEW_URL_ENV: &'static str = "TABBIFY_RENEW_URL";

/// The environment variable that switches it off.
pub const SELF_MINT_ENV: &'static str = "TABBIFY_MESH_SELF_MINT";

/// The base address that is used unless another is configured.
pub const DEFAULT_RENEW_URL: &'static str = "https://api.tabbify.io";

/// How long one request may take, in milliseconds.
pub const REQUEST_TIMEOUT: u64 = 10_000;

/// How many attempts are made.
pub const MAX_ATTEMPTS: u32 = 3;

/// The pause between two attempts, in milliseconds.
pub const RETRY_BACKOFF: u64 = 2_000;

/// Does the value of the switch leave it on? Only a plain no turns it off.
pub open spec fn mint_on(raw: Option<Seq<char>>) -> bool {
    match raw {
        None => true,
        Some(v) => {
            let t = lower_text(trimmed(v));
            t != "0"@ && t != "false"@ && t != "off"@ && t != "no"@
        },
    }
}

/// Does the value of the switch leave it on?
pub fn self_mint_enabled(raw: Option<&str>) -> (r: bool)
    ensures
        r == mint_on(opt_str(raw)),
{
    match raw {
        None => true,
        Some(v) => {
            let t = trim_text(v);
            let low = to_lower(&t);
            !(text_eq(&low, "0") || text_eq(&low, "false") || text_eq(&low, "off") || text_eq(&low, "no"))
        },
    }
}

/// An unset switch and an empty one leave it on.
pub proof fn law_mint_on_by_default()
    ensures
        mint_on(None),
        mint_on(Some(Seq::empty())),
{
    let e = Seq::<char>::empty();
    assert(trimmed(e) =~= e);
    assert(lower_text(e) =~= e);
    reveal_strlit("0");
    reveal_strlit("false");
    reveal_strlit("off");
    reveal_strlit("no");
}

/// Where a token is renewed.
pub open spec fn renew_at(base_url: Seq<char>) -> Seq<char> {
    without_end(base_url, '/') + "/v1/mesh/renew-join-token"@
}

/// Where a token is renewed, whether or not the base ends in a slash.
pub fn renew_endpoint(base_url: &str) -> (r: String)
    ensures
        r@ == renew_at(base_url@),
{
    let base = trim_end_char(base_url, '/');
    concat2(&base, "/v1/mesh/renew-join-token")
}

/// Why there is no fresh token.
#[derive(Debug)]
pub enum RenewFault {
    /// The answer is no JSON; the text says why.
    NotJson(String),
    /// The answer has no token.
    NoToken,
    /// The answer is a refusal, with what it says.
    Refused(u16, String),
}

/// The token in an answer: its member `token`, if that is a text and not empty.
pub open spec fn token_in(reply: JsonModel) -> Option<Seq<char>> {
    match text_member(Some(reply), "token"@) {
        Some(t) => if t.len() == 0 {
            None
        } else {
            Some(t)
        },
        None => None,
    }
}

/// The token in a parsed answer.
pub fn token_of_reply(reply: &Option<serde_json::Value>) -> (r: Option<String>)
    ensures
        opt_text(r) == match opt_json(*reply) {
            Some(v) => token_in(v),
            None => None,
        },
{
    match string_member(reply, "token") {
        Some(t) => if text_len(t) == 0 {
            None
        } else {
            Some(t.to_owned())
        },
        None => None,
    }
}

/// The token in an answer. Members besides it do not matter.
pub fn token_from_response(body: &str) -> (r: Result<String, RenewFault>)
    ensures
        match json_read(body@) {
            Err(fault) => r matches Err(RenewFault::NotJson(why)) && why@ == fault,
            Ok(v) => match token_in(v) {
                Some(t) => r is Ok && r->Ok_0@ == t,
                None => r matches Err(RenewFault::NoToken),
            },
        },
{
    let reply: Option<serde_json::Value> = match json_from_str(body) {
        Ok(v) => Some(v),
        Err(why) => return Err(RenewFault::NotJson(why)),
    };
    match token_of_reply(&reply) {
        Some(t) => Ok(t),
        None => Err(RenewFault::NoToken),
    }
}

/// The token in an answer with that status; a refusal carries its own words.
pub fn renew_once(status: u16, body: &str) -> (r: Result<String, RenewFault>)
    ensures
        if !success(status) {
            r matches Err(RenewFault::Refused(s, why)) && s == status && why@ == trimmed(body@)
        } else {
            match json_read(body@) {
                Err(fault) => r matches Err(RenewFault::NotJson(why)) && why@ == fault,
                Ok(v) => match token_in(v) {
                    Some(t) => r is Ok && r->Ok_0@ == t,
                    None => r matches Err(RenewFault::NoToken),
                },
            }
        },
{
    if !is_success(status) {
        return Err(RenewFault::Refused(status, trim_text(body)));
    }
    token_from_response(body)
}

impl RenewFault {
    /// What is said of the fault.
    pub fn message(&self) -> (r: String)
        requires
            self matches RenewFault::Refused(s, _) ==> is_status(*s),
        ensures
            r@ == match self {
                RenewFault::NotJson(why) => "renew response is not JSON: "@ + why@,
                RenewFault::NoToken => "renew response carried no token"@,
                RenewFault::Refused(s, why) => "join renewal refused: status "@ + status_line(*s) + ": "@ + why@,
            },
    {
        match self {
            RenewFault::NotJson(why) => concat2("renew response is not JSON: ", why),
            RenewFault::NoToken => "renew response carried no token".to_owned(),
            RenewFault::Refused(s, why) => {
                let st = status_text(*s);
                let mut out = concat3("join renewal refused: status ", &st, ": ");
                out.append(why);
                out
            },
        }
    }
}

/// What is asked for, and with which credential.
#[derive(Debug)]
pub struct MintPlan {
    /// Where the token is renewed.
    pub endpoint: String,
    /// The credential.
    pub secret: String,
}

/// Is a fresh token asked for? Only where that is on and there is a credential.
pub open spec fn mints(switch: Option<Seq<char>>, secret: Option<Seq<char>>) -> bool {
    mint_on(switch) && secret is Some && trimmed(secret->Some_0).len() > 0
}

/// Plans to get a fresh token; the arguments are what the environment holds.
/// Without a plan the configured token is used.
pub fn self_minted_join_token(switch: Option<&str>, secret: Option<&str>, base_url: Option<&str>) -> (r: Option<MintPlan>)
    ensures
        r is Some <==> mints(opt_str(switch), opt_str(secret)),
        r matches Some(p) ==> p.secret@ == secret->Some_0@ && p.endpoint@ == renew_at(
            match base_url {
                Some(b) => b@,
                None => DEFAULT_RENEW_URL@,
            },
        ),
{
    if !self_mint_enabled(switch) {
        return None;
    }
    match secret {
        Some(s) => {
            let t = trim_text(s);
            if text_len(&t) == 0 {
                return None;
            }
            let base: &str = match base_url {
                Some(b) => b,
                None => DEFAULT_RENEW_URL,
            };
            Some(MintPlan { endpoint: renew_endpoint(base), secret: s.to_owned() })
        },
        None => None,
    }
}

/// What follows an attempt to get a fresh token.
#[derive(Debug, Clone, Copy, PartialEq, Eq, Structural)]
pub enum MintStep {
    /// Use the fresh token.
    Use,
    /// Try again after the pause.
    Retry,
    /// Use the configured token.
    FallBack,
}

/// What follows attempt number `attempt`, counted from one.
pub open spec fn mint_next(got: bool, attempt: u32) -> MintStep {
    if got {
        MintStep::Use
    } else if attempt < MAX_ATTEMPTS {
        MintStep::Retry
    } else {
        MintStep::FallBack
    }
}

/// What follows attempt number `attempt`, counted from one.
pub fn mint_step(got: bool, attempt: u32) -> (r: MintStep)
    ensures
        r == mint_next(got, attempt),
{
    if got {
        MintStep::Use
    } else if attempt < MAX_ATTEMPTS {
        MintStep::Retry
    } else {
        MintStep::FallBack
    }
}

/// Attempts end: the last that is allowed is never followed by another.
pub proof fn law_mint_bounded(got: bool, attempt: u32)
    ensures
        mint_next(got, attempt) == MintStep::Retry ==> !got && attempt + 1 <= MAX_ATTEMPTS,
        mint_next(got, MAX_ATTEMPTS) != MintStep::Retry,
        got ==> mint_next(got, attempt) == MintStep::Use,
{
}

/// Four words turn it off, in any case and with any white space around them,
/// and no other value does.
pub proof fn law_words_that_turn_it_off(value: Seq<char>)
    ensures
        mint_on(Some(value)) <==> !seq!["0"@, "false"@, "off"@, "no"@].contains(lower_text(trimmed(value))),
{
    let off = seq!["0"@, "false"@, "off"@, "no"@];
    assert(off[0] == "0"@ && off[1] == "false"@ && off[2] == "off"@ && off[3] == "no"@);
}

/// Three attempts are made and no more; the token of any of them is used, and
/// after the third failure the configured one.
pub proof fn law_three_attempts(attempt: u32)
    ensures
        mint_next(true, attempt) == MintStep::Use,
        attempt < 3 ==> mint_next(false, attempt) == MintStep::Retry,
        attempt >= 3 ==> mint_next(false, attempt) == MintStep::FallBack,
{
}

/// A token is renewed at the same address whether or not the base ends in
/// slashes, and that address is below the base.
pub proof fn law_renewed_below_the_base(base_url: Seq<char>)
    ensures
        renew_at(base_url.push('/')) == renew_at(base_url),
        base_url.len() > 0 && base_url.last() != '/' ==> renew_at(base_url) == base_url + "/v1/mesh/renew-join-token"@,
{
    assert(base_url.push('/').drop_last() =~= base_url);
}

/// An answer has a token exactly where its member of that name is a text with
/// something in it; other members do not matter.
pub proof fn law_token_of_an_answer(m: Map<Seq<char>, JsonModel>, token: Seq<char>)
    ensures
        token_in(JsonModel::Object(m)) == Some(token) <==> m.dom().contains("token"@) && m["token"@] == JsonModel::Text(token)
            && token.len() > 0,
{
}

/// A token is asked for only with a credential that is not blank, and never
/// where it is turned off.
pub proof fn law_no_credential_no_renewal(switch: Option<Seq<char>>, secret: Option<Seq<char>>)
    ensures
        secret is None ==> !mints(switch, secret),
        secret is Some && trimmed(secret->Some_0).len() == 0 ==> !mints(switch, secret),
        switch is None && secret is Some && trimmed(secret->Some_0).len() > 0 ==> mints(switch, secret),
        !mint_on(switch) ==> !mints(switch, secret),
{
}

} // verus!
