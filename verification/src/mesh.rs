//! Joining the mesh.
use vstd::prelude::*;
use crate::text::{concat2, opt_str, opt_text, svec, text_len, texts, texts_push};
use crate::words::{trim_text, trimmed};

verus! {

/// The environment variable that holds the super-admin's public key.
pub const SUPER_ADMIN_PUBKEY_ENV: &'static str = "TABBIFY_MESH_SUPER_ADMIN_PUBKEY";

/// The systemd unit that is restarted to join anew.
pub const SUPERVISOR_UNIT: &'static str = "tabbify-supervisor";

/// The file that executed commands are noted in.
pub const COMMAND_NONCE_FILENAME: &'static str = "mesh-command-nonces.json";

/// The environment variable that holds the join token.
pub const JOIN_TOKEN_ENV: &'static str = "TABBIFY_JOIN_TOKEN";

/// What an operator is told whose join token is no longer good.
pub const JOIN_401_GUIDANCE: &'static str =
    "join rejected (HTTP 401): the join token is expired or revoked \u{2014} re-mint via admin 'Add a node' and update /etc/tabbify/supervisor.env (TABBIFY_JOIN_TOKEN=<jwt>), then `systemctl restart tabbify-supervisor`";

// ---- the super-admin's key -----------------------------------------------------------

/// The value of a hexadecimal digit, if the character is one.
pub open spec fn hex_value(c: char) -> Option<nat> {
    if '0' <= c && c <= '9' {
        Some((c as int - '0' as int) as nat)
    } else if 'a' <= c && c <= 'f' {
        Some((c as int - 'a' as int + 10) as nat)
    } else if 'A' <= c && c <= 'F' {
        Some((c as int - 'A' as int + 10) as nat)
    } else {
        None
    }
}

/// Is the text hexadecimal, two digits to a byte?
pub open spec fn is_hex(s: Seq<char>) -> bool {
    s.len() % 2 == 0 && forall|i: int| 0 <= i < s.len() ==> hex_value(#[trigger] s[i]) is Some
}

/// The bytes that a hexadecimal text stands for.
pub open spec fn hex_bytes(s: Seq<char>) -> Seq<u8> {
    Seq::new((s.len() / 2) as nat, |i: int| (hex_value(s[2 * i])->Some_0 * 16 + hex_value(s[2 * i + 1])->Some_0) as u8)
}

/// `hex::decode` gives the bytes of a hexadecimal text, in upper or lower
/// case, and an error, which is dropped here, on any other text.
#[verifier::external_body]
fn hex_decode(text: &str) -> (r: Option<Vec<u8>>)
    ensures
        match r {
            Some(v) => is_hex(text@) && v@ == hex_bytes(text@),
            None => !is_hex(text@),
        },
{
    hex::decode(text).ok()
}

/// The key that a text names: thirty-two bytes in hexadecimal, white space
/// around it aside. Anything else names none, which leaves remote commands off.
pub open spec fn pubkey_of(text: Option<Seq<char>>) -> Option<Seq<u8>> {
    match text {
        Some(t) => if is_hex(trimmed(t)) && trimmed(t).len() == 64 {
            Some(hex_bytes(trimmed(t)))
        } else {
            None
        },
        None => None,
    }
}

/// The super-admin's public key, if the text names one.
pub fn parse_super_admin_pubkey(hex_opt: Option<&str>) -> (r: Option<[u8; 32]>)
    ensures
        (match r {
            Some(k) => Some(k@),
            None => None,
        }) == pubkey_of(opt_str(hex_opt)),
{
    let text: &str = match hex_opt {
        Some(t) => t,
        None => return None,
    };
    let inner = trim_text(text);
    match hex_decode(&inner) {
        Some(raw) => {
            if raw.len() != 32 {
                return None;
            }
            let mut key: [u8; 32] = [0u8; 32];
            let mut i: usize = 0;
            while i < 32
                invariant
                    i <= 32,
                    raw@.len() == 32,
                    forall|j: int| 0 <= j < i ==> key@[j] == raw@[j],
                decreases 32 - i,
            {
                key[i] = raw[i];
                i += 1;
            }
            assert(key@ =~= raw@);
            Some(key)
        },
        None => None,
    }
}

// ---- the join --------------------------------------------------------------------------

/// What a peer says of itself when it joins.
#[derive(Debug)]
pub struct JoinMetadata {
    /// The address that it asks for.
    pub requested_ula: Option<String>,
    /// Its role.
    pub kind: Option<String>,
    /// The address of the supervisor that owns it.
    pub parent: Option<String>,
    /// The app that it serves.
    pub app_uuid: Option<String>,
    /// Where its identity is kept.
    pub identity_path: Option<String>,
    /// The version that it runs; unknown where there is none.
    pub software_version: Option<String>,
    /// The token that it joins with.
    pub join_token: Option<String>,
}

impl Default for JoinMetadata {
    fn default() -> (r: Self)
        ensures
            r.requested_ula is None,
            r.kind is None,
            r.parent is None,
            r.app_uuid is None,
            r.identity_path is None,
            r.software_version is None,
            r.join_token is None,
    {
        JoinMetadata {
            requested_ula: None,
            kind: None,
            parent: None,
            app_uuid: None,
            identity_path: None,
            software_version: None,
            join_token: None,
        }
    }
}

impl JoinMetadata {
    /// What a supervisor says of itself: its role, and that no one owns it.
    pub fn supervisor(identity_path: String, software_version: Option<String>, join_token: Option<String>) -> (r: Self)
        ensures
            r.kind is Some && r.kind->Some_0@ == "supervisor"@,
            r.requested_ula is None,
            r.parent is None,
            r.app_uuid is None,
            r.identity_path == Some(identity_path),
            r.software_version == software_version,
            r.join_token == join_token,
    {
        JoinMetadata {
            requested_ula: None,
            kind: Some("supervisor".to_owned()),
            parent: None,
            app_uuid: None,
            identity_path: Some(identity_path),
            software_version,
            join_token,
        }
    }
}

/// The token that a peer joins with: its own, else the one in the environment,
/// unless that is blank.
pub open spec fn token_for(own: Option<Seq<char>>, env: Option<Seq<char>>) -> Option<Seq<char>> {
    match own {
        Some(t) => Some(t),
        None => match env {
            Some(e) => if trimmed(e).len() == 0 {
                None
            } else {
                Some(e)
            },
            None => None,
        },
    }
}

/// The token that a peer joins with; `env` is what the environment holds.
pub fn resolve_join_token(metadata_token: Option<String>, env: Option<&str>) -> (r: Option<String>)
    ensures
        opt_text(r) == token_for(opt_text(metadata_token), opt_str(env)),
{
    match metadata_token {
        Some(t) => Some(t),
        None => match env {
            Some(e) => {
                let inner = trim_text(e);
                if text_len(&inner) == 0 {
                    None
                } else {
                    Some(e.to_owned())
                }
            },
            None => None,
        },
    }
}

/// What is said of a join that failed. Only where the coordinator refused the
/// token is the operator told what to do about it.
pub open spec fn join_error_text(cause: Seq<char>, status: Option<u16>, ctx: Seq<char>) -> Seq<char> {
    if status == Some(401u16) {
        ctx + ": "@ + JOIN_401_GUIDANCE@ + ": "@ + cause
    } else {
        ctx + ": "@ + cause
    }
}

/// What is said of a join that failed; `status` is that of the coordinator's
/// answer, if it answered.
pub fn enrich_join_error(cause: &str, status: Option<u16>, ctx: &str) -> (r: String)
    ensures
        r@ == join_error_text(cause@, status, ctx@),
{
    let refused: bool = match status {
        Some(s) => s == 401,
        None => false,
    };
    let mut out = concat2(ctx, ": ");
    if refused {
        out.append(JOIN_401_GUIDANCE);
        out.append(": ");
    }
    out.append(cause);
    out
}

/// What a supervisor joins with.
#[derive(Debug)]
pub struct JoinConfig {
    /// The coordinator.
    pub coordinator_url: String,
    /// The peer's name.
    pub display_name: String,
    /// Its tags.
    pub tags: Vec<String>,
    /// Does it join without client certificates?
    pub insecure_no_mtls: bool,
    /// What it says of itself, its token resolved.
    pub metadata: JoinMetadata,
    /// The relay, where it is not to be derived from the coordinator.
    pub relay_url: Option<String>,
    /// Is it reachable over the relay only?
    pub relay_only: bool,
    /// The endpoint that others are told, where it is not to be observed.
    pub advertise_endpoint: Option<String>,
    /// Does it see to the host's firewall?
    pub manage_firewall: bool,
    /// Are its routes bound to its own address?
    pub source_scoped_routes: bool,
}

/// What a supervisor joins with: it is tagged as one, owns the host's routes
/// and sees to its firewall.
pub fn build_supervisor_join_config(
    coordinator_url: &str,
    display_name: &str,
    extra_tags: &[String],
    metadata: JoinMetadata,
    relay_url: Option<String>,
    relay_only: bool,
    advertise_endpoint: Option<String>,
    env_token: Option<&str>,
) -> (r: JoinConfig)
    ensures
        r.coordinator_url@ == coordinator_url@,
        r.display_name@ == display_name@,
        texts(r.tags@) == seq!["supervisor"@] + texts(extra_tags@),
        r.insecure_no_mtls,
        r.metadata.requested_ula == metadata.requested_ula,
        r.metadata.kind == metadata.kind,
        r.metadata.parent == metadata.parent,
        r.metadata.app_uuid == metadata.app_uuid,
        r.metadata.identity_path == metadata.identity_path,
        r.metadata.software_version == metadata.software_version,
        opt_text(r.metadata.join_token) == token_for(opt_text(metadata.join_token), opt_str(env_token)),
        r.relay_url == relay_url,
        r.relay_only == relay_only,
        r.advertise_endpoint == advertise_endpoint,
        r.manage_firewall,
        !r.source_scoped_routes,
{
    let first: [&str; 1] = ["supervisor"];
    let mut tags = svec(&first);
    let ghost head = texts(tags@);
    assert(head =~= seq!["supervisor"@]);
    let mut i: usize = 0;
    assert(head + texts(extra_tags@).take(0) =~= head);
    while i < extra_tags.len()
        invariant
            i <= extra_tags@.len(),
            texts(tags@) == head + texts(extra_tags@).take(i as int),
        decreases extra_tags@.len() - i,
    {
        let t: String = extra_tags[i].as_str().to_owned();
        proof {
            texts_push(tags@, t);
            assert((head + texts(extra_tags@).take(i as int)).push(t@) =~= head + texts(extra_tags@).take(i + 1));
        }
        tags.push(t);
        i += 1;
    }
    assert(texts(extra_tags@).take(i as int) =~= texts(extra_tags@));
    let JoinMetadata { requested_ula, kind, parent, app_uuid, identity_path, software_version, join_token } = metadata;
    JoinConfig {
        coordinator_url: coordinator_url.to_owned(),
        display_name: display_name.to_owned(),
        tags,
        insecure_no_mtls: true,
        metadata: JoinMetadata {
            requested_ula,
            kind,
            parent,
            app_uuid,
            identity_path,
            software_version,
            join_token: resolve_join_token(join_token, env_token),
        },
        relay_url,
        relay_only,
        advertise_endpoint,
        manage_firewall: true,
        source_scoped_routes: false,
    }
}

/// A blank token in the environment is never sent.
pub proof fn law_no_blank_token(env: Seq<char>)
    requires
        trimmed(env).len() == 0,
    ensures
        token_for(None, Some(env)) is None,
{
}

/// A peer's own token goes before the one in the environment, whatever that
/// is; and one in the environment that is not blank is taken as it is.
pub proof fn law_own_token_goes_first(own: Seq<char>, env: Option<Seq<char>>)
    ensures
        token_for(Some(own), env) == Some(own),
        env is Some && trimmed(env->Some_0).len() > 0 ==> token_for(None, env) == env,
        token_for(None, None) is None,
{
}

/// The operator is told what to do about the token exactly where the
/// coordinator's answer was that it is not authorised; the cause is told in
/// any case.
pub proof fn law_guidance_only_for_refused_tokens(cause: Seq<char>, status: Option<u16>, ctx: Seq<char>)
    ensures
        crate::text::begins_with(join_error_text(cause, status, ctx), ctx + ": "@),
        crate::text::ends_in(join_error_text(cause, status, ctx), ": "@ + cause),
        join_error_text(cause, status, ctx).len() == ctx.len() + cause.len() + 2 + if status is Some && status->Some_0 == 401 {
            JOIN_401_GUIDANCE@.len() + 2
        } else {
            0
        },
{
    reveal_strlit(": ");
    let t = join_error_text(cause, status, ctx);
    let front = ctx + ": "@;
    assert(t.take(front.len() as int) =~= front);
    let back = ": "@ + cause;
    assert(t.skip(t.len() - back.len()) =~= back);
}

/// Any thirty-two bytes, written in hexadecimal, are read back as a key.
pub proof fn law_pubkey_reads_back(key: Seq<u8>, text: Seq<char>)
    requires
        key.len() == 32,
        text.len() == 64,
        forall|i: int|
            0 <= i < 32 ==> text[2 * i] == crate::number::hex_char(#[trigger] key[i] as nat / 16) && text[2 * i + 1]
                == crate::number::hex_char(key[i] as nat % 16),
    ensures
        pubkey_of(Some(text)) == Some(key),
{
    assert forall|d: nat| d < 16 implies hex_value(#[trigger] crate::number::hex_char(d)) == Some(d) by {}
    assert forall|j: int| 0 <= j < 64 implies hex_value(#[trigger] text[j]) is Some by {
        let i = j / 2;
        assert(key[i] as nat / 16 < 16 && key[i] as nat % 16 < 16);
        assert(j == 2 * i || j == 2 * i + 1);
    }
    assert(!crate::words::is_space(text[0])) by {
        assert(key[0] as nat / 16 < 16);
        assert(text[0] == crate::number::hex_char(key[0] as nat / 16));
    }
    assert(!crate::words::is_space(text[63])) by {
        assert(key[31] as nat % 16 < 16);
        assert(text[63] == crate::number::hex_char(key[31] as nat % 16));
    }
    crate::words::trimmed_fixed(text);
    let read = hex_bytes(text);
    assert forall|i: int| 0 <= i < 32 implies read[i] == key[i] by {
        assert(key[i] as nat / 16 < 16 && key[i] as nat % 16 < 16);
    }
    assert(read =~= key);
}

} // verus!
