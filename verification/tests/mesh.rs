//! Joining the mesh, and minting the token for it.
use tabbify_supervisor::mesh::{
    build_supervisor_join_config, enrich_join_error, parse_super_admin_pubkey, resolve_join_token, JoinConfig, JoinMetadata,
    JOIN_TOKEN_ENV,
};
use tabbify_supervisor::mesh_self_mint::{
    mint_step, renew_endpoint, renew_once, self_mint_enabled, self_minted_join_token, token_from_response, MintStep, RenewFault,
    MAX_ATTEMPTS,
};

#[test]
fn join_metadata_carries_software_version() {
    let md = JoinMetadata { software_version: Some("1.4.0".to_owned()), ..Default::default() };
    assert_eq!(md.software_version.as_deref(), Some("1.4.0"));
    assert!(JoinMetadata::default().software_version.is_none());
    let md = JoinMetadata::supervisor("/d/id.json".to_owned(), None, Some("t".to_owned()));
    let c = config(md, &[], None, false, None);
    assert_eq!(c.metadata.kind.as_deref(), Some("supervisor"));
}

#[test]
fn resolve_super_admin_pubkey_from_hex_env() {
    let hex = "ab".repeat(32);
    let pk = parse_super_admin_pubkey(Some(&hex));
    assert!(pk.is_some(), "valid 32-byte hex must resolve");
    assert_eq!(pk.unwrap(), [0xAB; 32]);
    assert!(parse_super_admin_pubkey(Some("abcd")).is_none());
    assert!(parse_super_admin_pubkey(None).is_none());
    assert!(parse_super_admin_pubkey(Some(&"zz".repeat(32))).is_none());
}

#[test]
fn enrich_join_error_appends_guidance_on_401_only() {
    let rendered = enrich_join_error("http status 401: join token invalid or revoked", Some(401), "join mesh as supervisor");
    assert!(rendered.contains("/etc/tabbify/supervisor.env"), "401 must surface the token path: {rendered}");
    assert!(rendered.contains("TABBIFY_JOIN_TOKEN"), "401 must name the token env var: {rendered}");
    assert!(rendered.contains("join mesh as supervisor"), "the original context must be preserved: {rendered}");
    assert!(rendered.contains("join token invalid or revoked"), "{rendered}");

    let rendered = enrich_join_error("http status 500: coordinator boom", Some(500), "join mesh as supervisor");
    assert!(!rendered.contains("/etc/tabbify/supervisor.env"), "a 500 must NOT get the token guidance: {rendered}");
    assert!(rendered.contains("join mesh as supervisor"));
    assert!(rendered.contains("coordinator boom"), "{rendered}");
}

fn config(md: JoinMetadata, tags: &[String], relay: Option<&str>, relay_only: bool, endpoint: Option<&str>) -> JoinConfig {
    build_supervisor_join_config(
        "http://coord:8888",
        "node-1",
        tags,
        md,
        relay.map(str::to_owned),
        relay_only,
        endpoint.map(str::to_owned),
        None,
    )
}

#[test]
fn build_config_wires_software_version_onto_join_config() {
    let md = JoinMetadata { software_version: Some("1.4.0".to_owned()), ..Default::default() };
    let config = config(md, &[], None, false, None);
    assert_eq!(config.metadata.software_version.as_deref(), Some("1.4.0"));
    assert!(config.tags.contains(&"supervisor".to_owned()));
    assert_eq!(config.coordinator_url, "http://coord:8888");
    assert_eq!(config.display_name, "node-1");
}

#[test]
fn build_config_omits_absent_software_version() {
    let config = config(JoinMetadata::default(), &["firecracker".to_owned()], None, false, None);
    assert!(config.metadata.software_version.is_none());
    assert!(config.tags.contains(&"firecracker".to_owned()));
}

#[test]
fn build_config_wires_relay_url_onto_join_config() {
    let config = config(JoinMetadata::default(), &[], Some("wss://relay.tabbify.io/v1/mesh/relay"), false, None);
    assert_eq!(config.relay_url.as_deref(), Some("wss://relay.tabbify.io/v1/mesh/relay"));
}

#[test]
fn build_config_wires_relay_only_onto_join_config() {
    let config = config(JoinMetadata::default(), &[], None, true, None);
    assert!(config.relay_only, "relay_only=true must ride onto JoinConfig");
}

#[test]
fn build_config_omits_relay_only_when_false() {
    let config = config(JoinMetadata::default(), &[], None, false, None);
    assert!(!config.relay_only, "relay_only=false must keep direct + hole-punch traversal");
}

#[test]
fn build_config_sets_host_integration_for_host_daemon() {
    let config = config(JoinMetadata::default(), &[], None, false, None);
    assert!(config.manage_firewall, "supervisor must manage the firewall");
    assert!(!config.source_scoped_routes, "supervisor must keep main-table routes");
}

#[test]
fn build_config_wires_explicit_join_token() {
    let md = JoinMetadata { join_token: Some("infra-join-jwt".to_owned()), ..Default::default() };
    let config = config(md, &[], None, false, None);
    assert_eq!(config.metadata.join_token.as_deref(), Some("infra-join-jwt"));
}

#[test]
fn resolve_join_token_prefers_metadata_then_env() {
    assert_eq!(JOIN_TOKEN_ENV, "TABBIFY_JOIN_TOKEN");
    assert_eq!(resolve_join_token(None, None), None);
    assert_eq!(resolve_join_token(None, Some("env-token")).as_deref(), Some("env-token"));
    assert_eq!(resolve_join_token(Some("md-token".to_owned()), Some("env-token")).as_deref(), Some("md-token"));
    assert_eq!(resolve_join_token(None, Some("   ")), None);
}

#[test]
fn build_config_omits_absent_relay_url() {
    let config = config(JoinMetadata::default(), &[], None, false, None);
    assert!(config.relay_url.is_none(), "None relay_url must keep the default coordinator-derived relay");
}

#[test]
fn build_config_wires_advertise_endpoint_onto_join_config() {
    let config = config(JoinMetadata::default(), &[], None, false, Some("10.17.21.133:51820"));
    assert_eq!(config.advertise_endpoint.as_deref(), Some("10.17.21.133:51820"));
}

#[test]
fn build_config_omits_absent_advertise_endpoint() {
    let config = config(JoinMetadata::default(), &[], None, false, None);
    assert!(config.advertise_endpoint.is_none(), "None advertise_endpoint must keep reflexive-endpoint behavior");
}

#[test]
fn self_mint_is_on_unless_explicitly_disabled() {
    assert!(self_mint_enabled(None));
    assert!(self_mint_enabled(Some("")));
    assert!(self_mint_enabled(Some("1")));
    assert!(self_mint_enabled(Some("true")));
    for off in ["0", "false", "off", "no", "FALSE", " off "] {
        assert!(!self_mint_enabled(Some(off)), "{off} must disable self-mint");
    }
}

#[test]
fn endpoint_is_built_without_a_double_slash() {
    assert_eq!(renew_endpoint("https://api.tabbify.io/"), "https://api.tabbify.io/v1/mesh/renew-join-token");
    assert_eq!(renew_endpoint("https://api.tabbify.io"), "https://api.tabbify.io/v1/mesh/renew-join-token");
}

#[test]
fn the_token_is_read_from_the_response_tolerantly() {
    assert_eq!(
        token_from_response(r#"{"token":"jwt.abc","kind":"join","unknown":1}"#).unwrap(),
        "jwt.abc",
        "an added field must never break boot"
    );
    assert!(token_from_response("not json").is_err());
    assert!(token_from_response(r#"{"kind":"join"}"#).is_err());
    assert!(token_from_response(r#"{"token":""}"#).is_err(), "an empty token is a failure, not a token");
}

#[test]
fn a_successful_renewal_sends_the_secret_as_a_bearer() {
    let plan = self_minted_join_token(None, Some("tbf_renew_secret"), Some("http://edge")).unwrap();
    assert_eq!(plan.secret, "tbf_renew_secret");
    assert_eq!(plan.endpoint, "http://edge/v1/mesh/renew-join-token");
    let token = renew_once(200, r#"{"token":"fresh.jwt"}"#).unwrap();
    assert_eq!(token, "fresh.jwt");
}

#[test]
fn a_refusal_surfaces_the_upstream_reason() {
    let rendered = renew_once(401, r#"{"error":"credential revoked"}"#).unwrap_err().message();
    assert!(rendered.contains("401"), "{rendered}");
    assert!(rendered.contains("credential revoked"), "{rendered}");
}

#[test]
fn a_success_with_no_token_is_an_error() {
    assert!(matches!(renew_once(200, r#"{"ok":true}"#), Err(RenewFault::NoToken)));
}

#[test]
fn minting_is_bounded_and_says_why() {
    {
        let e = token_from_response("not json").unwrap_err();
        assert!(matches!(e, RenewFault::NotJson(_)));
        assert!(e.message().contains("expected ident"), "{}", e.message());
        assert!(!RenewFault::NoToken.message().is_empty());
    }
    {
        assert!(matches!(mint_step(true, 1), MintStep::Use));
        assert!(matches!(mint_step(false, 1), MintStep::Retry));
        assert!(matches!(mint_step(false, MAX_ATTEMPTS), MintStep::FallBack));
        assert!(self_minted_join_token(Some("off"), Some("s"), None).is_none());
        assert!(self_minted_join_token(None, None, None).is_none());
        assert_eq!(
            self_minted_join_token(None, Some("s"), None).unwrap().endpoint,
            "https://api.tabbify.io/v1/mesh/renew-join-token"
        );
    }
}

