use service_desk_auth::auth::{AuthError, AuthHandler};
use service_desk_auth::config::{AppSettings, ServiceDeskConfig, TopDeskConfig};

fn settings(environment: &str) -> AppSettings {
    AppSettings {
        environment: environment.to_string(),
        service_desk: ServiceDeskConfig {
            sandbox_url: "https://sandbox.example".to_string(),
            production_url: "https://prod.example".to_string(),
            username: "desk-user".to_string(),
            password: "desk-pass".to_string(),
            user_id: "1234".to_string(),
        },
        top_desk: TopDeskConfig {
            base_url: "https://topdesk.example".to_string(),
            username: "td-user".to_string(),
            password: "td-pass".to_string(),
        },
    }
}

#[test]
fn sandbox_environment_resolves_sandbox_url() {
    let h = AuthHandler::new(settings("Sandbox"));
    assert_eq!(h.base_url, "https://sandbox.example");
    assert_eq!(h.login_url(), "https://sandbox.example/api/v1/login?user");
}

#[test]
fn other_environment_resolves_production_url() {
    let h = AuthHandler::new(settings("Production"));
    assert_eq!(h.base_url, "https://prod.example");
    let h2 = AuthHandler::new(settings("sandbox"));
    assert_eq!(h2.base_url, "https://prod.example");
}

#[test]
fn new_handler_starts_unauthenticated() {
    let h = AuthHandler::new(settings("Sandbox"));
    assert_eq!(h.user_group_id, 0);
    assert_eq!(h.user_name, "");
    assert_eq!(h.user_email, "");
    assert_eq!(h.session_id, "");
    assert_eq!(h.goc_session, "");
}

#[test]
fn login_payload_carries_configured_credentials() {
    let h = AuthHandler::new(settings("Sandbox"));
    let p = h.login_payload();
    assert_eq!(p.user_name, "desk-user");
    assert_eq!(p.password, "desk-pass");
}

fn success_body(entries: &str) -> String {
    format!("{{\"user\": {{\"info\": [{}]}}}}", entries)
}

const GROUP_42: &str = "{\"key\": \"user_groups\", \"value\": [{\"id\": 42}]}";
const NAME_ANA: &str = "{\"key\": \"first_name\", \"value\": \"Ana\"}";
const EMAIL_ANA: &str = "{\"key\": \"email_address\", \"value\": \"ana@x.com\"}";

#[test]
fn login_success_commits_identity_fields() {
    let mut h = AuthHandler::new(settings("Sandbox"));
    let body = success_body(&format!("{}, {}, {}", GROUP_42, NAME_ANA, EMAIL_ANA));
    let r = h.login_service_desk(true, body);
    assert!(r.is_ok());
    assert_eq!(h.user_group_id, 42);
    assert_eq!(h.user_name, "Ana");
    assert_eq!(h.user_email, "ana@x.com");
    assert_eq!(h.session_id, "");
    assert_eq!(h.goc_session, "");
}

#[test]
fn login_without_user_groups_is_missing_info() {
    let mut h = AuthHandler::new(settings("Sandbox"));
    let body = success_body(&format!("{}, {}", NAME_ANA, EMAIL_ANA));
    let r = h.login_service_desk(true, body);
    assert!(matches!(r, Err(AuthError::UserInfoMissing(_))));
    assert_eq!(h.user_group_id, 0);
    assert_eq!(h.user_name, "");
    assert_eq!(h.user_email, "");
}

#[test]
fn login_with_empty_user_groups_is_missing_info() {
    let mut h = AuthHandler::new(settings("Sandbox"));
    let body = success_body("{\"key\": \"user_groups\", \"value\": []}");
    let r = h.login_service_desk(true, body);
    assert!(matches!(r, Err(AuthError::UserInfoMissing(_))));
    assert_eq!(h.user_group_id, 0);
}

#[test]
fn login_with_non_integer_group_id_is_missing_info() {
    let mut h = AuthHandler::new(settings("Sandbox"));
    let body = success_body("{\"key\": \"user_groups\", \"value\": [{\"id\": \"x\"}]}");
    assert!(matches!(
        h.login_service_desk(true, body),
        Err(AuthError::UserInfoMissing(_))
    ));
    let body = success_body("{\"key\": \"user_groups\", \"value\": [{\"id\": 1.5}]}");
    assert!(matches!(
        h.login_service_desk(true, body),
        Err(AuthError::UserInfoMissing(_))
    ));
}

#[test]
fn login_without_first_name_uses_fallback() {
    let mut h = AuthHandler::new(settings("Sandbox"));
    let body = success_body(&format!("{}, {}", GROUP_42, EMAIL_ANA));
    let r = h.login_service_desk(true, body);
    assert!(r.is_ok());
    assert_eq!(h.user_group_id, 42);
    assert_eq!(h.user_name, "Nome não encontrado");
    assert_eq!(h.user_email, "ana@x.com");
}

#[test]
fn login_without_email_uses_fallback() {
    let mut h = AuthHandler::new(settings("Sandbox"));
    let body = success_body(&format!("{}, {}", GROUP_42, NAME_ANA));
    let r = h.login_service_desk(true, body);
    assert!(r.is_ok());
    assert_eq!(h.user_email, "E-mail não encontrado");
}

#[test]
fn later_entry_overwrites_earlier_one() {
    let mut h = AuthHandler::new(settings("Sandbox"));
    let body = success_body(&format!(
        "{}, {{\"key\": \"first_name\", \"value\": \"A\"}}, {{\"key\": \"first_name\", \"value\": \"B\"}}",
        GROUP_42
    ));
    let r = h.login_service_desk(true, body);
    assert!(r.is_ok());
    assert_eq!(h.user_name, "B");
}

#[test]
fn group_id_is_truncated_to_32_bits() {
    let mut h = AuthHandler::new(settings("Sandbox"));
    let body = success_body("{\"key\": \"user_groups\", \"value\": [{\"id\": 4294967296}]}");
    assert!(matches!(
        h.login_service_desk(true, body),
        Err(AuthError::UserInfoMissing(_))
    ));
    let body = success_body("{\"key\": \"user_groups\", \"value\": [{\"id\": 4294967297}]}");
    assert!(h.login_service_desk(true, body).is_ok());
    assert_eq!(h.user_group_id, 1);
}

#[test]
fn entry_caption_may_be_absent_null_or_string() {
    let mut h = AuthHandler::new(settings("Sandbox"));
    let body = success_body(
        "{\"key\": \"user_groups\", \"value\": [{\"id\": 9}], \"valueCaption\": null}, \
         {\"key\": \"first_name\", \"value\": \"Ana\", \"valueCaption\": \"Ana\"}",
    );
    let r = h.login_service_desk(true, body);
    assert!(r.is_ok());
    assert_eq!(h.user_group_id, 9);
}

#[test]
fn entry_with_non_string_caption_is_a_parse_error() {
    let mut h = AuthHandler::new(settings("Sandbox"));
    let body = success_body("{\"key\": \"user_groups\", \"value\": [{\"id\": 9}], \"valueCaption\": 7}");
    let r = h.login_service_desk(true, body);
    assert!(matches!(r, Err(AuthError::JsonParseError(_))));
    assert_eq!(h.user_group_id, 0);
}

#[test]
fn login_with_invalid_json_body_is_a_parse_error() {
    let mut h = AuthHandler::new(settings("Sandbox"));
    let r = h.login_service_desk(true, "not json at all".to_string());
    assert!(matches!(r, Err(AuthError::JsonParseError(_))));
    assert_eq!(h.user_group_id, 0);
    assert_eq!(h.user_name, "");
}

#[test]
fn login_with_wrong_shape_is_a_parse_error() {
    let mut h = AuthHandler::new(settings("Sandbox"));
    let r = h.login_service_desk(true, "{\"user\": {}}".to_string());
    assert!(matches!(r, Err(AuthError::JsonParseError(_))));
    let r = h.login_service_desk(true, "{\"user\": {\"info\": [\"bare\"]}}".to_string());
    assert!(matches!(r, Err(AuthError::JsonParseError(_))));
}

const PHRASE_ACCESS: &str = "Informações de acesso incorretas.";
const PHRASE_CASE: &str = "As palavras devem ser escritas na caixa correta.";
const PHRASE_CAPS: &str = "Certifique-se de que a tecla CAPS LOCK não esteja ligada.";

#[test]
fn failure_with_all_three_phrases_requires_manual_login() {
    let mut h = AuthHandler::new(settings("Sandbox"));
    let body = format!("erro: {} {} {}", PHRASE_ACCESS, PHRASE_CASE, PHRASE_CAPS);
    let r = h.login_service_desk(false, body.clone());
    match r {
        Err(AuthError::ManualLoginRequired(d)) => assert_eq!(d, body),
        other => panic!("expected ManualLoginRequired, got {:?}", other),
    }
    assert_eq!(h.user_group_id, 0);
    assert_eq!(h.user_name, "");
}

#[test]
fn failure_missing_a_phrase_is_generic() {
    let mut h = AuthHandler::new(settings("Sandbox"));
    let body = format!("erro: {} {}", PHRASE_ACCESS, PHRASE_CASE);
    let r = h.login_service_desk(false, body.clone());
    match r {
        Err(AuthError::AuthenticationFailed(d)) => assert_eq!(d, body),
        other => panic!("expected AuthenticationFailed, got {:?}", other),
    }
}

#[test]
fn failure_with_plain_body_is_generic() {
    let mut h = AuthHandler::new(settings("Sandbox"));
    let r = h.login_service_desk(false, "401 Unauthorized".to_string());
    assert!(matches!(r, Err(AuthError::AuthenticationFailed(_))));
}
