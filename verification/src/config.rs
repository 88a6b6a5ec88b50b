//! Typed settings and their decoding from configuration JSON.
//!
//! The configuration document is an object with the keys `Environment`
//! (string), `ServiceDesk` (object with `SandboxUrl`, `ProductionUrl`,
//! `Username`, `Password`, `userID`, all strings) and `TopDesk` (object
//! with `BaseUrl`, `Username`, `Password`, all strings). All fields are
//! required; unknown members are ignored; nothing is defaulted.

use vstd::prelude::*;

use crate::json::{json_of, obj_get, obj_take, parse_json, JsonValue};

verus! {

/// Service-desk endpoint and credential settings.
#[derive(Debug, Clone)]
pub struct ServiceDeskConfig {
    pub sandbox_url: String,
    pub production_url: String,
    pub username: String,
    pub password: String,
    pub user_id: String,
}

/// Ticketing-system endpoint settings (configured, not yet used).
#[derive(Debug, Clone)]
pub struct TopDeskConfig {
    pub base_url: String,
    pub username: String,
    pub password: String,
}

/// The whole configuration document.
#[derive(Debug, Clone)]
pub struct AppSettings {
    pub environment: String,
    pub service_desk: ServiceDeskConfig,
    pub top_desk: TopDeskConfig,
}

/// A configuration failure.
#[derive(Debug)]
pub enum ConfigError {
    /// The configuration file could not be read. Decoding never produces
    /// this kind; it stands for the caller that does the reading.
    IoError(String),
    /// The text is not valid JSON, or a required field is missing or has
    /// the wrong shape.
    ParseError(String),
}

/// The member under `key`, which must be a string for the lookup to count.
pub open spec fn text_member(pairs: Seq<(String, JsonValue)>, key: Seq<char>) -> Option<String> {
    match obj_get(pairs, key) {
        Some(JsonValue::Text(s)) => Some(s),
        _ => None,
    }
}

/// The service-desk settings a JSON value describes, if it has the shape.
pub open spec fn service_desk_of(v: JsonValue) -> Option<ServiceDeskConfig> {
    match v {
        JsonValue::Object(pairs) => match (
            text_member(pairs@, "SandboxUrl"@),
            text_member(pairs@, "ProductionUrl"@),
            text_member(pairs@, "Username"@),
            text_member(pairs@, "Password"@),
            text_member(pairs@, "userID"@),
        ) {
            (Some(su), Some(pu), Some(un), Some(pw), Some(uid)) => Some(
                ServiceDeskConfig {
                    sandbox_url: su,
                    production_url: pu,
                    username: un,
                    password: pw,
                    user_id: uid,
                },
            ),
            _ => None,
        },
        _ => None,
    }
}

/// The ticketing-system settings a JSON value describes, if it has the shape.
pub open spec fn top_desk_of(v: JsonValue) -> Option<TopDeskConfig> {
    match v {
        JsonValue::Object(pairs) => match (
            text_member(pairs@, "BaseUrl"@),
            text_member(pairs@, "Username"@),
            text_member(pairs@, "Password"@),
        ) {
            (Some(bu), Some(un), Some(pw)) => Some(
                TopDeskConfig { base_url: bu, username: un, password: pw },
            ),
            _ => None,
        },
        _ => None,
    }
}

/// The settings a JSON document describes, if it matches the schema.
pub open spec fn settings_of(doc: JsonValue) -> Option<AppSettings> {
    match doc {
        JsonValue::Object(pairs) => match (
            text_member(pairs@, "Environment"@),
            obj_get(pairs@, "ServiceDesk"@),
            obj_get(pairs@, "TopDesk"@),
        ) {
            (Some(env), Some(sd), Some(td)) => match (service_desk_of(sd), top_desk_of(td)) {
                (Some(sdc), Some(tdc)) => Some(
                    AppSettings { environment: env, service_desk: sdc, top_desk: tdc },
                ),
                _ => None,
            },
            _ => None,
        },
        _ => None,
    }
}

fn decode_service_desk(v: JsonValue) -> (r: Option<ServiceDeskConfig>)
    ensures
        r == service_desk_of(v),
{
    match v {
        JsonValue::Object(mut pairs) => {
            proof {
                reveal_strlit("SandboxUrl");
                reveal_strlit("ProductionUrl");
                reveal_strlit("Username");
                reveal_strlit("Password");
                reveal_strlit("userID");
                assert("SandboxUrl"@.len() == 10);
                assert("ProductionUrl"@.len() == 13);
                assert("Username"@.len() == 8);
                assert("Password"@.len() == 8);
                assert("userID"@.len() == 6);
                assert("Password"@[0] == 'P' && "Username"@[0] == 'U');
            }
            let su = obj_take(&mut pairs, "SandboxUrl");
            let pu = obj_take(&mut pairs, "ProductionUrl");
            let un = obj_take(&mut pairs, "Username");
            let pw = obj_take(&mut pairs, "Password");
            let uid = obj_take(&mut pairs, "userID");
            match (su, pu, un, pw, uid) {
                (
                    Some(JsonValue::Text(su)),
                    Some(JsonValue::Text(pu)),
                    Some(JsonValue::Text(un)),
                    Some(JsonValue::Text(pw)),
                    Some(JsonValue::Text(uid)),
                ) => Some(
                    ServiceDeskConfig {
                        sandbox_url: su,
                        production_url: pu,
                        username: un,
                        password: pw,
                        user_id: uid,
                    },
                ),
                _ => None,
            }
        },
        _ => None,
    }
}

fn decode_top_desk(v: JsonValue) -> (r: Option<TopDeskConfig>)
    ensures
        r == top_desk_of(v),
{
    match v {
        JsonValue::Object(mut pairs) => {
            proof {
                reveal_strlit("BaseUrl");
                reveal_strlit("Username");
                reveal_strlit("Password");
                assert("BaseUrl"@.len() == 7);
                assert("Username"@.len() == 8);
                assert("Password"@.len() == 8);
                assert("Password"@[0] == 'P' && "Username"@[0] == 'U');
            }
            let bu = obj_take(&mut pairs, "BaseUrl");
            let un = obj_take(&mut pairs, "Username");
            let pw = obj_take(&mut pairs, "Password");
            match (bu, un, pw) {
                (
                    Some(JsonValue::Text(bu)),
                    Some(JsonValue::Text(un)),
                    Some(JsonValue::Text(pw)),
                ) => Some(TopDeskConfig { base_url: bu, username: un, password: pw }),
                _ => None,
            }
        },
        _ => None,
    }
}

fn decode_settings(doc: JsonValue) -> (r: Option<AppSettings>)
    ensures
        r == settings_of(doc),
{
    match doc {
        JsonValue::Object(mut pairs) => {
            proof {
                reveal_strlit("Environment");
                reveal_strlit("ServiceDesk");
                reveal_strlit("TopDesk");
                assert("Environment"@.len() == 11);
                assert("ServiceDesk"@.len() == 11);
                assert("TopDesk"@.len() == 7);
                assert("ServiceDesk"@[0] == 'S' && "Environment"@[0] == 'E');
            }
            let env = obj_take(&mut pairs, "Environment");
            let sd = obj_take(&mut pairs, "ServiceDesk");
            let td = obj_take(&mut pairs, "TopDesk");
            match (env, sd, td) {
                (Some(JsonValue::Text(env)), Some(sd), Some(td)) => match (
                    decode_service_desk(sd),
                    decode_top_desk(td),
                ) {
                    (Some(sdc), Some(tdc)) => Some(
                        AppSettings { environment: env, service_desk: sdc, top_desk: tdc },
                    ),
                    _ => None,
                },
                _ => None,
            }
        },
        _ => None,
    }
}

/// Decodes configuration JSON text into settings: the result is `Ok`
/// exactly when the text is valid JSON and matches the schema, and then
/// carries the document's strings verbatim.
pub fn load(json_text: &str) -> (r: Result<AppSettings, ConfigError>)
    ensures
        match json_of(json_text@) {
            Some(doc) => match settings_of(doc) {
                Some(s) => r == Ok::<AppSettings, ConfigError>(s),
                None => r matches Err(ConfigError::ParseError(_)),
            },
            None => r matches Err(ConfigError::ParseError(_)),
        },
{
    match parse_json(json_text) {
        Ok(doc) => match decode_settings(doc) {
            Some(s) => Ok(s),
            None => Err(
                ConfigError::ParseError(
                    String::from_str("the configuration does not match the expected schema"),
                ),
            ),
        },
        Err(m) => Err(ConfigError::ParseError(m)),
    }
}

/// Settings that decode from a document carry its strings verbatim: each
/// field is exactly the member under its documented key.
pub proof fn lemma_settings_verbatim(doc: JsonValue, s: AppSettings)
    requires
        settings_of(doc) == Some(s),
    ensures
        doc matches JsonValue::Object(pairs) && {
            &&& text_member(pairs@, "Environment"@) == Some(s.environment)
            &&& obj_get(pairs@, "ServiceDesk"@) matches Some(JsonValue::Object(sd)) && {
                &&& text_member(sd@, "SandboxUrl"@) == Some(s.service_desk.sandbox_url)
                &&& text_member(sd@, "ProductionUrl"@) == Some(s.service_desk.production_url)
                &&& text_member(sd@, "Username"@) == Some(s.service_desk.username)
                &&& text_member(sd@, "Password"@) == Some(s.service_desk.password)
                &&& text_member(sd@, "userID"@) == Some(s.service_desk.user_id)
            }
            &&& obj_get(pairs@, "TopDesk"@) matches Some(JsonValue::Object(td)) && {
                &&& text_member(td@, "BaseUrl"@) == Some(s.top_desk.base_url)
                &&& text_member(td@, "Username"@) == Some(s.top_desk.username)
                &&& text_member(td@, "Password"@) == Some(s.top_desk.password)
            }
        },
{
}

/// A document that has every documented member in place decodes: `load`
/// owes success on it.
pub proof fn lemma_settings_complete(doc: JsonValue)
    requires
        doc matches JsonValue::Object(pairs) && {
            &&& text_member(pairs@, "Environment"@) is Some
            &&& obj_get(pairs@, "ServiceDesk"@) matches Some(sd) && service_desk_of(sd) is Some
            &&& obj_get(pairs@, "TopDesk"@) matches Some(td) && top_desk_of(td) is Some
        },
    ensures
        settings_of(doc) is Some,
{
}

} // verus!
