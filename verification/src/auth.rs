//! The authentication handler: login-response classification and identity
//! extraction against the service-desk API.
//!
//! The handler owns the resolved base URL and the identity fields. The
//! HTTP exchange itself is the caller's: the handler builds the request
//! URL and payload, and is handed back the response status and body text.

use vstd::prelude::*;

use crate::config::AppSettings;
use crate::json::{json_of, obj_find, obj_get, obj_take, parse_json, JsonValue};
use crate::text::{contains_seq, str_contains, str_eq};

verus! {

/// The login request body.
#[derive(Debug)]
pub struct LoginPayload {
    pub user_name: String,
    pub password: String,
}

/// One (key, value, caption) triple from the API's flexible user-info list.
#[derive(Debug)]
pub struct UserInfoEntry {
    pub key: String,
    pub value: JsonValue,
    pub value_caption: Option<String>,
}

/// The user record of a successful login response.
#[derive(Debug)]
pub struct User {
    pub info: Vec<UserInfoEntry>,
}

/// A successful login response.
#[derive(Debug)]
pub struct LoginResponse {
    pub user: User,
}

/// An authentication failure.
#[derive(Debug)]
pub enum AuthError {
    /// A non-success response that does not ask for a manual login;
    /// carries the response body.
    AuthenticationFailed(String),
    /// A non-success response whose body shows the service wants an
    /// interactive browser login first; carries the response body.
    ManualLoginRequired(String),
    /// A transport failure; the caller that performs the exchange raises
    /// it, with a description.
    ReqwestError(String),
    /// A failure to read the response body; raised by the caller too.
    IoError(String),
    /// The success-path body is not valid JSON or does not have the login
    /// response shape.
    JsonParseError(String),
    /// The user-group id resolved to zero: the response carries no usable
    /// group.
    UserInfoMissing(String),
}

/// The user-info entry a JSON value describes, if it has the shape: `key`
/// must be a string, `value` may be anything, `valueCaption` may be
/// absent, null, or a string.
pub open spec fn entry_of(v: JsonValue) -> Option<UserInfoEntry> {
    match v {
        JsonValue::Object(pairs) => match (obj_get(pairs@, "key"@), obj_get(pairs@, "value"@)) {
            (Some(JsonValue::Text(k)), Some(val)) => match obj_get(pairs@, "valueCaption"@) {
                None => Some(UserInfoEntry { key: k, value: val, value_caption: None }),
                Some(JsonValue::Null) => Some(
                    UserInfoEntry { key: k, value: val, value_caption: None },
                ),
                Some(JsonValue::Text(c)) => Some(
                    UserInfoEntry { key: k, value: val, value_caption: Some(c) },
                ),
                Some(_) => None,
            },
            _ => None,
        },
        _ => None,
    }
}

/// The entries an array of JSON values describes: all must have the entry
/// shape.
pub open spec fn entries_of(items: Seq<JsonValue>) -> Option<Seq<UserInfoEntry>>
    decreases items.len(),
{
    if items.len() == 0 {
        Some(Seq::empty())
    } else {
        match (entries_of(items.drop_last()), entry_of(items.last())) {
            (Some(rest), Some(e)) => Some(rest.push(e)),
            _ => None,
        }
    }
}

/// The user-info entries a login-response document carries, if it has the
/// documented shape `{ "user": { "info": [ ... ] } }`.
pub open spec fn login_entries_of(doc: JsonValue) -> Option<Seq<UserInfoEntry>> {
    match doc {
        JsonValue::Object(pairs) => match obj_get(pairs@, "user"@) {
            Some(JsonValue::Object(upairs)) => match obj_get(upairs@, "info"@) {
                Some(JsonValue::Array(items)) => entries_of(items@),
                _ => None,
            },
            _ => None,
        },
        _ => None,
    }
}

/// An entry that does not decode poisons the whole list.
proof fn lemma_entries_none(s: Seq<JsonValue>, j: int)
    requires
        0 <= j < s.len(),
        entry_of(s[j]) is None,
    ensures
        entries_of(s) is None,
    decreases s.len(),
{
    if j < s.len() - 1 {
        assert(s.drop_last()[j] == s[j]);
        lemma_entries_none(s.drop_last(), j);
    }
}

fn decode_entry(v: JsonValue) -> (r: Option<UserInfoEntry>)
    ensures
        r == entry_of(v),
{
    match v {
        JsonValue::Object(mut pairs) => {
            proof {
                reveal_strlit("key");
                reveal_strlit("value");
                reveal_strlit("valueCaption");
                assert("key"@.len() == 3);
                assert("value"@.len() == 5);
                assert("valueCaption"@.len() == 12);
            }
            let k = obj_take(&mut pairs, "key");
            let val = obj_take(&mut pairs, "value");
            let cap = obj_take(&mut pairs, "valueCaption");
            match (k, val) {
                (Some(JsonValue::Text(k)), Some(val)) => match cap {
                    None => Some(UserInfoEntry { key: k, value: val, value_caption: None }),
                    Some(JsonValue::Null) => Some(
                        UserInfoEntry { key: k, value: val, value_caption: None },
                    ),
                    Some(JsonValue::Text(c)) => Some(
                        UserInfoEntry { key: k, value: val, value_caption: Some(c) },
                    ),
                    Some(_) => None,
                },
                _ => None,
            }
        },
        _ => None,
    }
}

fn decode_entries(items: &mut Vec<JsonValue>) -> (r: Option<Vec<UserInfoEntry>>)
    ensures
        match r {
            Some(es) => entries_of(old(items)@) == Some(es@),
            None => entries_of(old(items)@) is None,
        },
{
    let ghost orig = old(items)@;
    let mut out: Vec<UserInfoEntry> = Vec::new();
    while items.len() > 0
        invariant
            orig == old(items)@,
            out@.len() + items@.len() == orig.len(),
            items@ == orig.skip(out@.len() as int),
            entries_of(orig.take(out@.len() as int)) == Some(out@),
        decreases items@.len(),
    {
        let ghost k = out@.len() as int;
        let v = items.remove(0);
        proof {
            assert(v == orig[k]);
            assert(items@ =~= orig.skip(k + 1));
        }
        match decode_entry(v) {
            Some(e) => {
                out.push(e);
                proof {
                    assert(orig.take(k + 1).drop_last() =~= orig.take(k));
                    assert(orig.take(k + 1).last() == orig[k]);
                }
            },
            None => {
                proof {
                    lemma_entries_none(orig, k);
                }
                return None;
            },
        }
    }
    proof {
        assert(orig.take(orig.len() as int) =~= orig);
    }
    Some(out)
}

fn decode_login_response(doc: JsonValue) -> (r: Option<LoginResponse>)
    ensures
        match r {
            Some(resp) => login_entries_of(doc) == Some(resp.user.info@),
            None => login_entries_of(doc) is None,
        },
{
    match doc {
        JsonValue::Object(mut pairs) => match obj_take(&mut pairs, "user") {
            Some(JsonValue::Object(mut upairs)) => match obj_take(&mut upairs, "info") {
                Some(JsonValue::Array(mut items)) => match decode_entries(&mut items) {
                    Some(es) => Some(LoginResponse { user: User { info: es } }),
                    None => None,
                },
                _ => None,
            },
            _ => None,
        },
        _ => None,
    }
}

/// The value under `key` among the entries at positions below `i`, scanned
/// from the back: a later entry overwrites an earlier one, as a mapping
/// filled in order would have it.
pub open spec fn info_get_back(
    entries: Seq<UserInfoEntry>,
    key: Seq<char>,
    i: int,
) -> Option<JsonValue>
    decreases i,
{
    if i <= 0 || i > entries.len() {
        None
    } else if entries[i - 1].key@ == key {
        Some(entries[i - 1].value)
    } else {
        info_get_back(entries, key, i - 1)
    }
}

/// The value under `key` in the flattened info mapping.
pub open spec fn info_get(entries: Seq<UserInfoEntry>, key: Seq<char>) -> Option<JsonValue> {
    info_get_back(entries, key, entries.len() as int)
}

/// Looks `key` up among the info entries, the last entry winning.
pub fn info_find<'a>(entries: &'a Vec<UserInfoEntry>, key: &str) -> (r: Option<&'a JsonValue>)
    ensures
        match r {
            Some(v) => info_get(entries@, key@) == Some(*v),
            None => info_get(entries@, key@) is None,
        },
{
    let mut i: usize = entries.len();
    while i > 0
        invariant
            i <= entries@.len(),
            info_get(entries@, key@) == info_get_back(entries@, key@, i as int),
        decreases i,
    {
        i = i - 1;
        if str_eq(entries[i].key.as_str(), key) {
            return Some(&entries[i].value);
        }
    }
    None
}

/// The group id a response carries: `user_groups` must be an array whose
/// first element is an object with an unsigned `id`; any shape mismatch
/// yields 0.
pub open spec fn group_id_of(entries: Seq<UserInfoEntry>) -> u64 {
    match info_get(entries, "user_groups"@) {
        Some(JsonValue::Array(items)) => if items@.len() > 0 {
            match items@[0] {
                JsonValue::Object(pairs) => match obj_get(pairs@, "id"@) {
                    Some(JsonValue::UInt(n)) => n,
                    _ => 0,
                },
                _ => 0,
            }
        } else {
            0
        },
        _ => 0,
    }
}

/// The group id as stored: the low 32 bits of the extracted value.
pub open spec fn group_id32_of(entries: Seq<UserInfoEntry>) -> u32 {
    (group_id_of(entries) & 0xffff_ffff) as u32
}

/// The display name: `first_name` read as a string, else the fallback.
pub open spec fn name_of(entries: Seq<UserInfoEntry>) -> Seq<char> {
    match info_get(entries, "first_name"@) {
        Some(JsonValue::Text(s)) => s@,
        _ => "Nome não encontrado"@,
    }
}

/// The email address: `email_address` read as a string, else the fallback.
pub open spec fn email_of(entries: Seq<UserInfoEntry>) -> Seq<char> {
    match info_get(entries, "email_address"@) {
        Some(JsonValue::Text(s)) => s@,
        _ => "E-mail não encontrado"@,
    }
}

fn extract_group_id(info: &Vec<UserInfoEntry>) -> (g: u32)
    ensures
        g == group_id32_of(info@),
{
    let mut g64: u64 = 0;
    if let Some(v) = info_find(info, "user_groups") {
        if let JsonValue::Array(items) = v {
            if items.len() > 0 {
                if let JsonValue::Object(pairs) = &items[0] {
                    if let Some(idv) = obj_find(pairs, "id") {
                        if let JsonValue::UInt(n) = idv {
                            g64 = *n;
                        }
                    }
                }
            }
        }
    }
    proof {
        assert(g64 & 0xffff_ffff <= 0xffff_ffff) by (bit_vector);
    }
    (g64 & 0xffff_ffff) as u32
}

fn extract_name(info: &Vec<UserInfoEntry>) -> (s: String)
    ensures
        s@ == name_of(info@),
{
    if let Some(v) = info_find(info, "first_name") {
        if let JsonValue::Text(t) = v {
            return t.clone();
        }
    }
    String::from_str("Nome não encontrado")
}

fn extract_email(info: &Vec<UserInfoEntry>) -> (s: String)
    ensures
        s@ == email_of(info@),
{
    if let Some(v) = info_find(info, "email_address") {
        if let JsonValue::Text(t) = v {
            return t.clone();
        }
    }
    String::from_str("E-mail não encontrado")
}

/// What lowercasing a piece of text yields: the result of
/// `str::to_lowercase`, which depends on the characters alone.
pub uninterp spec fn lower_of(s: Seq<char>) -> Seq<char>;

/// Relies on `str::to_lowercase`: Unicode lowercasing, a function of the
/// characters of the input alone.
#[verifier::external_body]
fn lowercase(s: &str) -> (r: String)
    ensures
        r@ == lower_of(s@),
{
    s.to_lowercase()
}

/// Whether a lowercased failure body shows that the service wants a manual
/// browser login first: all three trigger phrases occur in it.
pub open spec fn manual_login_body(low: Seq<char>) -> bool {
    &&& contains_seq(low, "informações de acesso incorretas."@)
    &&& contains_seq(low, "as palavras devem ser escritas na caixa correta."@)
    &&& contains_seq(low, "certifique-se de que a tecla caps lock não esteja ligada."@)
}

/// Classifies a non-success response body, keeping the body in the error.
fn classify_failure(body: String) -> (r: AuthError)
    ensures
        r == if manual_login_body(lower_of(body@)) {
            AuthError::ManualLoginRequired(body)
        } else {
            AuthError::AuthenticationFailed(body)
        },
{
    let low = lowercase(body.as_str());
    let manual = str_contains(low.as_str(), "informações de acesso incorretas.")
        && str_contains(low.as_str(), "as palavras devem ser escritas na caixa correta.")
        && str_contains(low.as_str(), "certifique-se de que a tecla caps lock não esteja ligada.");
    if manual {
        AuthError::ManualLoginRequired(body)
    } else {
        AuthError::AuthenticationFailed(body)
    }
}

/// Manages authentication against the service desk: holds the settings,
/// the base URL resolved once at construction, and the identity fields
/// written only by a fully successful login.
pub struct AuthHandler {
    pub config: AppSettings,
    pub session_id: String,
    pub goc_session: String,
    pub user_group_id: u32,
    pub user_name: String,
    pub user_email: String,
    pub base_url: String,
}

impl AuthHandler {
    /// Binds a handler to settings. The base URL is the sandbox URL when
    /// the environment is "Sandbox", and the production URL for any other
    /// value; the identity fields start empty and zero.
    pub fn new(config: AppSettings) -> (h: AuthHandler)
        ensures
            h.base_url@ == if config.environment@ == "Sandbox"@ {
                config.service_desk.sandbox_url@
            } else {
                config.service_desk.production_url@
            },
            h.config == config,
            h.session_id@.len() == 0,
            h.goc_session@.len() == 0,
            h.user_group_id == 0,
            h.user_name@.len() == 0,
            h.user_email@.len() == 0,
    {
        let base_url = if str_eq(config.environment.as_str(), "Sandbox") {
            config.service_desk.sandbox_url.clone()
        } else {
            config.service_desk.production_url.clone()
        };
        AuthHandler {
            config,
            session_id: String::new(),
            goc_session: String::new(),
            user_group_id: 0,
            user_name: String::new(),
            user_email: String::new(),
            base_url,
        }
    }

    /// The login endpoint: the resolved base URL with the login route.
    pub fn login_url(&self) -> (r: String)
        ensures
            r@ == self.base_url@ + "/api/v1/login?user"@,
    {
        self.base_url.clone().concat("/api/v1/login?user")
    }

    /// The request body for a login attempt, from the configured
    /// service-desk credentials.
    pub fn login_payload(&self) -> (p: LoginPayload)
        ensures
            p.user_name@ == self.config.service_desk.username@,
            p.password@ == self.config.service_desk.password@,
    {
        LoginPayload {
            user_name: self.config.service_desk.username.clone(),
            password: self.config.service_desk.password.clone(),
        }
    }

    /// Settles a login attempt from the response: `status_success` is
    /// whether the HTTP status was a success, `body` the response body
    /// text. A non-success body carrying all three trigger phrases
    /// (case-insensitively) asks for a manual login; otherwise it is a
    /// plain authentication failure. A success body must parse and have
    /// the login shape, and must yield a non-zero group id; then, and only
    /// then, the identity fields are committed, all at once. On every
    /// failure the handler is left exactly as it was.
    pub fn login_service_desk(&mut self, status_success: bool, body: String) -> (r: Result<
        (),
        AuthError,
    >)
        ensures
            !status_success ==> *final(self) == *old(self) && r == Err::<(), AuthError>(
                if manual_login_body(lower_of(body@)) {
                    AuthError::ManualLoginRequired(body)
                } else {
                    AuthError::AuthenticationFailed(body)
                },
            ),
            status_success ==> match json_of(body@) {
                None => *final(self) == *old(self) && r matches Err(AuthError::JsonParseError(_)),
                Some(doc) => match login_entries_of(doc) {
                    None => *final(self) == *old(self) && (r matches Err(
                        AuthError::JsonParseError(d),
                    ) && d@ == "the response body does not have the login shape"@),
                    Some(entries) => if group_id32_of(entries) == 0 {
                        *final(self) == *old(self) && (r matches Err(
                            AuthError::UserInfoMissing(d),
                        ) && d@ == "Falha ao capturar o ID do Grupo de Atendimento."@)
                    } else {
                        &&& r == Ok::<(), AuthError>(())
                        &&& final(self).user_group_id == group_id32_of(entries)
                        &&& final(self).user_name@ == name_of(entries)
                        &&& final(self).user_email@ == email_of(entries)
                        &&& final(self).config == old(self).config
                        &&& final(self).base_url == old(self).base_url
                        &&& final(self).session_id == old(self).session_id
                        &&& final(self).goc_session == old(self).goc_session
                    },
                },
            },
    {
        if !status_success {
            return Err(classify_failure(body));
        }
        let doc = match parse_json(body.as_str()) {
            Ok(doc) => doc,
            Err(m) => {
                return Err(AuthError::JsonParseError(m));
            },
        };
        let resp = match decode_login_response(doc) {
            Some(resp) => resp,
            None => {
                return Err(
                    AuthError::JsonParseError(
                        String::from_str("the response body does not have the login shape"),
                    ),
                );
            },
        };
        let info = &resp.user.info;
        let gid = extract_group_id(info);
        if gid == 0 {
            return Err(
                AuthError::UserInfoMissing(
                    String::from_str("Falha ao capturar o ID do Grupo de Atendimento."),
                ),
            );
        }
        let name = extract_name(info);
        let email = extract_email(info);
        self.user_group_id = gid;
        self.user_name = name;
        self.user_email = email;
        Ok(())
    }
}

} // verus!
