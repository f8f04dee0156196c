//! Signing in: asking for a code, checking it and the cloud password,
//! registering, and logging in again with the synchronisation markers.
use vstd::prelude::*;
use vstd::string::StrSliceExecFns;
use crate::api::{Request, eq_ignore_ascii_case, eq_ignore_ascii_case_spec};
use crate::errors::Error;
use crate::json::{
    Json, JsonValue, insert_opt, opt_json, json_get, json_get_str, json_as_i64, members_of,
};

verus! {

/// The synchronisation markers of a session: when chats, contacts, drafts
/// and presence were last synchronised (-1 for never), and the hash of the
/// configuration the client holds.
#[derive(Debug)]
pub struct SyncState {
    pub chats_sync: i64,
    pub contacts_sync: i64,
    pub drafts_sync: i64,
    pub presence_sync: i64,
    pub config_hash: Option<JsonValue>,
}

impl Default for SyncState {
    fn default() -> (res: Self)
        ensures
            res.chats_sync == -1,
            res.contacts_sync == -1,
            res.drafts_sync == -1,
            res.presence_sync == -1,
            res.config_hash is None,
    {
        SyncState { chats_sync: -1, contacts_sync: -1, drafts_sync: -1, presence_sync: -1, config_hash: None }
    }
}

/// Which parts of the account a second login step should bring.
#[derive(Debug, Clone, Copy, PartialEq, Eq, Structural)]
pub struct Login2Flags {
    pub config_enabled: bool,
    pub contact_enabled: bool,
    pub profile_enabled: bool,
}

impl Default for Login2Flags {
    fn default() -> (res: Self)
        ensures
            !res.config_enabled,
            !res.contact_enabled,
            !res.profile_enabled,
    {
        Login2Flags { config_enabled: false, contact_enabled: false, profile_enabled: false }
    }
}

/// A flag read from a member of an object: false when absent, its value
/// when a boolean, an error (nothing) otherwise.
pub open spec fn flag_member(m: Map<Seq<char>, Json>, key: Seq<char>) -> Option<bool> {
    if !m.contains_key(key) {
        Some(false)
    } else {
        match m[key] {
            Json::Bool(b) => Some(b),
            _ => None,
        }
    }
}

/// A flag read from an item of an array: false when absent, its value when
/// a boolean, an error (nothing) otherwise.
pub open spec fn flag_item(items: Seq<Json>, i: int) -> Option<bool> {
    if i >= items.len() {
        Some(false)
    } else {
        match items[i] {
            Json::Bool(b) => Some(b),
            _ => None,
        }
    }
}

/// The flags that a JSON value describes, read as the deserialiser of the
/// protocol reads them (an object with the camel-case names, or an array of
/// at most three flags in order, a missing flag being false), and all false
/// when it describes none.
pub open spec fn login2_flags_of(j: Json) -> (bool, bool, bool) {
    match j {
        Json::Object(m) => match (
            flag_member(m, "configEnabled"@),
            flag_member(m, "contactEnabled"@),
            flag_member(m, "profileEnabled"@),
        ) {
            (Some(a), Some(b), Some(c)) => (a, b, c),
            _ => (false, false, false),
        },
        Json::Array(items) => if items.len() > 3 {
            (false, false, false)
        } else {
            match (flag_item(items, 0), flag_item(items, 1), flag_item(items, 2)) {
                (Some(a), Some(b), Some(c)) => (a, b, c),
                _ => (false, false, false),
            }
        },
        _ => (false, false, false),
    }
}

fn read_flag(v: Option<&JsonValue>) -> (res: Option<bool>)
    ensures
        res == match v {
            Some(j) => match j@ {
                Json::Bool(b) => Some(b),
                _ => None,
            },
            None => Some(false),
        },
{
    match v {
        Some(JsonValue::Bool(b)) => Some(*b),
        Some(_) => None,
        None => Some(false),
    }
}

impl Login2Flags {
    /// The flags that `v` describes; all false when it describes none.
    pub fn from_json(v: &JsonValue) -> (res: Login2Flags)
        ensures
            (res.config_enabled, res.contact_enabled, res.profile_enabled) == login2_flags_of(v@),
    {
        match v {
            JsonValue::Object(_) => {
                let a = read_flag(v.get("configEnabled"));
                let b = read_flag(v.get("contactEnabled"));
                let c = read_flag(v.get("profileEnabled"));
                match (a, b, c) {
                    (Some(a), Some(b), Some(c)) => Login2Flags {
                        config_enabled: a,
                        contact_enabled: b,
                        profile_enabled: c,
                    },
                    _ => Login2Flags::default(),
                }
            },
            JsonValue::Array(items) => {
                proof {
                    crate::json::lemma_items_view(items@);
                }
                if items.len() > 3 {
                    return Login2Flags::default();
                }
                let a = if items.len() > 0 {
                    read_flag(Some(&items[0]))
                } else {
                    Some(false)
                };
                let b = if items.len() > 1 {
                    read_flag(Some(&items[1]))
                } else {
                    Some(false)
                };
                let c = if items.len() > 2 {
                    read_flag(Some(&items[2]))
                } else {
                    Some(false)
                };
                match (a, b, c) {
                    (Some(a), Some(b), Some(c)) => Login2Flags {
                        config_enabled: a,
                        contact_enabled: b,
                        profile_enabled: c,
                    },
                    _ => Login2Flags::default(),
                }
            },
            _ => Login2Flags::default(),
        }
    }

    /// Whether the second login step is needed: some flag is set.
    pub fn any(&self) -> (res: bool)
        ensures
            res == (self.config_enabled || self.contact_enabled || self.profile_enabled),
    {
        self.config_enabled || self.contact_enabled || self.profile_enabled
    }
}

/// Whether the client presents itself as the web client.
pub fn is_web_device(device_type: &str) -> (res: bool)
    ensures
        res == eq_ignore_ascii_case_spec(device_type@, "web"@),
{
    eq_ignore_ascii_case(device_type, "web")
}

/// The application version that the fingerprint is computed for: the
/// client's, or 2.25.0 when it names none.
pub open spec fn effective_app_version(app_version: Seq<char>) -> Seq<char> {
    if app_version.len() == 0 {
        "2.25.0"@
    } else {
        app_version
    }
}

/// What a sign-in needs before it can be sent: nothing for the web client; a
/// fingerprint of the given application version with the given seed for a
/// mobile client.
#[derive(Debug)]
pub enum FingerprintPlan {
    NotNeeded,
    Needed { app_version: String, seed: i64 },
}

/// Whether `res` is the plan for a client of type `device_type` and
/// version `app_version` with the seed `calls_seed` of the handshake:
/// nothing for the web client; for a mobile client the fingerprint of its
/// version (2.25.0 when it names none) with the seed, or an error without
/// a seed.
pub open spec fn is_fingerprint_plan(
    res: Result<FingerprintPlan, Error>,
    device_type: Seq<char>,
    app_version: Seq<char>,
    calls_seed: Option<i64>,
) -> bool {
    if eq_ignore_ascii_case_spec(device_type, "web"@) {
        res matches Ok(FingerprintPlan::NotNeeded)
    } else {
        match calls_seed {
            Some(seed) => match res {
                Ok(FingerprintPlan::Needed { app_version: v, seed: s }) => v@ == effective_app_version(app_version)
                    && s == seed,
                _ => false,
            },
            None => match res {
                Err(Error::ConnectionFailed(m)) => m@ == "handshake_response.calls_seed is missing"@,
                _ => false,
            },
        }
    }
}

/// The plan for a client of type `device_type` and version `app_version`
/// with the seed of the handshake: a mobile client needs the seed, and is
/// refused without it.
pub fn fingerprint_plan(device_type: &str, app_version: &str, calls_seed: Option<i64>) -> (res: Result<
    FingerprintPlan,
    Error,
>)
    ensures
        is_fingerprint_plan(res, device_type@, app_version@, calls_seed),
{
    if is_web_device(device_type) {
        return Ok(FingerprintPlan::NotNeeded);
    }
    let seed = match calls_seed {
        Some(s) => s,
        None => return Err(Error::ConnectionFailed("handshake_response.calls_seed is missing".to_owned())),
    };
    let v = if app_version.unicode_len() == 0 {
        "2.25.0".to_owned()
    } else {
        app_version.to_owned()
    };
    Ok(FingerprintPlan::Needed { app_version: v, seed })
}

/// A sign-in needs a connection that has completed its handshake.
pub fn require_handshake(is_connected: bool, has_identity: bool) -> (res: Result<(), Error>)
    ensures
        is_connected && has_identity ==> res is Ok,
        !(is_connected && has_identity) ==> match res {
            Err(Error::ConnectionFailed(m)) => m@ == "No handshake response available for request_code"@,
            _ => false,
        },
{
    if !is_connected || !has_identity {
        return Err(Error::ConnectionFailed("No handshake response available for request_code".to_owned()));
    }
    Ok(())
}

/// The checks of a sign-in before its build is looked up, in order: the
/// connection must have completed its handshake and know the device (its
/// type and application version, `device`); then the device's plan.
pub fn start_auth_plan(is_connected: bool, device: Option<(&str, &str)>, calls_seed: Option<i64>) -> (res: Result<
    FingerprintPlan,
    Error,
>)
    ensures
        match device {
            Some((t, v)) => if is_connected {
                is_fingerprint_plan(res, t@, v@, calls_seed)
            } else {
                res matches Err(Error::ConnectionFailed(m)) && m@ == "No handshake response available for request_code"@
            },
            None => res matches Err(Error::ConnectionFailed(m)) && m@
                == "No handshake response available for request_code"@,
        },
{
    match require_handshake(is_connected, device.is_some()) {
        Ok(()) => {},
        Err(e) => return Err(e),
    }
    match device {
        Some((t, v)) => fingerprint_plan(t, v, calls_seed),
        None => Err(Error::ConnectionFailed("No handshake response available for request_code".to_owned())),
    }
}

/// The error of a sign-in whose application version has no known build.
pub fn missing_fingerprint_error() -> (res: Error)
    ensures
        res matches Error::ConnectionFailed(m) && m@ == "fingerprint_generator is missing and DeviceType != WEB"@,
{
    Error::ConnectionFailed("fingerprint_generator is missing and DeviceType != WEB".to_owned())
}

/// The payload of [`start_auth`].
pub open spec fn start_auth_payload(phone: String, mode: Option<Vec<u8>>) -> Json {
    Json::Object(
        insert_opt(
            map!["phone"@ => Json::Str(phone@), "type"@ => Json::Str("START_AUTH"@)],
            "mode"@,
            match mode {
                Some(m) => Some(Json::Array(Seq::new(m@.len(), |i: int| Json::Int(m@[i] as int)))),
                None => None,
            },
        ),
    )
}

/// Asking for a sign-in code for `phone`, with the build fingerprint of a
/// mobile client as `mode`.
pub fn start_auth(phone: String, mode: Option<Vec<u8>>) -> (res: Request)
    ensures
        res.opcode == 17,
        res.payload@ == start_auth_payload(phone, mode),
{
    let m = match mode {
        Some(bytes) => Some(JsonValue::from_bytes(&bytes)),
        None => None,
    };
    let p = JsonValue::object().with("phone", JsonValue::from_string(phone)).with(
        "type",
        JsonValue::from_str("START_AUTH"),
    ).with_opt("mode", m);
    Request { opcode: 17, payload: p }
}

/// The string `token` of an answer.
pub fn response_token(payload: &JsonValue) -> (res: Option<String>)
    ensures
        match res {
            Some(t) => json_get_str(payload@, "token"@) == Some(t@),
            None => json_get_str(payload@, "token"@) is None,
        },
{
    match payload.get("token") {
        Some(t) => match t.as_str() {
            Some(s) => Some(s.to_owned()),
            None => None,
        },
        None => None,
    }
}

/// The payload that checks the sign-in `code` with the temporary token
/// `token`.
pub open spec fn check_code_payload(token: Seq<char>, code: Seq<char>) -> Json {
    Json::Object(
        map![
            "token"@ => Json::Str(token),
            "verifyCode"@ => Json::Str(code),
            "authTokenType"@ => Json::Str("CHECK_CODE"@),
        ],
    )
}

/// Checking the sign-in `code` with the temporary token of the sign-in; an
/// error when there is no such token.
pub fn check_code(temp_token: Option<String>, code: String) -> (res: Result<Request, Error>)
    ensures
        match temp_token {
            Some(t) => match res {
                Ok(r) => r.opcode == 18 && r.payload@ == check_code_payload(t@, code@),
                Err(_) => false,
            },
            None => match res {
                Err(Error::Other(m)) => m@ == "No temporary token found"@,
                _ => false,
            },
        },
{
    let token = match temp_token {
        Some(t) => t,
        None => return Err(Error::from("No temporary token found".to_owned())),
    };
    let p = JsonValue::object().with("token", JsonValue::from_string(token)).with(
        "verifyCode",
        JsonValue::from_string(code),
    ).with("authTokenType", JsonValue::from_str("CHECK_CODE"));
    Ok(Request { opcode: 18, payload: p })
}

/// The token of kind `kind` among the `tokenAttrs` of an answer.
pub open spec fn token_attr(payload: Json, kind: Seq<char>) -> Option<Seq<char>> {
    match json_get(payload, "tokenAttrs"@) {
        Some(attrs) => if attrs is Object {
            match json_get(attrs, kind) {
                Some(entry) => json_get_str(entry, "token"@),
                None => None,
            }
        } else {
            None
        },
        None => None,
    }
}

fn token_attr_exec(payload: &JsonValue, kind: &str) -> (res: Option<String>)
    ensures
        match res {
            Some(t) => token_attr(payload@, kind@) == Some(t@),
            None => token_attr(payload@, kind@) is None,
        },
{
    match payload.get("tokenAttrs") {
        Some(attrs) => {
            if !attrs.is_object() {
                return None;
            }
            match attrs.get(kind) {
                Some(entry) => response_token(entry),
                None => None,
            }
        },
        None => None,
    }
}

/// The tokens that an answer hands out.
#[derive(Debug)]
pub struct TokenUpdate {
    /// The temporary token to keep for a registration.
    pub temp_token: Option<String>,
    /// The session token to keep.
    pub token: Option<String>,
}

/// The tokens that the answer to a code check hands out: a registration
/// token becomes the temporary token, a login token the session token.
pub fn check_code_tokens(payload: &JsonValue) -> (res: TokenUpdate)
    ensures
        crate::models::keyboard::opt_view(res.temp_token) == token_attr(payload@, "REGISTER"@),
        crate::models::keyboard::opt_view(res.token) == token_attr(payload@, "LOGIN"@),
{
    TokenUpdate { temp_token: token_attr_exec(payload, "REGISTER"), token: token_attr_exec(payload, "LOGIN") }
}

/// The payload of [`check_password`].
pub open spec fn check_password_payload(password: String, track_id: String) -> Json {
    Json::Object(map!["password"@ => Json::Str(password@), "trackId"@ => Json::Str(track_id@)])
}

/// Checking the cloud password of the sign-in `track_id`.
pub fn check_password(password: String, track_id: String) -> (res: Request)
    ensures
        res.opcode == 115,
        res.payload@ == check_password_payload(password, track_id),
{
    let p = JsonValue::object().with("password", JsonValue::from_string(password)).with(
        "trackId",
        JsonValue::from_string(track_id),
    );
    Request { opcode: 115, payload: p }
}

/// The session token that the answer to a password check hands out.
pub fn check_password_token(payload: &JsonValue) -> (res: Option<String>)
    ensures
        crate::models::keyboard::opt_view(res) == token_attr(payload@, "LOGIN"@),
{
    token_attr_exec(payload, "LOGIN")
}

/// The payload of [`submit_register`].
pub open spec fn submit_register_payload(first_name: String, last_name: Option<String>) -> Json {
    Json::Object(
        map![
            "firstName"@ => Json::Str(first_name@),
            "lastName"@ => match last_name {
                Some(l) => Json::Str(l@),
                None => Json::Null,
            },
            "photoId"@ => Json::Int(2981369),
            "avatarType"@ => Json::Str("PRESET_AVATAR"@),
            "tokenType"@ => Json::Str("REGISTER"@),
        ],
    )
}

/// Registering the account with a name and the preset avatar.
pub fn submit_register(first_name: String, last_name: Option<String>) -> (res: Request)
    ensures
        res.opcode == 23,
        res.payload@ == submit_register_payload(first_name, last_name),
{
    let last = match last_name {
        Some(l) => JsonValue::from_string(l),
        None => JsonValue::null(),
    };
    let p = JsonValue::object().with("firstName", JsonValue::from_string(first_name)).with("lastName", last).with(
        "photoId",
        JsonValue::from_i64(2981369),
    ).with("avatarType", JsonValue::from_str("PRESET_AVATAR")).with("tokenType", JsonValue::from_str("REGISTER"));
    Request { opcode: 23, payload: p }
}

/// A login needs a session token and an identity: the token, or the error
/// for what is missing (the token is checked first).
pub fn sync_credentials(token: Option<String>, has_identity: bool) -> (res: Result<String, Error>)
    ensures
        match token {
            Some(t) => if has_identity {
                res matches Ok(r) && r@ == t@
            } else {
                res matches Err(Error::ConnectionFailed(m)) && m@ == "No identity set"@
            },
            None => res matches Err(Error::ConnectionFailed(m)) && m@ == "No token set"@,
        },
{
    let t = match token {
        Some(t) => t,
        None => return Err(Error::ConnectionFailed("No token set".to_owned())),
    };
    if !has_identity {
        return Err(Error::ConnectionFailed("No identity set".to_owned()));
    }
    Ok(t)
}

/// The checks of a login before its build is looked up, in order: a
/// session token, then the device (its type and application version,
/// `device`), then the device's plan. Gives the token and the plan.
pub fn sync_plan(token: Option<String>, device: Option<(&str, &str)>, calls_seed: Option<i64>) -> (res: Result<
    (String, FingerprintPlan),
    Error,
>)
    ensures
        match token {
            None => res matches Err(Error::ConnectionFailed(m)) && m@ == "No token set"@,
            Some(tk) => match device {
                None => res matches Err(Error::ConnectionFailed(m)) && m@ == "No identity set"@,
                Some((t, v)) => is_fingerprint_plan(
                    match res {
                        Ok((_, p)) => Ok(p),
                        Err(e) => Err(e),
                    },
                    t@,
                    v@,
                    calls_seed,
                ) && (res matches Ok((r, _)) ==> r@ == tk@),
            },
        },
{
    let tk = match sync_credentials(token, device.is_some()) {
        Ok(t) => t,
        Err(e) => return Err(e),
    };
    match device {
        Some((t, v)) => match fingerprint_plan(t, v, calls_seed) {
            Ok(p) => Ok((tk, p)),
            Err(e) => Err(e),
        },
        None => Err(Error::ConnectionFailed("No identity set".to_owned())),
    }
}

/// The error of a login whose application version has no known build.
pub fn sync_version_error(app_version: &str) -> (res: Error)
    ensures
        res matches Error::ConnectionFailed(m) && m@ == "Версия "@ + app_version@ + " не найдена"@,
{
    let mut m = crate::text::concat("Версия ", app_version);
    m = crate::text::concat(m.as_str(), " не найдена");
    Error::ConnectionFailed(m)
}

/// The configuration hash a client that holds none presents.
pub open spec fn default_config_hash() -> Seq<char> {
    "00000000-0000000000000000-00000000-0000000000000000-0000000000000000-0-0000000000000000-00000000"@
}

/// The payload of a login with the markers of `state`.
pub open spec fn sync_payload(state: SyncState, token: Seq<char>, user_agent: Json, fingerprint: Option<Seq<u8>>) -> Json {
    Json::Object(
        insert_opt(
            map![
                "userAgent"@ => user_agent,
                "interactive"@ => Json::Bool(true),
                "token"@ => Json::Str(token),
                "chatsSync"@ => Json::Int(state.chats_sync as int),
                "contactsSync"@ => Json::Int(state.contacts_sync as int),
                "presenceSync"@ => Json::Int(state.presence_sync as int),
                "draftsSync"@ => Json::Int(state.drafts_sync as int),
                "exp"@ => Json::Object(map!["chatsCountGroups"@ => Json::Array(seq![Json::Int(10), Json::Int(50)])]),
            ],
            "chatCacheFingerprint"@,
            match fingerprint {
                Some(f) => Some(Json::Array(Seq::new(f.len(), |i: int| Json::Int(f[i] as int)))),
                None => None,
            },
        ).insert(
            "configHash"@,
            match state.config_hash {
                Some(h) => h@,
                None => Json::Str(default_config_hash()),
            },
        ),
    )
}

/// Logging in again with session token `token`, the client's `user_agent`,
/// the build fingerprint of a mobile client and the markers of `state`.
pub fn sync_request(state: &SyncState, token: &str, user_agent: JsonValue, fingerprint: Option<Vec<u8>>) -> (res: Request)
    ensures
        res.opcode == 19,
        res.payload@ == sync_payload(
            *state,
            token@,
            user_agent@,
            match fingerprint {
                Some(f) => Some(f@),
                None => None,
            },
        ),
{
    let mut groups: Vec<i64> = Vec::new();
    groups.push(10);
    groups.push(50);
    let groups_json = JsonValue::from_i64s(&groups);
    assert(groups_json@ == Json::Array(seq![Json::Int(10), Json::Int(50)])) by {
        assert(Seq::new(groups@.len(), |i: int| Json::Int(groups@[i] as int)) =~= seq![Json::Int(10), Json::Int(50)]);
    }
    let exp = JsonValue::object().with("chatsCountGroups", groups_json);
    let fp = match fingerprint {
        Some(f) => Some(JsonValue::from_bytes(&f)),
        None => None,
    };
    let hash = match &state.config_hash {
        Some(h) => h.deep_copy(),
        None => JsonValue::from_str(
            "00000000-0000000000000000-00000000-0000000000000000-0000000000000000-0-0000000000000000-00000000",
        ),
    };
    let p = JsonValue::object().with("userAgent", user_agent).with("interactive", JsonValue::from_bool(true)).with(
        "token",
        JsonValue::from_str(token),
    ).with("chatsSync", JsonValue::from_i64(state.chats_sync)).with(
        "contactsSync",
        JsonValue::from_i64(state.contacts_sync),
    ).with("presenceSync", JsonValue::from_i64(state.presence_sync)).with(
        "draftsSync",
        JsonValue::from_i64(state.drafts_sync),
    ).with("exp", exp).with_opt("chatCacheFingerprint", fp).with("configHash", hash);
    Request { opcode: 19, payload: p }
}

/// The `hash` of the `config` of an answer.
pub open spec fn config_hash_of(payload: Json) -> Option<Json> {
    match json_get(payload, "config"@) {
        Some(c) => json_get(c, "hash"@),
        None => None,
    }
}

fn config_hash_exec(payload: &JsonValue) -> (res: Option<JsonValue>)
    ensures
        opt_json(res) == config_hash_of(payload@),
{
    match payload.get("config") {
        Some(c) => match c.get("hash") {
            Some(h) => Some(h.deep_copy()),
            None => None,
        },
        None => None,
    }
}

/// The markers (chats, contacts, drafts, presence) after an answer to a
/// login: all the answer's `time` when it has an integer one, else as they
/// were.
pub open spec fn markers_after(markers: (i64, i64, i64, i64), payload: Json) -> (i64, i64, i64, i64) {
    match json_get(payload, "time"@) {
        Some(t) => match json_as_i64(t) {
            Some(n) => (n as i64, n as i64, n as i64, n as i64),
            None => markers,
        },
        None => markers,
    }
}

/// Takes in the answer to a login: every marker becomes the answer's `time`
/// when it has an integer one, and the configuration hash the answer's when
/// it has one. Returns the session token to keep when the answer hands out
/// one that differs from `token`.
pub fn apply_login_response(state: &mut SyncState, token: &str, payload: &JsonValue) -> (res: Option<String>)
    ensures
        (final(state).chats_sync, final(state).contacts_sync, final(state).drafts_sync, final(state).presence_sync)
            == markers_after(
            (old(state).chats_sync, old(state).contacts_sync, old(state).drafts_sync, old(state).presence_sync),
            payload@,
        ),
        opt_json(final(state).config_hash) == match config_hash_of(payload@) {
            Some(h) => Some(h),
            None => opt_json(old(state).config_hash),
        },
        match json_get_str(payload@, "token"@) {
            Some(t) => if t != token@ {
                res matches Some(r) && r@ == t
            } else {
                res is None
            },
            None => res is None,
        },
{
    let current = token.to_owned();
    let new_token = match response_token(payload) {
        Some(t) => if t == current {
            None
        } else {
            Some(t)
        },
        None => None,
    };
    match payload.get("time") {
        Some(t) => match t.as_i64() {
            Some(n) => {
                state.chats_sync = n;
                state.contacts_sync = n;
                state.drafts_sync = n;
                state.presence_sync = n;
            },
            None => {},
        },
        None => {},
    }
    match config_hash_exec(payload) {
        Some(h) => {
            state.config_hash = Some(h);
        },
        None => {},
    }
    new_token
}

/// The payload of the second login step for `flags` and the markers of `state`.
pub open spec fn login2_payload(flags: (bool, bool, bool), state: SyncState) -> Json {
    Json::Object(
        map![
            "needProfile"@ => Json::Bool(flags.2),
            "contactsSync"@ => Json::Int(if flags.1 {
                state.contacts_sync as int
            } else {
                -1
            }),
            "configHash"@ => match state.config_hash {
                Some(h) => h@,
                None => Json::Null,
            },
        ],
    )
}

/// The second login step that the answer to a login asks for: one when its
/// `login2Flags` set some flag, none otherwise.
pub fn login2_request(state: &SyncState, payload: &JsonValue) -> (res: Option<Request>)
    ensures
        match json_get(payload@, "login2Flags"@) {
            Some(f) => {
                let flags = login2_flags_of(f);
                if flags.0 || flags.1 || flags.2 {
                    res matches Some(r) && r.opcode == 8 && r.payload@ == login2_payload(flags, *state)
                } else {
                    res is None
                }
            },
            None => res is None,
        },
{
    let flags = match payload.get("login2Flags") {
        Some(f) => Login2Flags::from_json(f),
        None => return None,
    };
    if !flags.any() {
        return None;
    }
    let contacts = if flags.contact_enabled {
        state.contacts_sync
    } else {
        -1
    };
    let hash = match &state.config_hash {
        Some(h) => h.deep_copy(),
        None => JsonValue::null(),
    };
    let p = JsonValue::object().with("needProfile", JsonValue::from_bool(flags.profile_enabled)).with(
        "contactsSync",
        JsonValue::from_i64(contacts),
    ).with("configHash", hash);
    Some(Request { opcode: 8, payload: p })
}

/// Takes in the answer to the second login step: the configuration hash
/// becomes the answer's when it has one.
pub fn apply_login2_response(state: &mut SyncState, payload: &JsonValue)
    ensures
        final(state).chats_sync == old(state).chats_sync,
        final(state).contacts_sync == old(state).contacts_sync,
        final(state).drafts_sync == old(state).drafts_sync,
        final(state).presence_sync == old(state).presence_sync,
        opt_json(final(state).config_hash) == match config_hash_of(payload@) {
            Some(h) => Some(h),
            None => opt_json(old(state).config_hash),
        },
{
    match config_hash_exec(payload) {
        Some(h) => {
            state.config_hash = Some(h);
        },
        None => {},
    }
}

/// A login sends each saved marker of `state` under its own name, the
/// session token and the user agent as given, asks interactively, and
/// presents the saved configuration hash, or the all-zero hash when none is
/// saved. It carries the build fingerprint exactly when there is one, byte
/// for byte, and asks for the chat counts of the groups 10 and 50.
pub proof fn lemma_sync_payload_members(
    state: SyncState,
    token: Seq<char>,
    user_agent: Json,
    fingerprint: Option<Seq<u8>>,
)
    ensures
        json_get(sync_payload(state, token, user_agent, fingerprint), "chatsSync"@) == Some(
            Json::Int(state.chats_sync as int),
        ),
        json_get(sync_payload(state, token, user_agent, fingerprint), "contactsSync"@) == Some(
            Json::Int(state.contacts_sync as int),
        ),
        json_get(sync_payload(state, token, user_agent, fingerprint), "presenceSync"@) == Some(
            Json::Int(state.presence_sync as int),
        ),
        json_get(sync_payload(state, token, user_agent, fingerprint), "draftsSync"@) == Some(
            Json::Int(state.drafts_sync as int),
        ),
        json_get(sync_payload(state, token, user_agent, fingerprint), "token"@) == Some(Json::Str(token)),
        json_get(sync_payload(state, token, user_agent, fingerprint), "userAgent"@) == Some(user_agent),
        json_get(sync_payload(state, token, user_agent, fingerprint), "interactive"@) == Some(Json::Bool(true)),
        state.config_hash matches Some(h) ==> json_get(sync_payload(state, token, user_agent, fingerprint), "configHash"@)
            == Some(h@),
        state.config_hash is None ==> json_get(sync_payload(state, token, user_agent, fingerprint), "configHash"@)
            == Some(Json::Str("00000000-0000000000000000-00000000-0000000000000000-0000000000000000-0-0000000000000000-00000000"@)),
        fingerprint is None ==> json_get(sync_payload(state, token, user_agent, fingerprint), "chatCacheFingerprint"@)
            is None,
        fingerprint matches Some(f) ==> json_get(sync_payload(state, token, user_agent, fingerprint), "chatCacheFingerprint"@)
            matches Some(Json::Array(a)) && a.len() == f.len() && forall|i: int| 0 <= i < f.len() ==> a[i]
            == Json::Int(f[i] as int),
        json_get(sync_payload(state, token, user_agent, fingerprint), "exp"@) matches Some(e) && json_get(e, "chatsCountGroups"@)
            == Some(Json::Array(seq![Json::Int(10), Json::Int(50)])),
{
    reveal_strlit("userAgent");
    reveal_strlit("interactive");
    reveal_strlit("token");
    reveal_strlit("chatsSync");
    reveal_strlit("contactsSync");
    reveal_strlit("presenceSync");
    reveal_strlit("draftsSync");
    reveal_strlit("exp");
    reveal_strlit("chatCacheFingerprint");
    reveal_strlit("configHash");
    reveal_strlit("chatsCountGroups");
    assert("userAgent"@.len() == 9);
    assert("interactive"@.len() == 11);
    assert("token"@.len() == 5);
    assert("chatsSync"@.len() == 9);
    assert("contactsSync"@.len() == 12);
    assert("presenceSync"@.len() == 12);
    assert("draftsSync"@.len() == 10);
    assert("exp"@.len() == 3);
    assert("chatCacheFingerprint"@.len() == 20);
    assert("configHash"@.len() == 10);
    assert("chatsCountGroups"@.len() == 16);
    assert("userAgent"@[0] != "chatsSync"@[0]);
    assert("contactsSync"@[0] != "presenceSync"@[0]);
    assert("draftsSync"@[0] != "configHash"@[0]);
}

/// The request of [`check_password`] carries exactly these members, each under
/// its own name, as its arguments give them.
pub proof fn lemma_check_password_payload_members(password: String, track_id: String)
    ensures
        json_get(check_password_payload(password, track_id), "password"@) == Some(Json::Str(password@)),
        json_get(check_password_payload(password, track_id), "trackId"@) == Some(Json::Str(track_id@)),
        members_of(check_password_payload(password, track_id)).dom() =~= set!["password"@, "trackId"@],
{
    reveal_strlit("password");
    reveal_strlit("trackId");
    assert("password"@.len() == 8);
    assert("trackId"@.len() == 7);
}

/// The request of [`submit_register`] carries exactly these members, each under
/// its own name, as its arguments give them.
pub proof fn lemma_submit_register_payload_members(first_name: String, last_name: Option<String>)
    ensures
        json_get(submit_register_payload(first_name, last_name), "firstName"@) == Some(Json::Str(first_name@)),
        json_get(submit_register_payload(first_name, last_name), "lastName"@) == Some(match last_name { Some(l) => Json::Str(l@), None => Json::Null, }),
        json_get(submit_register_payload(first_name, last_name), "photoId"@) == Some(Json::Int(2981369)),
        json_get(submit_register_payload(first_name, last_name), "avatarType"@) == Some(Json::Str("PRESET_AVATAR"@)),
        json_get(submit_register_payload(first_name, last_name), "tokenType"@) == Some(Json::Str("REGISTER"@)),
        members_of(submit_register_payload(first_name, last_name)).dom() =~= set!["firstName"@, "lastName"@, "photoId"@, "avatarType"@, "tokenType"@],
{
    reveal_strlit("firstName");
    reveal_strlit("lastName");
    reveal_strlit("photoId");
    reveal_strlit("avatarType");
    reveal_strlit("tokenType");
    assert("firstName"@.len() == 9);
    assert("lastName"@.len() == 8);
    assert("photoId"@.len() == 7);
    assert("avatarType"@.len() == 10);
    assert("tokenType"@.len() == 9);
    assert("firstName"@[0] != "tokenType"@[0]);
}

/// Asking for a sign-in code sends the phone number and the request type,
/// and the build fingerprint as `mode`, byte for byte, exactly when there
/// is one.
pub proof fn lemma_start_auth_payload_members(phone: String, mode: Option<Vec<u8>>)
    ensures
        json_get(start_auth_payload(phone, mode), "phone"@) == Some(Json::Str(phone@)),
        json_get(start_auth_payload(phone, mode), "type"@) == Some(Json::Str("START_AUTH"@)),
        mode is None ==> json_get(start_auth_payload(phone, mode), "mode"@) is None,
        mode matches Some(m) ==> json_get(start_auth_payload(phone, mode), "mode"@) matches Some(Json::Array(a))
            && a.len() == m@.len() && forall|i: int| 0 <= i < m@.len() ==> a[i] == Json::Int(m@[i] as int),
{
    reveal_strlit("phone");
    reveal_strlit("type");
    reveal_strlit("mode");
    assert("phone"@.len() == 5);
    assert("type"@.len() == 4);
    assert("mode"@.len() == 4);
    assert("type"@[0] != "mode"@[0]);
}

/// The second login step asks for the profile when its flag says so, sends
/// the saved contacts marker only when the contacts flag is set (-1
/// otherwise), and the saved configuration hash (null when none is saved).
pub proof fn lemma_login2_payload_members(flags: (bool, bool, bool), state: SyncState)
    ensures
        json_get(login2_payload(flags, state), "needProfile"@) == Some(Json::Bool(flags.2)),
        flags.1 ==> json_get(login2_payload(flags, state), "contactsSync"@) == Some(Json::Int(state.contacts_sync as int)),
        !flags.1 ==> json_get(login2_payload(flags, state), "contactsSync"@) == Some(Json::Int(-1)),
        state.config_hash matches Some(h) ==> json_get(login2_payload(flags, state), "configHash"@) == Some(h@),
        state.config_hash is None ==> json_get(login2_payload(flags, state), "configHash"@) == Some(Json::Null),
{
    reveal_strlit("needProfile");
    reveal_strlit("contactsSync");
    reveal_strlit("configHash");
    assert("needProfile"@.len() == 11);
    assert("contactsSync"@.len() == 12);
    assert("configHash"@.len() == 10);
}

/// A code check sends the temporary token and the code, each under its own
/// name, as a check of type `CHECK_CODE`, and nothing else.
pub proof fn lemma_check_code_payload_members(token: Seq<char>, code: Seq<char>)
    ensures
        json_get(check_code_payload(token, code), "token"@) == Some(Json::Str(token)),
        json_get(check_code_payload(token, code), "verifyCode"@) == Some(Json::Str(code)),
        json_get(check_code_payload(token, code), "authTokenType"@) == Some(Json::Str("CHECK_CODE"@)),
        members_of(check_code_payload(token, code)).dom() =~= set!["token"@, "verifyCode"@, "authTokenType"@],
{
    reveal_strlit("token");
    reveal_strlit("verifyCode");
    reveal_strlit("authTokenType");
    assert("token"@.len() == 5);
    assert("verifyCode"@.len() == 10);
    assert("authTokenType"@.len() == 13);
}

/// Logging in again with the markers that an answer left: when the answer
/// has an integer `time` (one that fits in 64 bits), every marker the next
/// login sends is that time; otherwise the markers sent are the ones held
/// before the answer.
pub proof fn lemma_markers_carry_over(
    before: (i64, i64, i64, i64),
    answer: Json,
    state: SyncState,
    token: Seq<char>,
    user_agent: Json,
    fingerprint: Option<Seq<u8>>,
)
    requires
        (state.chats_sync, state.contacts_sync, state.drafts_sync, state.presence_sync) == markers_after(before, answer),
    ensures
        ({
            let p = sync_payload(state, token, user_agent, fingerprint);
            let timed = json_get(answer, "time"@) matches Some(Json::Int(n)) && i64::MIN <= n <= i64::MAX;
            &&& timed ==> json_get(p, "chatsSync"@) == json_get(answer, "time"@) && json_get(p, "contactsSync"@)
                == json_get(answer, "time"@) && json_get(p, "draftsSync"@) == json_get(answer, "time"@) && json_get(
                p,
                "presenceSync"@,
            ) == json_get(answer, "time"@)
            &&& !timed ==> json_get(p, "chatsSync"@) == Some(Json::Int(before.0 as int)) && json_get(p, "contactsSync"@)
                == Some(Json::Int(before.1 as int)) && json_get(p, "draftsSync"@) == Some(Json::Int(before.2 as int))
                && json_get(p, "presenceSync"@) == Some(Json::Int(before.3 as int))
        }),
{
    lemma_sync_payload_members(state, token, user_agent, fingerprint);
}

/// The flags of the second login step, read as the protocol's deserialiser
/// reads them: an object gives each flag from the member of its own name
/// (a missing member meaning false); an array gives them in order (config,
/// contacts, profile); anything that is not booleans in that shape sets
/// none.
pub proof fn lemma_login2_flags_members(m: Map<Seq<char>, Json>, a: bool, b: bool, c: bool)
    ensures
        login2_flags_of(
            Json::Object(
                m.insert("configEnabled"@, Json::Bool(a)).insert("contactEnabled"@, Json::Bool(b)).insert(
                    "profileEnabled"@,
                    Json::Bool(c),
                ),
            ),
        ) == (a, b, c),
        login2_flags_of(Json::Object(map!["contactEnabled"@ => Json::Bool(b)])) == (false, b, false),
        login2_flags_of(Json::Array(seq![Json::Bool(a), Json::Bool(b), Json::Bool(c)])) == (a, b, c),
        login2_flags_of(Json::Array(seq![Json::Bool(a)])) == (a, false, false),
        login2_flags_of(Json::Object(m.insert("configEnabled"@, Json::Null))) == (false, false, false),
        login2_flags_of(Json::Null) == (false, false, false),
        login2_flags_of(Json::Bool(a)) == (false, false, false),
{
    reveal_strlit("configEnabled");
    reveal_strlit("contactEnabled");
    reveal_strlit("profileEnabled");
    assert("configEnabled"@.len() == 13);
    assert("contactEnabled"@.len() == 14);
    assert("profileEnabled"@.len() == 14);
    assert("contactEnabled"@[0] != "profileEnabled"@[0]);
}

} // verus!
