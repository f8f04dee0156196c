use rumax::api::auth::{
    apply_login2_response, apply_login_response, check_code, check_code_tokens, check_password,
    check_password_token, fingerprint_plan, start_auth_plan, sync_plan, is_web_device, login2_request, missing_fingerprint_error,
    require_handshake, response_token, start_auth, submit_register, sync_credentials, sync_request,
    sync_version_error, FingerprintPlan, Login2Flags, SyncState,
};
use rumax::api::bots::{open_web_app, send_bot_start, send_bot_start_at, send_button_callback};
use rumax::api::chats::{
    assign_admin, change_group_settings, create_group_at, delete_chat, get_join_requests,
    revoke_admin, search_msg, search_public, set_chat_mute, update_folder, update_user_settings,
};
use rumax::api::messaging::{
    delete_message, edit_message, fetch_history, fetch_history_at, FetchHistoryOptions, send_message_at, send_message_step, SendOutcome, SendStep,
};
use rumax::api::stickers::{remove_favorite_sticker_set, resolve_link, send_sticker_message_at};
use rumax::api::{eq_ignore_ascii_case, i64_to_string, parse_u64, Request};
use rumax::errors::Error;
use rumax::json::JsonValue;

fn obj() -> JsonValue {
    JsonValue::object()
}

fn s(v: &str) -> JsonValue {
    JsonValue::from_str(v)
}

fn n(v: i64) -> JsonValue {
    JsonValue::from_i64(v)
}

fn b(v: bool) -> JsonValue {
    JsonValue::from_bool(v)
}

fn check(r: Request, opcode: u16, payload: JsonValue) {
    assert_eq!(r.opcode, opcode);
    assert_eq!(r.payload, payload);
}

#[test]
fn decimal_and_parsing() {
    assert_eq!(i64_to_string(0), "0");
    assert_eq!(i64_to_string(-5), "-5");
    assert_eq!(i64_to_string(i64::MIN), i64::MIN.to_string());
    assert_eq!(i64_to_string(i64::MAX), i64::MAX.to_string());
    assert_eq!(parse_u64("42"), Some(42));
    assert_eq!(parse_u64("+7"), Some(7));
    assert_eq!(parse_u64("+"), None);
    assert_eq!(parse_u64(""), None);
    assert_eq!(parse_u64("-1"), None);
    assert_eq!(parse_u64("1a"), None);
    assert_eq!(parse_u64("18446744073709551615"), Some(u64::MAX));
    assert_eq!(parse_u64("18446744073709551616"), None);
    assert!(eq_ignore_ascii_case("WeB", "web"));
    assert!(!eq_ignore_ascii_case("webs", "web"));
}

#[test]
fn chat_requests() {
    check(
        search_public("q".into(), 5, "ALL".into()),
        60,
        obj().with("query", s("q")).with("count", n(5)).with("type", s("ALL")),
    );
    check(search_msg("q".into(), 2, None), 68, obj().with("query", s("q")).with("count", n(2)));
    check(
        search_msg("q".into(), 2, Some("m".into())),
        68,
        obj().with("query", s("q")).with("count", n(2)).with("marker", s("m")),
    );
    check(
        get_join_requests(9),
        59,
        obj().with("chatId", n(9)).with("type", s("JOIN_REQUEST")).with("count", n(100)),
    );
    check(
        set_chat_mute(-12, 99),
        22,
        obj().with(
            "settings",
            obj().with("chats", obj().with("-12", obj().with("dontDisturbUntil", n(99)))),
        ),
    );
    check(
        update_user_settings(vec![("a".into(), n(1))]),
        22,
        obj().with("settings", obj().with("user", obj().with("a", n(1)))),
    );
}

#[test]
fn group_settings_use_both_names() {
    let r = change_group_settings(3, Some(true), None, Some(false), None, None);
    check(
        r,
        55,
        obj().with("chatId", n(3)).with(
            "options",
            obj()
                .with("ALL_CAN_PIN_MESSAGE", b(true))
                .with("allCanPinMessage", b(true))
                .with("ONLY_ADMIN_CAN_ADD_MEMBER", b(false))
                .with("onlyAdminCanAddMember", b(false)),
        ),
    );
}

#[test]
fn admins_and_folders() {
    let r = assign_admin(1, 77, vec!["PIN".into()], Some("  boss ".into()));
    check(
        r,
        55,
        obj().with("chatId", n(1)).with(
            "adminParticipants",
            obj().with(
                "77",
                obj()
                    .with("permissions", JsonValue::from_items(vec![s("PIN")]))
                    .with("alias", s("boss")),
            ),
        ),
    );
    let r = assign_admin(1, 77, vec![], Some("   ".into()));
    assert!(r.payload.get("adminParticipants").unwrap().get("77").unwrap().get("alias").is_none());
    check(
        revoke_admin(1, 77),
        55,
        obj().with("chatId", n(1)).with("adminParticipants", obj().with("77", JsonValue::null())),
    );
    let r = update_folder("f".into(), " Work ".into(), vec![1], vec![], vec![2], vec![]);
    assert_eq!(r.opcode, 274);
    assert_eq!(r.payload.get("title").and_then(|t| t.as_str()), Some("Work"));
    assert_eq!(r.payload.get("include"), Some(&JsonValue::from_items(vec![n(1)])));
}

#[test]
fn time_dependent_requests() {
    let r = create_group_at("G".into(), None, None, 1000);
    let attach = obj()
        .with("_type", s("CONTROL"))
        .with("event", s("new"))
        .with("chatType", s("CHAT"))
        .with("title", s("G"))
        .with("userIds", JsonValue::from_items(vec![]));
    check(
        r,
        64,
        obj()
            .with("message", obj().with("cid", n(1000)).with("attaches", JsonValue::from_items(vec![attach])))
            .with("notify", b(true)),
    );
    let r = delete_chat(5, Some(77), None);
    check(r, 52, obj().with("chatId", n(5)).with("lastEventTime", n(77)).with("forAll", b(false)));
    let r = send_bot_start_at(4, Some("x".into()), 10);
    let attach = obj().with("_type", s("CONTROL")).with("event", s("botStarted")).with("startPayload", s("x"));
    check(
        r,
        64,
        obj()
            .with("chatId", n(4))
            .with("message", obj().with("cid", n(-10)).with("attaches", JsonValue::from_items(vec![attach]))),
    );
    let r = send_bot_start(4, None);
    let cid = r.payload.get("message").unwrap().get("cid").unwrap().as_i64().unwrap();
    assert!(cid < 0);
    let r = send_sticker_message_at(2, 8, Some(false), 3);
    assert_eq!(r.payload.get("notify"), Some(&b(false)));
    assert_eq!(r.payload.get("message").unwrap().get("text").and_then(|t| t.as_str()), Some(""));
}

#[test]
fn bot_requests() {
    check(
        send_button_callback(1, 2, "cb".into(), None),
        118,
        obj().with("chatId", n(1)).with("messageId", n(2)).with("callbackId", s("cb")),
    );
    check(open_web_app(5, Some("  ".into()), None), 160, obj().with("botId", n(5)));
    check(
        open_web_app(5, Some("p".into()), Some(9)),
        160,
        obj().with("botId", n(5)).with("startParam", s("p")).with("chatId", n(9)),
    );
}

#[test]
fn links_are_completed() {
    check(resolve_link("abc".into()), 89, obj().with("link", s("https://max.ru/abc")));
    check(resolve_link("http://x".into()), 89, obj().with("link", s("http://x")));
    check(resolve_link("https://y".into()), 89, obj().with("link", s("https://y")));
    check(
        remove_favorite_sticker_set(3),
        259,
        obj().with("type", s("FAVORITE_STICKER_SET")).with("ids", JsonValue::from_items(vec![n(3)])),
    );
}

#[test]
fn message_payload() {
    let args = vec![
        ("cid".to_string(), n(55)),
        ("replyTo".to_string(), s("+12")),
        ("notify".to_string(), b(false)),
    ];
    let r = send_message_at(7, "hi".into(), Some(args), 1000);
    let message = obj()
        .with("text", s("hi"))
        .with("cid", n(55))
        .with("isLive", b(false))
        .with("detectShare", b(false))
        .with("elements", JsonValue::from_items(vec![]))
        .with("attaches", JsonValue::from_items(vec![]))
        .with("link", obj().with("type", s("REPLY")).with("messageId", n(12)));
    check(r, 64, obj().with("chatId", n(7)).with("message", message).with("notify", b(false)));

    let r = send_message_at(7, "".into(), Some(vec![("replyTo".to_string(), s("x"))]), 1000);
    let m = r.payload.get("message").unwrap();
    assert!(m.get("text").is_none());
    assert!(m.get("link").is_none());
    assert_eq!(m.get("cid").and_then(|c| c.as_i64()), Some(-1000));
    assert_eq!(r.payload.get("notify"), Some(&b(true)));
}

#[test]
fn message_retry_rule() {
    let not_ready = SendOutcome::ApiError("{\"error\":\"chat.not.ready\"}".into());
    assert_eq!(send_message_step(0, &not_ready), SendStep::RetryAfterMillis(1000));
    assert_eq!(send_message_step(58, &not_ready), SendStep::RetryAfterMillis(1000));
    assert_eq!(send_message_step(59, &not_ready), SendStep::Finish);
    let other = SendOutcome::ApiError("{\"error\":\"not_ready\"}".into());
    assert_eq!(send_message_step(3, &other), SendStep::RetryAfterMillis(1000));
    assert_eq!(send_message_step(3, &SendOutcome::ApiError("denied".into())), SendStep::Finish);
    assert_eq!(send_message_step(3, &SendOutcome::Delivered), SendStep::Finish);
    assert_eq!(send_message_step(3, &SendOutcome::OtherError), SendStep::Finish);
}

#[test]
fn message_edits_and_deletes() {
    check(
        delete_message(1, 9, true),
        66,
        obj().with("chatId", n(1)).with("messageIds", JsonValue::from_items(vec![n(9)])).with("forMe", b(true)),
    );
    check(
        edit_message(1, 2, "t".into(), None, Some(vec![n(1)])),
        67,
        obj()
            .with("chatId", n(1))
            .with("messageId", n(2))
            .with("text", s("t"))
            .with("elements", JsonValue::from_items(vec![n(1)]))
            .with("attaches", JsonValue::from_items(vec![])),
    );
}

#[test]
fn sign_in_decisions() {
    assert!(is_web_device("WEB"));
    assert!(!is_web_device("ANDROID"));
    assert!(matches!(fingerprint_plan("Web", "", None), Ok(FingerprintPlan::NotNeeded)));
    match fingerprint_plan("ANDROID", "", Some(3)) {
        Ok(FingerprintPlan::Needed { app_version, seed }) => {
            assert_eq!(app_version, "2.25.0");
            assert_eq!(seed, 3);
        }
        other => panic!("unexpected {:?}", other),
    }
    match fingerprint_plan("ANDROID", "25.1", None) {
        Err(Error::ConnectionFailed(m)) => assert_eq!(m, "handshake_response.calls_seed is missing"),
        other => panic!("unexpected {:?}", other),
    }
    assert!(require_handshake(true, true).is_ok());
    assert!(matches!(require_handshake(false, true), Err(Error::ConnectionFailed(_))));
    assert!(matches!(missing_fingerprint_error(), Error::ConnectionFailed(_)));
    match sync_version_error("1.2") {
        Error::ConnectionFailed(m) => assert_eq!(m, "Версия 1.2 не найдена"),
        other => panic!("unexpected {:?}", other),
    }
}

#[test]
fn sign_in_requests() {
    check(
        start_auth("+7".into(), Some(vec![1, 255])),
        17,
        obj()
            .with("phone", s("+7"))
            .with("type", s("START_AUTH"))
            .with("mode", JsonValue::from_items(vec![n(1), n(255)])),
    );
    match check_code(None, "1".into()) {
        Err(Error::Other(m)) => assert_eq!(m, "No temporary token found"),
        other => panic!("unexpected {:?}", other),
    }
    let r = check_code(Some("t".into()), "123".into()).unwrap();
    check(
        r,
        18,
        obj().with("token", s("t")).with("verifyCode", s("123")).with("authTokenType", s("CHECK_CODE")),
    );
    check(check_password("p".into(), "k".into()), 115, obj().with("password", s("p")).with("trackId", s("k")));
    check(
        submit_register("A".into(), None),
        23,
        obj()
            .with("firstName", s("A"))
            .with("lastName", JsonValue::null())
            .with("photoId", n(2981369))
            .with("avatarType", s("PRESET_AVATAR"))
            .with("tokenType", s("REGISTER")),
    );
}

#[test]
fn tokens_from_answers() {
    let answer = obj().with(
        "tokenAttrs",
        obj()
            .with("REGISTER", obj().with("token", s("reg")))
            .with("LOGIN", obj().with("token", s("log")))
            .with("OTHER", obj().with("token", s("x"))),
    );
    let t = check_code_tokens(&answer);
    assert_eq!(t.temp_token.as_deref(), Some("reg"));
    assert_eq!(t.token.as_deref(), Some("log"));
    assert_eq!(check_password_token(&answer).as_deref(), Some("log"));
    let t = check_code_tokens(&obj().with("tokenAttrs", s("none")));
    assert!(t.temp_token.is_none() && t.token.is_none());
    assert_eq!(response_token(&obj().with("token", s("z"))).as_deref(), Some("z"));
    assert_eq!(response_token(&obj().with("token", n(1))), None);
}

#[test]
fn login2_flags_decoding() {
    let f = Login2Flags::from_json(&obj().with("contactEnabled", b(true)).with("extra", n(1)));
    assert_eq!(f, Login2Flags { config_enabled: false, contact_enabled: true, profile_enabled: false });
    let f = Login2Flags::from_json(&obj().with("contactEnabled", b(true)).with("profileEnabled", n(1)));
    assert_eq!(f, Login2Flags::default());
    let f = Login2Flags::from_json(&JsonValue::from_items(vec![b(true), b(false)]));
    assert_eq!(f, Login2Flags { config_enabled: true, contact_enabled: false, profile_enabled: false });
    let f = Login2Flags::from_json(&JsonValue::from_items(vec![b(true), b(true), b(true), b(true)]));
    assert_eq!(f, Login2Flags::default());
    assert_eq!(Login2Flags::from_json(&s("x")), Login2Flags::default());
    assert!(!Login2Flags::default().any());
}

#[test]
fn login_round() {
    assert_eq!(sync_credentials(Some("t".into()), true).unwrap(), "t");
    assert!(matches!(sync_credentials(None, false), Err(Error::ConnectionFailed(m)) if m == "No token set"));
    assert!(matches!(sync_credentials(Some("t".into()), false), Err(Error::ConnectionFailed(m)) if m == "No identity set"));

    let mut state = SyncState::default();
    assert_eq!(state.chats_sync, -1);
    let r = sync_request(&state, "tok", obj().with("deviceType", s("WEB")), None);
    assert_eq!(r.opcode, 19);
    assert_eq!(
        r.payload.get("configHash").and_then(|h| h.as_str()),
        Some("00000000-0000000000000000-00000000-0000000000000000-0000000000000000-0-0000000000000000-00000000")
    );
    assert_eq!(
        r.payload.get("exp").unwrap().get("chatsCountGroups"),
        Some(&JsonValue::from_items(vec![n(10), n(50)]))
    );
    assert!(r.payload.get("chatCacheFingerprint").is_none());

    let answer = obj()
        .with("token", s("new"))
        .with("time", n(500))
        .with("config", obj().with("hash", s("h1")))
        .with("login2Flags", obj().with("contactEnabled", b(true)).with("profileEnabled", b(true)));
    let new_token = apply_login_response(&mut state, "tok", &answer);
    assert_eq!(new_token.as_deref(), Some("new"));
    assert_eq!((state.chats_sync, state.contacts_sync, state.drafts_sync, state.presence_sync), (500, 500, 500, 500));
    assert_eq!(state.config_hash, Some(s("h1")));
    let r2 = login2_request(&state, &answer).expect("second step");
    check(
        r2,
        8,
        obj().with("needProfile", b(true)).with("contactsSync", n(500)).with("configHash", s("h1")),
    );
    apply_login2_response(&mut state, &obj().with("config", obj().with("hash", s("h2"))));
    assert_eq!(state.config_hash, Some(s("h2")));
    apply_login2_response(&mut state, &obj());
    assert_eq!(state.config_hash, Some(s("h2")));

    let same = obj().with("token", s("tok"));
    assert_eq!(apply_login_response(&mut state, "tok", &same), None);
    assert_eq!(state.chats_sync, 500);
    assert!(login2_request(&state, &same).is_none());
    let quiet = obj().with("login2Flags", obj());
    assert!(login2_request(&state, &quiet).is_none());
}

#[test]
fn sign_in_checks_come_in_order() {
    let msg = |r: Result<FingerprintPlan, Error>| match r {
        Err(Error::ConnectionFailed(m)) => m,
        other => panic!("unexpected {:?}", other),
    };
    assert_eq!(msg(start_auth_plan(false, Some(("WEB", "")), None)), "No handshake response available for request_code");
    assert_eq!(msg(start_auth_plan(true, None, Some(1))), "No handshake response available for request_code");
    assert_eq!(msg(start_auth_plan(true, Some(("ANDROID", "")), None)), "handshake_response.calls_seed is missing");
    assert!(matches!(start_auth_plan(true, Some(("web", "")), None), Ok(FingerprintPlan::NotNeeded)));
    match start_auth_plan(true, Some(("ANDROID", "")), Some(7)) {
        Ok(FingerprintPlan::Needed { app_version, seed }) => assert_eq!((app_version.as_str(), seed), ("2.25.0", 7)),
        other => panic!("unexpected {:?}", other),
    }
}

#[test]
fn login_checks_come_in_order() {
    let msg = |r: Result<(String, FingerprintPlan), Error>| match r {
        Err(Error::ConnectionFailed(m)) => m,
        other => panic!("unexpected {:?}", other),
    };
    assert_eq!(msg(sync_plan(None, None, None)), "No token set");
    assert_eq!(msg(sync_plan(Some("t".into()), None, None)), "No identity set");
    assert_eq!(msg(sync_plan(Some("t".into()), Some(("IOS", "1.0")), None)), "handshake_response.calls_seed is missing");
    match sync_plan(Some("t".into()), Some(("IOS", "1.0")), Some(3)) {
        Ok((token, FingerprintPlan::Needed { app_version, seed })) => {
            assert_eq!((token.as_str(), app_version.as_str(), seed), ("t", "1.0", 3))
        }
        other => panic!("unexpected {:?}", other),
    }
    assert!(matches!(sync_plan(Some("t".into()), Some(("WEB", "")), None), Ok((_, FingerprintPlan::NotNeeded))));
}

fn history_options(from_time: Option<u64>) -> FetchHistoryOptions {
    FetchHistoryOptions {
        forward: JsonValue::from_i64(0),
        backward: JsonValue::from_i64(30),
        backward_time: JsonValue::from_i64(0),
        forward_time: JsonValue::from_i64(0),
        get_chat: JsonValue::from_bool(true),
        from_time,
        item_type: JsonValue::from_str("REGULAR"),
        get_messages: JsonValue::from_bool(true),
        interactive: JsonValue::from_bool(false),
    }
}

#[test]
fn history_request() {
    let r = fetch_history_at(42, history_options(Some(1000)), 5000);
    assert_eq!(r.opcode, 49);
    let p = &r.payload;
    assert_eq!(p.get("chatId").and_then(|v| v.as_i64()), Some(42));
    assert_eq!(p.get("from").and_then(|v| v.as_i64()), Some(1000));
    assert_eq!(p.get("backward").and_then(|v| v.as_i64()), Some(30));
    assert_eq!(p.get("itemType").and_then(|v| v.as_str()), Some("REGULAR"));
    assert_eq!(p.get("getChat"), Some(&JsonValue::from_bool(true)));
    let r = fetch_history_at(42, history_options(None), 5000);
    assert_eq!(r.payload.get("from").and_then(|v| v.as_i64()), Some(5000));
    let r = fetch_history(42, history_options(None));
    assert!(r.payload.get("from").and_then(|v| v.as_i64()).unwrap_or(0) > 0);
}
