use rumax::errors::Error;
use rumax::json::{JsonNumber, JsonValue};
use rumax::models::keyboard::default_keyboard_type;
use rumax::models::{BotCommand, BotInfo, InlineKeyboardAttachment, InlineKeyboardButton};
use rumax::text::{contains, starts_with};

#[test]
fn button_new_upper_cases_its_type() {
    let b = InlineKeyboardButton::new("callback", "Go");
    assert_eq!(b.button_type, "CALLBACK");
    assert_eq!(b.text, "Go");
    assert_eq!(b.url, None);
    assert_eq!(b.payload, None);
    let b = InlineKeyboardButton::new("straße", "x");
    assert_eq!(b.button_type, "STRASSE");
}

#[test]
fn button_wire_form_skips_unset_fields() {
    let mut b = InlineKeyboardButton::callback("A", "p");
    b.contact_id = Some(-7);
    let j = b.to_json();
    let expected = JsonValue::object()
        .with("type", JsonValue::from_str("CALLBACK"))
        .with("text", JsonValue::from_str("A"))
        .with("contactId", JsonValue::from_i64(-7))
        .with("payload", JsonValue::from_str("p"));
    assert_eq!(j, expected);
    assert!(j.get("url").is_none());
    assert!(j.get("webApp").is_none());
}

#[test]
fn attachment_without_callback_id_has_no_member() {
    let a = InlineKeyboardAttachment::new(None, vec![]);
    let j = a.to_json();
    assert!(j.get("callbackId").is_none());
    assert_eq!(j.get("_type").and_then(|t| t.as_str()), Some("INLINE_KEYBOARD"));
    assert_eq!(default_keyboard_type(), "INLINE_KEYBOARD");
}

#[test]
fn keyboard_emptiness() {
    assert!(InlineKeyboardAttachment::new(None, vec![]).is_empty());
    assert!(InlineKeyboardAttachment::new(None, vec![vec![], vec![]]).is_empty());
    let b = InlineKeyboardButton::url("a", "b");
    assert!(!InlineKeyboardAttachment::new(None, vec![vec![], vec![b]]).is_empty());
}

#[test]
fn bot_command_description_is_trimmed() {
    let c = BotCommand::new("start", Some("  Begin \u{3000}".to_string()));
    assert_eq!(c.description.as_deref(), Some("Begin"));
    let c = BotCommand::new("start", Some(" \t\n".to_string()));
    assert_eq!(c.description, None);
    let c = BotCommand::new("start", None);
    assert_eq!(c.description, None);
    assert_eq!(c.slash(), "/start");
}

#[test]
fn bot_info_skips_items_without_names() {
    let commands = JsonValue::from_items(vec![
        JsonValue::object().with("name", JsonValue::from_str("")),
        JsonValue::object().with("name", JsonValue::from_i64(5)),
        JsonValue::from_str("loose"),
        JsonValue::object()
            .with("name", JsonValue::from_str("ok"))
            .with("description", JsonValue::from_str("   ")),
        JsonValue::object()
            .with("name", JsonValue::from_str("two"))
            .with("description", JsonValue::from_i64(3)),
    ]);
    let raw = JsonValue::object().with("commands", commands);
    let info = BotInfo::from_payload(7, &raw);
    assert_eq!(info.commands.len(), 2);
    assert_eq!(info.commands[0], BotCommand { name: "ok".into(), description: None });
    assert_eq!(info.commands[1], BotCommand { name: "two".into(), description: None });
    assert!(info.contact.is_none());
    assert!(info.description.is_none());
}

#[test]
fn bot_info_without_commands_array() {
    let raw = JsonValue::object()
        .with("commands", JsonValue::from_str("none"))
        .with("contact", JsonValue::object().with("description", JsonValue::from_i64(1)));
    let info = BotInfo::from_payload(1, &raw);
    assert!(info.commands.is_empty());
    assert!(info.contact.is_some());
    assert!(info.description.is_none());
    let info = BotInfo::from_payload(2, &JsonValue::null());
    assert!(info.commands.is_empty());
}

#[test]
fn json_object_later_member_wins() {
    let o = JsonValue::object().with("a", JsonValue::from_i64(1)).with("a", JsonValue::from_i64(2));
    assert_eq!(o.get("a").and_then(|v| v.as_i64()), Some(2));
    assert!(o.get("b").is_none());
    assert!(JsonValue::from_i64(1).get("a").is_none());
}

#[test]
fn json_numbers() {
    assert_eq!(JsonValue::from_i64(-3), JsonValue::Number(JsonNumber::NegInt(-3)));
    assert_eq!(JsonValue::from_i64(3), JsonValue::Number(JsonNumber::PosInt(3)));
    assert_eq!(JsonValue::from_u64(u64::MAX).as_i64(), None);
    assert_eq!(JsonValue::Number(JsonNumber::Float("1.5".into())).as_i64(), None);
    assert_eq!(JsonValue::from_str("x").as_i64(), None);
}

#[test]
fn json_merge_and_copy() {
    let mut a = JsonValue::object().with("x", JsonValue::from_i64(1)).with("y", JsonValue::from_i64(2));
    let b = JsonValue::object().with("y", JsonValue::from_i64(3)).with("z", JsonValue::null());
    a.merge_from(&b);
    assert_eq!(a.get("x").and_then(|v| v.as_i64()), Some(1));
    assert_eq!(a.get("y").and_then(|v| v.as_i64()), Some(3));
    assert_eq!(a.get("z"), Some(&JsonValue::Null));
    let c = a.deep_copy();
    assert_eq!(c, a);
}

#[test]
fn text_operations() {
    let c = BotCommand::new("x", Some("\u{a0} a b \u{2028}".to_string()));
    assert_eq!(c.description.as_deref(), Some("a b"));
    assert!(contains("error.not.ready.yet", "not.ready"));
    assert!(!contains("not", "not_ready"));
    assert!(contains("abc", ""));
    assert!(starts_with("https://x", "https://"));
    assert!(!starts_with("http", "https://"));
}

#[test]
fn error_kinds() {
    assert_eq!(Error::NotConnected.kind(), "NotConnected");
    assert_eq!(Error::RequestTimeout { secs: 1, nanos: 0 }.kind(), "RequestTimeout");
    assert_eq!(Error::ApiResponse(JsonValue::null()).kind(), "ApiResponse");
    let e: Error = String::from("boom").into();
    match e {
        Error::Other(m) => assert_eq!(m, "boom"),
        _ => panic!("wrong variant"),
    }
    assert_eq!(Error::OneshotRecvError.kind(), "OneshotRecvError");
}

#[test]
fn error_messages_and_json() {
    assert_eq!(Error::NotConnected.plain_text().as_deref(), Some("Not connected"));
    assert_eq!(Error::SendFailed("socket".into()).plain_text().as_deref(), Some("socket"));
    assert_eq!(Error::RequestTimeout { secs: 5, nanos: 0 }.plain_text(), None);
    assert_eq!(Error::OneshotRecvError.plain_text(), None);
    let text = |j: &JsonValue, k: &str| j.get(k).and_then(|v| v.as_str()).map(|s| s.to_string());
    let j = Error::NotConnected.to_json(String::new());
    assert_eq!((text(&j, "type"), text(&j, "text")), (Some("NotConnected".into()), Some("Not connected".into())));
    let j = Error::Other("boom".into()).to_json("ignored".into());
    assert_eq!((text(&j, "type"), text(&j, "text")), (Some("Other".into()), Some("boom".into())));
    let j = Error::RequestTimeout { secs: 5, nanos: 0 }.to_json("5s".into());
    assert_eq!((text(&j, "type"), text(&j, "text")), (Some("RequestTimeout".into()), Some("5s".into())));
}
