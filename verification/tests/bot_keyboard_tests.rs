use rumax::json::JsonValue;
use rumax::models::{BotInfo, InlineKeyboardAttachment, InlineKeyboardButton};

fn field<'a>(v: &'a JsonValue, key: &str) -> &'a JsonValue {
    v.get(key).expect("member")
}

fn item(v: &JsonValue, i: usize) -> &JsonValue {
    &v.as_array().expect("array")[i]
}

fn text(v: &JsonValue) -> &str {
    v.as_str().expect("string")
}

#[test]
fn test_inline_keyboard_serialization() {
    let button1 = InlineKeyboardButton::callback("Button 1", "payload_1");
    let button2 = InlineKeyboardButton::url("Link", "https://example.com");

    let keyboard = InlineKeyboardAttachment::new(Some("cb-123".into()), vec![vec![button1, button2]]);

    let json = keyboard.to_json();
    assert_eq!(text(field(&json, "_type")), "INLINE_KEYBOARD");
    assert_eq!(text(field(&json, "callbackId")), "cb-123");
    let row = item(field(field(&json, "keyboard"), "buttons"), 0);
    assert_eq!(text(field(item(row, 0), "type")), "CALLBACK");
    assert_eq!(text(field(item(row, 0), "text")), "Button 1");
    assert_eq!(text(field(item(row, 0), "payload")), "payload_1");
    assert_eq!(text(field(item(row, 1), "type")), "LINK");
    assert_eq!(text(field(item(row, 1), "url")), "https://example.com");
}

#[test]
fn test_bot_info_parsing() {
    let commands = JsonValue::from_items(vec![
        JsonValue::object()
            .with("name", JsonValue::from_str("start"))
            .with("description", JsonValue::from_str("Start command")),
        JsonValue::object()
            .with("name", JsonValue::from_str("help"))
            .with("description", JsonValue::from_str("Help command")),
    ]);
    let contact = JsonValue::object()
        .with("id", JsonValue::from_i64(10001))
        .with(
            "names",
            JsonValue::from_items(vec![JsonValue::object().with("name", JsonValue::from_str("TestBot"))]),
        )
        .with("options", JsonValue::from_items(vec![JsonValue::from_str("BOT")]))
        .with("description", JsonValue::from_str("Test bot description"));
    let raw = JsonValue::object().with("commands", commands).with("contact", contact);

    let bot_info = BotInfo::from_payload(10001, &raw);
    assert_eq!(bot_info.bot_id, 10001);
    assert_eq!(bot_info.commands.len(), 2);
    assert_eq!(bot_info.commands[0].slash(), "/start");
    assert_eq!(bot_info.commands[0].description.as_deref(), Some("Start command"));
    assert_eq!(bot_info.commands[1].slash(), "/help");
    assert_eq!(bot_info.description.as_deref(), Some("Test bot description"));
}
