//! Requests that talk to bots: callbacks of their keyboards, starting them,
//! their descriptions and their web applications.
use vstd::prelude::*;
use vstd::string::StrSliceExecFns;
use crate::api::{Request, now_millis, min_timestamp_millis, max_timestamp_millis};
use crate::json::{Json, JsonValue, insert_opt, opt_str_json, json_get, members_of};
use crate::text::{trim, is_blank, trim_spec};

verus! {

/// The payload of [`send_button_callback`].
pub open spec fn send_button_callback_payload(chat_id: i64, message_id: u64, callback_id: String, payload: Option<String>) -> Json {
    Json::Object(
        insert_opt(
            map![
                "chatId"@ => Json::Int(chat_id as int),
                "messageId"@ => Json::Int(message_id as int),
                "callbackId"@ => Json::Str(callback_id@),
            ],
            "payload"@,
            opt_str_json(payload),
        ),
    )
}

/// The press of a keyboard button of a bot's message.
pub fn send_button_callback(chat_id: i64, message_id: u64, callback_id: String, payload: Option<String>) -> (res:
    Request)
    ensures
        res.opcode == 118,
        res.payload@ == send_button_callback_payload(chat_id, message_id, callback_id, payload),
{
    let p = JsonValue::object().with("chatId", JsonValue::from_i64(chat_id)).with(
        "messageId",
        JsonValue::from_u64(message_id),
    ).with("callbackId", JsonValue::from_string(callback_id)).with_opt(
        "payload",
        JsonValue::from_opt_string(payload),
    );
    Request { opcode: 118, payload: p }
}

/// The control attachment that starts a bot.
pub open spec fn bot_start_attach(start_payload: Option<String>) -> Json {
    Json::Object(
        insert_opt(
            map!["_type"@ => Json::Str("CONTROL"@), "event"@ => Json::Str("botStarted"@)],
            "startPayload"@,
            opt_str_json(start_payload),
        ),
    )
}

/// The payload of [`send_bot_start_at`].
pub open spec fn send_bot_start_at_payload(chat_id: i64, start_payload: Option<String>, now: i64) -> Json {
    Json::Object(
        map![
            "chatId"@ => Json::Int(chat_id as int),
            "message"@ => Json::Object(map![
                "cid"@ => Json::Int(-now),
                "attaches"@ => Json::Array(seq![bot_start_attach(start_payload)]),
            ]),
        ],
    )
}

/// Starting the bot of chat `chat_id` at time `now`: a message whose client
/// id is `-now` and whose only attachment starts the bot.
pub fn send_bot_start_at(chat_id: i64, start_payload: Option<String>, now: i64) -> (res: Request)
    requires
        now > i64::MIN,
    ensures
        res.opcode == 64,
        res.payload@ == send_bot_start_at_payload(chat_id, start_payload, now),
{
    let attach = JsonValue::object().with("_type", JsonValue::from_str("CONTROL")).with(
        "event",
        JsonValue::from_str("botStarted"),
    ).with_opt("startPayload", JsonValue::from_opt_string(start_payload));
    let mut attaches: Vec<JsonValue> = Vec::new();
    attaches.push(attach);
    let attaches = JsonValue::from_items(attaches);
    assert(attaches@ == Json::Array(seq![bot_start_attach(start_payload)])) by {
        reveal_with_fuel(crate::json::json_of_items, 2);
        assert(seq![bot_start_attach(start_payload)] =~= Seq::empty().push(bot_start_attach(start_payload)));
    }
    let message = JsonValue::object().with("cid", JsonValue::from_i64(-now)).with("attaches", attaches);
    let p = JsonValue::object().with("chatId", JsonValue::from_i64(chat_id)).with("message", message);
    Request { opcode: 64, payload: p }
}

/// Starting the bot of chat `chat_id` now.
pub fn send_bot_start(chat_id: i64, start_payload: Option<String>) -> (res: Request)
    ensures
        exists|now: i64|
            min_timestamp_millis() < now < max_timestamp_millis() && res.payload@ == #[trigger] send_bot_start_payload(
                chat_id,
                start_payload,
                now,
            ),
        res.opcode == 64,
{
    let now = now_millis();
    let r = send_bot_start_at(chat_id, start_payload, now);
    assert(r.payload@ == send_bot_start_payload(chat_id, start_payload, now));
    r
}

/// The payload that starts the bot of chat `chat_id` at time `now`.
pub open spec fn send_bot_start_payload(chat_id: i64, start_payload: Option<String>, now: i64) -> Json {
    Json::Object(
        map![
            "chatId"@ => Json::Int(chat_id as int),
            "message"@ => Json::Object(map![
                "cid"@ => Json::Int(-now),
                "attaches"@ => Json::Array(seq![bot_start_attach(start_payload)]),
            ]),
        ],
    )
}

/// The payload of [`get_bot_info`].
pub open spec fn get_bot_info_payload(bot_id: u64) -> Json {
    Json::Object(map!["botId"@ => Json::Int(bot_id as int)])
}

/// The description of bot `bot_id`.
pub fn get_bot_info(bot_id: u64) -> (res: Request)
    ensures
        res.opcode == 145,
        res.payload@ == get_bot_info_payload(bot_id),
{
    Request { opcode: 145, payload: JsonValue::object().with("botId", JsonValue::from_u64(bot_id)) }
}

/// The payload of [`get_chat_bot_commands`].
pub open spec fn get_chat_bot_commands_payload(chat_id: i64) -> Json {
    Json::Object(map!["chatId"@ => Json::Int(chat_id as int)])
}

/// The commands of the bots of chat `chat_id`.
pub fn get_chat_bot_commands(chat_id: i64) -> (res: Request)
    ensures
        res.opcode == 144,
        res.payload@ == get_chat_bot_commands_payload(chat_id),
{
    Request { opcode: 144, payload: JsonValue::object().with("chatId", JsonValue::from_i64(chat_id)) }
}

/// The payload of [`suspend_bot`].
pub open spec fn suspend_bot_payload(bot_id: u64) -> Json {
    Json::Object(map!["botId"@ => Json::Int(bot_id as int)])
}

/// Stopping bot `bot_id`.
pub fn suspend_bot(bot_id: u64) -> (res: Request)
    ensures
        res.opcode == 119,
        res.payload@ == suspend_bot_payload(bot_id),
{
    Request { opcode: 119, payload: JsonValue::object().with("botId", JsonValue::from_u64(bot_id)) }
}

/// The payload of [`open_web_app`].
pub open spec fn open_web_app_payload(bot_id: u64, start_param: Option<String>, chat_id: Option<i64>) -> Json {
    Json::Object(
        insert_opt(
            insert_opt(
                map!["botId"@ => Json::Int(bot_id as int)],
                "startParam"@,
                match start_param {
                    Some(p) => if is_blank(p@) {
                        None
                    } else {
                        Some(Json::Str(p@))
                    },
                    None => None,
                },
            ),
            "chatId"@,
            match chat_id {
                Some(c) => Some(Json::Int(c as int)),
                None => None,
            },
        ),
    )
}

/// Opening the web application of bot `bot_id`: the start parameter goes
/// along only when it is not blank, the chat when there is one.
pub fn open_web_app(bot_id: u64, start_param: Option<String>, chat_id: Option<i64>) -> (res: Request)
    ensures
        res.opcode == 160,
        res.payload@ == open_web_app_payload(bot_id, start_param, chat_id),
{
    let param = match start_param {
        Some(p) => if trim(p.as_str()).unicode_len() == 0 {
            None
        } else {
            Some(JsonValue::from_string(p))
        },
        None => None,
    };
    let chat = match chat_id {
        Some(c) => Some(JsonValue::from_i64(c)),
        None => None,
    };
    let p = JsonValue::object().with("botId", JsonValue::from_u64(bot_id)).with_opt("startParam", param).with_opt(
        "chatId",
        chat,
    );
    Request { opcode: 160, payload: p }
}

/// The payload of [`share_phone_with_bot`].
pub open spec fn share_phone_with_bot_payload(bot_id: u64) -> Json {
    Json::Object(map!["botId"@ => Json::Int(bot_id as int)])
}

/// Sharing the account's phone number with bot `bot_id`.
pub fn share_phone_with_bot(bot_id: u64) -> (res: Request)
    ensures
        res.opcode == 106,
        res.payload@ == share_phone_with_bot_payload(bot_id),
{
    Request { opcode: 106, payload: JsonValue::object().with("botId", JsonValue::from_u64(bot_id)) }
}

/// The payload of [`submit_external_callback`].
pub open spec fn submit_external_callback_payload(url: String) -> Json {
    Json::Object(map!["url"@ => Json::Str(url@)])
}

/// Reporting that the external page `url` was opened.
pub fn submit_external_callback(url: String) -> (res: Request)
    ensures
        res.opcode == 105,
        res.payload@ == submit_external_callback_payload(url),
{
    Request { opcode: 105, payload: JsonValue::object().with("url", JsonValue::from_string(url)) }
}

/// The request of [`send_bot_start_at`] carries exactly these members, each under
/// its own name, as its arguments give them.
pub proof fn lemma_send_bot_start_at_payload_members(chat_id: i64, start_payload: Option<String>, now: i64)
    ensures
        json_get(send_bot_start_at_payload(chat_id, start_payload, now), "chatId"@) == Some(Json::Int(chat_id as int)),
        json_get(send_bot_start_at_payload(chat_id, start_payload, now), "message"@) == Some(Json::Object(map![ "cid"@ => Json::Int(-now), "attaches"@ => Json::Array(seq![bot_start_attach(start_payload)]), ])),
        members_of(send_bot_start_at_payload(chat_id, start_payload, now)).dom() =~= set!["chatId"@, "message"@],
{
    reveal_strlit("chatId");
    reveal_strlit("message");
    assert("chatId"@.len() == 6);
    assert("message"@.len() == 7);
}

/// The request of [`get_bot_info`] carries exactly these members, each under
/// its own name, as its arguments give them.
pub proof fn lemma_get_bot_info_payload_members(bot_id: u64)
    ensures
        json_get(get_bot_info_payload(bot_id), "botId"@) == Some(Json::Int(bot_id as int)),
        members_of(get_bot_info_payload(bot_id)).dom() =~= set!["botId"@],
{
    reveal_strlit("botId");
    assert("botId"@.len() == 5);
}

/// The request of [`get_chat_bot_commands`] carries exactly these members, each under
/// its own name, as its arguments give them.
pub proof fn lemma_get_chat_bot_commands_payload_members(chat_id: i64)
    ensures
        json_get(get_chat_bot_commands_payload(chat_id), "chatId"@) == Some(Json::Int(chat_id as int)),
        members_of(get_chat_bot_commands_payload(chat_id)).dom() =~= set!["chatId"@],
{
    reveal_strlit("chatId");
    assert("chatId"@.len() == 6);
}

/// The request of [`suspend_bot`] carries exactly these members, each under
/// its own name, as its arguments give them.
pub proof fn lemma_suspend_bot_payload_members(bot_id: u64)
    ensures
        json_get(suspend_bot_payload(bot_id), "botId"@) == Some(Json::Int(bot_id as int)),
        members_of(suspend_bot_payload(bot_id)).dom() =~= set!["botId"@],
{
    reveal_strlit("botId");
    assert("botId"@.len() == 5);
}

/// The request of [`share_phone_with_bot`] carries exactly these members, each under
/// its own name, as its arguments give them.
pub proof fn lemma_share_phone_with_bot_payload_members(bot_id: u64)
    ensures
        json_get(share_phone_with_bot_payload(bot_id), "botId"@) == Some(Json::Int(bot_id as int)),
        members_of(share_phone_with_bot_payload(bot_id)).dom() =~= set!["botId"@],
{
    reveal_strlit("botId");
    assert("botId"@.len() == 5);
}

/// The request of [`submit_external_callback`] carries exactly these members, each under
/// its own name, as its arguments give them.
pub proof fn lemma_submit_external_callback_payload_members(url: String)
    ensures
        json_get(submit_external_callback_payload(url), "url"@) == Some(Json::Str(url@)),
        members_of(submit_external_callback_payload(url)).dom() =~= set!["url"@],
{
    reveal_strlit("url");
    assert("url"@.len() == 3);
}

/// A button press names the chat, the message and the button's callback, and
/// carries the button's payload exactly when there is one.
pub proof fn lemma_send_button_callback_payload_members(
    chat_id: i64,
    message_id: u64,
    callback_id: String,
    payload: Option<String>,
)
    ensures
        ({
            let p = send_button_callback_payload(chat_id, message_id, callback_id, payload);
            &&& json_get(p, "chatId"@) == Some(Json::Int(chat_id as int))
            &&& json_get(p, "messageId"@) == Some(Json::Int(message_id as int))
            &&& json_get(p, "callbackId"@) == Some(Json::Str(callback_id@))
            &&& payload matches Some(t) ==> json_get(p, "payload"@) == Some(Json::Str(t@))
            &&& payload is None ==> json_get(p, "payload"@) is None
        }),
{
    reveal_strlit("chatId");
    reveal_strlit("messageId");
    reveal_strlit("callbackId");
    reveal_strlit("payload");
    assert("chatId"@.len() == 6);
    assert("messageId"@.len() == 9);
    assert("callbackId"@.len() == 10);
    assert("payload"@.len() == 7);
}

/// The control attachment that starts a bot is the event `botStarted`, and
/// carries the start payload exactly when there is one.
pub proof fn lemma_bot_start_attach_members(start_payload: Option<String>)
    ensures
        json_get(bot_start_attach(start_payload), "_type"@) == Some(Json::Str("CONTROL"@)),
        json_get(bot_start_attach(start_payload), "event"@) == Some(Json::Str("botStarted"@)),
        start_payload matches Some(t) ==> json_get(bot_start_attach(start_payload), "startPayload"@) == Some(
            Json::Str(t@),
        ),
        start_payload is None ==> json_get(bot_start_attach(start_payload), "startPayload"@) is None,
{
    reveal_strlit("_type");
    reveal_strlit("event");
    reveal_strlit("startPayload");
    assert("_type"@.len() == 5);
    assert("event"@.len() == 5);
    assert("startPayload"@.len() == 12);
    assert("_type"@[0] != "event"@[0]);
}

/// Opening a web app names the bot, passes the start parameter unless it is
/// missing or blank, and names the chat exactly when one is given.
pub proof fn lemma_open_web_app_payload_members(bot_id: u64, start_param: Option<String>, chat_id: Option<i64>)
    ensures
        ({
            let p = open_web_app_payload(bot_id, start_param, chat_id);
            let given = match start_param {
                Some(t) => trim_spec(t@).len() > 0,
                None => false,
            };
            &&& json_get(p, "botId"@) == Some(Json::Int(bot_id as int))
            &&& given ==> json_get(p, "startParam"@) == Some(Json::Str(start_param->0@))
            &&& !given ==> json_get(p, "startParam"@) is None
            &&& chat_id matches Some(c) ==> json_get(p, "chatId"@) == Some(Json::Int(c as int))
            &&& chat_id is None ==> json_get(p, "chatId"@) is None
        }),
{
    reveal_strlit("botId");
    reveal_strlit("startParam");
    reveal_strlit("chatId");
    assert("botId"@.len() == 5);
    assert("startParam"@.len() == 10);
    assert("chatId"@.len() == 6);
}

} // verus!
