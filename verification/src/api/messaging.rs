//! Requests about messages: sending with its retry rule, reactions, reading,
//! pinning, deleting, editing and media.
use vstd::prelude::*;
use vstd::string::StrSliceExecFns;
use crate::api::{Request, now_millis, min_timestamp_millis, max_timestamp_millis, parse_u64, parse_u64_spec};
use crate::json::{
    Json, JsonValue, insert_opt, opt_str_json, uints_json, json_as_str, json_as_i64, json_of_members, json_get,
    json_of_items, members_of,
};
use crate::text::{contains, contains_spec};

verus! {

/// The member `key` of the extra arguments `args`, or `default`.
pub open spec fn arg_or(args: Map<Seq<char>, Json>, key: Seq<char>, default: Json) -> Json {
    if args.contains_key(key) {
        args[key]
    } else {
        default
    }
}

/// The reply link of a message: present when the argument `replyTo` is a
/// string holding a message id.
pub open spec fn reply_link(args: Map<Seq<char>, Json>) -> Option<Json> {
    if args.contains_key("replyTo"@) {
        match json_as_str(args["replyTo"@]) {
            Some(s) => match parse_u64_spec(s) {
                Some(id) => Some(
                    Json::Object(map!["type"@ => Json::Str("REPLY"@), "messageId"@ => Json::Int(id as int)]),
                ),
                None => None,
            },
            None => None,
        }
    } else {
        None
    }
}

/// The message of a text message: the text when it is not empty; the client
/// id from the argument `cid` when it is an integer, else `-now`; the
/// elements and attachments from the arguments, else none; and the reply
/// link when there is one.
pub open spec fn text_message(text: Seq<char>, args: Map<Seq<char>, Json>, now: i64) -> Json {
    Json::Object(
        insert_opt(
            insert_opt(Map::empty(), "text"@, if text.len() > 0 {
                Some(Json::Str(text))
            } else {
                None
            }).insert(
                "cid"@,
                Json::Int(
                    match (if args.contains_key("cid"@) {
                        json_as_i64(args["cid"@])
                    } else {
                        None
                    }) {
                        Some(n) => n,
                        None => -now,
                    },
                ),
            ).insert("isLive"@, Json::Bool(false)).insert("detectShare"@, Json::Bool(false)).insert(
                "elements"@,
                arg_or(args, "elements"@, Json::Array(Seq::empty())),
            ).insert("attaches"@, arg_or(args, "attaches"@, Json::Array(Seq::empty()))),
            "link"@,
            reply_link(args),
        ),
    )
}

/// The payload that sends `text` to chat `chat_id` at time `now` with the
/// extra arguments `args`; the recipients are notified unless the argument
/// `notify` says otherwise.
pub open spec fn send_message_payload(chat_id: i64, text: Seq<char>, args: Map<Seq<char>, Json>, now: i64) -> Json {
    Json::Object(
        map![
            "chatId"@ => Json::Int(chat_id as int),
            "message"@ => text_message(text, args, now),
            "notify"@ => arg_or(args, "notify"@, Json::Bool(true)),
        ],
    )
}

/// The extra arguments of a message: the given members, or none.
pub open spec fn args_map(args: Option<Vec<(String, JsonValue)>>) -> Map<Seq<char>, Json> {
    match args {
        Some(a) => json_of_members(a@),
        None => Map::empty(),
    }
}

fn arg_or_copy(args: &JsonValue, key: &str, default: JsonValue) -> (res: JsonValue)
    requires
        args@ is Object,
    ensures
        res@ == arg_or(crate::json::members_of(args@), key@, default@),
{
    match args.get(key) {
        Some(v) => v.deep_copy(),
        None => default,
    }
}

/// Sending `text` to chat `chat_id` at time `now`.
pub fn send_message_at(chat_id: i64, text: String, args: Option<Vec<(String, JsonValue)>>, now: i64) -> (res: Request)
    requires
        now > i64::MIN,
    ensures
        res.opcode == 64,
        res.payload@ == send_message_payload(chat_id, text@, args_map(args), now),
{
    let ghost a = args_map(args);
    let args_obj = match args {
        Some(members) => JsonValue::Object(members),
        None => JsonValue::object(),
    };
    assert(args_obj@ == Json::Object(a));
    let text_value = if text.unicode_len() > 0 {
        Some(JsonValue::from_string(text))
    } else {
        None
    };
    let cid = match args_obj.get("cid") {
        Some(c) => match c.as_i64() {
            Some(n) => n,
            None => -now,
        },
        None => -now,
    };
    let elements = arg_or_copy(&args_obj, "elements", JsonValue::from_items(Vec::new()));
    let attaches = arg_or_copy(&args_obj, "attaches", JsonValue::from_items(Vec::new()));
    let link = match args_obj.get("replyTo") {
        Some(r) => match r.as_str() {
            Some(s) => match parse_u64(s) {
                Some(id) => Some(
                    JsonValue::object().with("type", JsonValue::from_str("REPLY")).with(
                        "messageId",
                        JsonValue::from_u64(id),
                    ),
                ),
                None => None,
            },
            None => None,
        },
        None => None,
    };
    let message = JsonValue::object().with_opt("text", text_value).with("cid", JsonValue::from_i64(cid)).with(
        "isLive",
        JsonValue::from_bool(false),
    ).with("detectShare", JsonValue::from_bool(false)).with("elements", elements).with("attaches", attaches).with_opt(
        "link",
        link,
    );
    let notify = arg_or_copy(&args_obj, "notify", JsonValue::from_bool(true));
    let p = JsonValue::object().with("chatId", JsonValue::from_i64(chat_id)).with("message", message).with(
        "notify",
        notify,
    );
    Request { opcode: 64, payload: p }
}

/// Sending `text` to chat `chat_id` now.
pub fn send_message(chat_id: i64, text: String, args: Option<Vec<(String, JsonValue)>>) -> (res: Request)
    ensures
        res.opcode == 64,
        exists|now: i64|
            min_timestamp_millis() < now < max_timestamp_millis() && res.payload@ == #[trigger] send_message_payload(
                chat_id,
                text@,
                args_map(args),
                now,
            ),
{
    let now = now_millis();
    send_message_at(chat_id, text, args, now)
}

/// How an attempt to send a message ended.
pub enum SendOutcome {
    /// The server accepted the message.
    Delivered,
    /// The server refused it; the text is its error written as JSON.
    ApiError(String),
    /// The request failed otherwise.
    OtherError,
}

/// What to do after an attempt to send a message.
#[derive(Debug, PartialEq, Eq, Structural)]
pub enum SendStep {
    /// Stop and hand the attempt's outcome to the caller.
    Finish,
    /// Wait this many milliseconds and send again.
    RetryAfterMillis(u64),
}

/// The most attempts to send one message.
pub open spec fn max_send_attempts() -> u32 {
    60
}

/// Whether a refusal says that the chat is not ready yet.
pub open spec fn is_not_ready(err_text: Seq<char>) -> bool {
    contains_spec(err_text, "not.ready"@) || contains_spec(err_text, "not_ready"@)
}

/// The step after attempt `attempt` of sending a message ended with
/// `outcome`.
pub open spec fn send_step_spec(attempt: u32, outcome: SendOutcome) -> SendStep {
    match outcome {
        SendOutcome::ApiError(t) => if is_not_ready(t@) && attempt + 1 < max_send_attempts() {
            SendStep::RetryAfterMillis(1000)
        } else {
            SendStep::Finish
        },
        _ => SendStep::Finish,
    }
}

/// The rule for sending a message: attempt `attempt` (counting from zero)
/// is sent again a second later when the server refused it because the chat
/// is not ready and it was not the last of the sixty attempts; every other
/// outcome is final.
pub fn send_message_step(attempt: u32, outcome: &SendOutcome) -> (res: SendStep)
    ensures
        res == send_step_spec(attempt, *outcome),
{
    match outcome {
        SendOutcome::ApiError(t) => {
            if (contains(t.as_str(), "not.ready") || contains(t.as_str(), "not_ready")) && attempt < 59 {
                SendStep::RetryAfterMillis(1000)
            } else {
                SendStep::Finish
            }
        },
        _ => SendStep::Finish,
    }
}

/// A message is sent at most sixty times: from the last attempt on, the rule
/// never asks for another.
pub proof fn lemma_send_attempts_bounded(attempt: u32, outcome: SendOutcome, step: SendStep)
    requires
        attempt + 1 >= max_send_attempts(),
        step == send_step_spec(attempt, outcome),
    ensures
        step == SendStep::Finish,
{
}

/// The payload of [`add_reaction`].
pub open spec fn add_reaction_payload(chat_id: i64, message_id: u64, reaction: String) -> Json {
    Json::Object(
        map![
            "chatId"@ => Json::Int(chat_id as int),
            "messageId"@ => Json::Int(message_id as int),
            "reaction"@ => Json::Object(map![
                "reactionType"@ => Json::Str("EMOJI"@),
                "id"@ => Json::Str(reaction@),
            ]),
        ],
    )
}

/// Reacting to message `message_id` of chat `chat_id` with the emoji `reaction`.
pub fn add_reaction(chat_id: i64, message_id: u64, reaction: String) -> (res: Request)
    ensures
        res.opcode == 178,
        res.payload@ == add_reaction_payload(chat_id, message_id, reaction),
{
    let r = JsonValue::object().with("reactionType", JsonValue::from_str("EMOJI")).with(
        "id",
        JsonValue::from_string(reaction),
    );
    let p = JsonValue::object().with("chatId", JsonValue::from_i64(chat_id)).with(
        "messageId",
        JsonValue::from_u64(message_id),
    ).with("reaction", r);
    Request { opcode: 178, payload: p }
}

/// The payload of [`remove_reaction`].
pub open spec fn remove_reaction_payload(chat_id: i64, message_id: u64) -> Json {
    Json::Object(
        map!["chatId"@ => Json::Int(chat_id as int), "messageId"@ => Json::Int(message_id as int)],
    )
}

/// Taking back the account's reaction to message `message_id`.
pub fn remove_reaction(chat_id: i64, message_id: u64) -> (res: Request)
    ensures
        res.opcode == 179,
        res.payload@ == remove_reaction_payload(chat_id, message_id),
{
    let p = JsonValue::object().with("chatId", JsonValue::from_i64(chat_id)).with(
        "messageId",
        JsonValue::from_u64(message_id),
    );
    Request { opcode: 179, payload: p }
}

/// The payload that marks message `message_id` read at time `now`.
pub open spec fn read_message_payload(chat_id: i64, message_id: u64, now: i64) -> Json {
    Json::Object(
        map![
            "type"@ => Json::Str("READ_MESSAGE"@),
            "chatId"@ => Json::Int(chat_id as int),
            "messageId"@ => Json::Int(message_id as int),
            "mark"@ => Json::Int((now as u64) as int),
        ],
    )
}

/// Marking message `message_id` of chat `chat_id` read at time `now`.
pub fn read_message_at(chat_id: i64, message_id: u64, now: i64) -> (res: Request)
    ensures
        res.opcode == 50,
        res.payload@ == read_message_payload(chat_id, message_id, now),
{
    let p = JsonValue::object().with("type", JsonValue::from_str("READ_MESSAGE")).with(
        "chatId",
        JsonValue::from_i64(chat_id),
    ).with("messageId", JsonValue::from_u64(message_id)).with("mark", JsonValue::from_u64(now as u64));
    Request { opcode: 50, payload: p }
}

/// Marking message `message_id` of chat `chat_id` read now.
pub fn read_message(chat_id: i64, message_id: u64) -> (res: Request)
    ensures
        res.opcode == 50,
        exists|now: i64|
            min_timestamp_millis() < now < max_timestamp_millis() && res.payload@ == #[trigger] read_message_payload(
                chat_id,
                message_id,
                now,
            ),
{
    let now = now_millis();
    read_message_at(chat_id, message_id, now)
}

/// The payload of [`pin_message`].
pub open spec fn pin_message_payload(chat_id: i64, message_id: u64, notify_pin: bool) -> Json {
    Json::Object(
        map![
            "chatId"@ => Json::Int(chat_id as int),
            "notifyPin"@ => Json::Bool(notify_pin),
            "pinMessageId"@ => Json::Int(message_id as int),
        ],
    )
}

/// Pinning message `message_id` in chat `chat_id`.
pub fn pin_message(chat_id: i64, message_id: u64, notify_pin: bool) -> (res: Request)
    ensures
        res.opcode == 55,
        res.payload@ == pin_message_payload(chat_id, message_id, notify_pin),
{
    let p = JsonValue::object().with("chatId", JsonValue::from_i64(chat_id)).with(
        "notifyPin",
        JsonValue::from_bool(notify_pin),
    ).with("pinMessageId", JsonValue::from_u64(message_id));
    Request { opcode: 55, payload: p }
}

/// The payload of [`delete_message`].
pub open spec fn delete_message_payload(chat_id: i64, message_id: u64, for_me: bool) -> Json {
    Json::Object(
        map![
            "chatId"@ => Json::Int(chat_id as int),
            "messageIds"@ => Json::Array(seq![Json::Int(message_id as int)]),
            "forMe"@ => Json::Bool(for_me),
        ],
    )
}

/// Deleting one message: the request that deletes the list of that message.
pub fn delete_message(chat_id: i64, message_id: u64, for_me: bool) -> (res: Request)
    ensures
        res.opcode == 66,
        res.payload@ == delete_message_payload(chat_id, message_id, for_me),
{
    let mut ids: Vec<u64> = Vec::new();
    ids.push(message_id);
    assert(ids@ =~= seq![message_id]);
    assert(uints_json(ids@) == Json::Array(seq![Json::Int(message_id as int)])) by {
        assert(Seq::new(ids@.len(), |i: int| Json::Int(ids@[i] as int)) =~= seq![Json::Int(message_id as int)]);
    }
    delete_messages(chat_id, ids, for_me)
}

/// The payload of [`delete_messages`].
pub open spec fn delete_messages_payload(chat_id: i64, message_ids: Vec<u64>, for_me: bool) -> Json {
    Json::Object(
        map![
            "chatId"@ => Json::Int(chat_id as int),
            "messageIds"@ => uints_json(message_ids@),
            "forMe"@ => Json::Bool(for_me),
        ],
    )
}

/// Deleting messages `message_ids` of chat `chat_id`, for the account only or
/// for everyone.
pub fn delete_messages(chat_id: i64, message_ids: Vec<u64>, for_me: bool) -> (res: Request)
    ensures
        res.opcode == 66,
        res.payload@ == delete_messages_payload(chat_id, message_ids, for_me),
{
    let p = JsonValue::object().with("chatId", JsonValue::from_i64(chat_id)).with(
        "messageIds",
        JsonValue::from_u64s(&message_ids),
    ).with("forMe", JsonValue::from_bool(for_me));
    Request { opcode: 66, payload: p }
}

/// The model of an optional list of values: the list, or none.
pub open spec fn items_or_empty(o: Option<Vec<JsonValue>>) -> Json {
    match o {
        Some(v) => Json::Array(json_of_items(v@)),
        None => Json::Array(Seq::empty()),
    }
}

/// The payload of [`edit_message`].
pub open spec fn edit_message_payload(
    chat_id: i64,
    message_id: u64,
    text: String,
    attaches: Option<Vec<JsonValue>>,
    elements: Option<Vec<JsonValue>>,
) -> Json {
    Json::Object(
        map![
            "chatId"@ => Json::Int(chat_id as int),
            "messageId"@ => Json::Int(message_id as int),
            "text"@ => Json::Str(text@),
            "elements"@ => items_or_empty(elements),
            "attaches"@ => items_or_empty(attaches),
        ],
    )
}

/// Replacing the text, elements and attachments of message `message_id`.
pub fn edit_message(
    chat_id: i64,
    message_id: u64,
    text: String,
    attaches: Option<Vec<JsonValue>>,
    elements: Option<Vec<JsonValue>>,
) -> (res: Request)
    ensures
        res.opcode == 67,
        res.payload@ == edit_message_payload(chat_id, message_id, text, attaches, elements),
{
    let ghost el = items_or_empty(elements);
    let ghost at = items_or_empty(attaches);
    let elements = match elements {
        Some(v) => JsonValue::from_items(v),
        None => JsonValue::from_items(Vec::new()),
    };
    let attaches = match attaches {
        Some(v) => JsonValue::from_items(v),
        None => JsonValue::from_items(Vec::new()),
    };
    assert(elements@ == el);
    assert(attaches@ == at);
    let p = JsonValue::object().with("chatId", JsonValue::from_i64(chat_id)).with(
        "messageId",
        JsonValue::from_u64(message_id),
    ).with("text", JsonValue::from_string(text)).with("elements", elements).with("attaches", attaches);
    Request { opcode: 67, payload: p }
}

/// The payload of [`get_video_by_id`].
pub open spec fn get_video_by_id_payload(chat_id: i64, message_id: u64, video_id: i64, token: Option<String>) -> Json {
    Json::Object(
        insert_opt(
            map![
                "chatId"@ => Json::Int(chat_id as int),
                "messageId"@ => Json::Int(message_id as int),
                "videoId"@ => Json::Int(video_id as int),
            ],
            "token"@,
            opt_str_json(token),
        ),
    )
}

/// The video `video_id` of message `message_id`, with the access token when given.
pub fn get_video_by_id(chat_id: i64, message_id: u64, video_id: i64, token: Option<String>) -> (res: Request)
    ensures
        res.opcode == 83,
        res.payload@ == get_video_by_id_payload(chat_id, message_id, video_id, token),
{
    let p = JsonValue::object().with("chatId", JsonValue::from_i64(chat_id)).with(
        "messageId",
        JsonValue::from_u64(message_id),
    ).with("videoId", JsonValue::from_i64(video_id)).with_opt("token", JsonValue::from_opt_string(token));
    Request { opcode: 83, payload: p }
}

/// The payload of [`get_file_by_id`].
pub open spec fn get_file_by_id_payload(chat_id: i64, message_id: u64, file_id: i64) -> Json {
    Json::Object(
        map![
            "chatId"@ => Json::Int(chat_id as int),
            "messageId"@ => Json::Int(message_id as int),
            "fileId"@ => Json::Int(file_id as int),
        ],
    )
}

/// The file `file_id` of message `message_id`.
pub fn get_file_by_id(chat_id: i64, message_id: u64, file_id: i64) -> (res: Request)
    ensures
        res.opcode == 88,
        res.payload@ == get_file_by_id_payload(chat_id, message_id, file_id),
{
    let p = JsonValue::object().with("chatId", JsonValue::from_i64(chat_id)).with(
        "messageId",
        JsonValue::from_u64(message_id),
    ).with("fileId", JsonValue::from_i64(file_id));
    Request { opcode: 88, payload: p }
}

/// The payload of [`request_transcription`].
pub open spec fn request_transcription_payload(chat_id: i64, message_id: u64, media_id: u64) -> Json {
    Json::Object(
        map![
            "chatId"@ => Json::Int(chat_id as int),
            "messageId"@ => Json::Int(message_id as int),
            "mediaId"@ => Json::Int(media_id as int),
        ],
    )
}

/// The transcription of the voice or video message `media_id`.
pub fn request_transcription(chat_id: i64, message_id: u64, media_id: u64) -> (res: Request)
    ensures
        res.opcode == 202,
        res.payload@ == request_transcription_payload(chat_id, message_id, media_id),
{
    let p = JsonValue::object().with("chatId", JsonValue::from_i64(chat_id)).with(
        "messageId",
        JsonValue::from_u64(message_id),
    ).with("mediaId", JsonValue::from_u64(media_id));
    Request { opcode: 202, payload: p }
}

/// The options of a history request. Each value but `from_time` goes into
/// the request as it is; `from_time` is the time to read from, the request's
/// own time when there is none.
#[derive(Debug)]
pub struct FetchHistoryOptions {
    pub forward: JsonValue,
    pub backward: JsonValue,
    pub backward_time: JsonValue,
    pub forward_time: JsonValue,
    pub get_chat: JsonValue,
    pub from_time: Option<u64>,
    pub item_type: JsonValue,
    pub get_messages: JsonValue,
    pub interactive: JsonValue,
}

/// The payload that asks for the history of chat `chat_id` with `opts`, at
/// time `now`.
pub open spec fn fetch_history_payload(chat_id: i64, opts: FetchHistoryOptions, now: i64) -> Json {
    Json::Object(
        map![
            "chatId"@ => Json::Int(chat_id as int),
            "forward"@ => opts.forward@,
            "backward"@ => opts.backward@,
            "backwardTime"@ => opts.backward_time@,
            "forwardTime"@ => opts.forward_time@,
            "getChat"@ => opts.get_chat@,
            "from"@ => Json::Int(
                match opts.from_time {
                    Some(t) => t as int,
                    None => (now as u64) as int,
                },
            ),
            "itemType"@ => opts.item_type@,
            "getMessages"@ => opts.get_messages@,
            "interactive"@ => opts.interactive@,
        ],
    )
}

/// Asking for the history of chat `chat_id` with `opts` at time `now`.
pub fn fetch_history_at(chat_id: i64, opts: FetchHistoryOptions, now: i64) -> (res: Request)
    ensures
        res.opcode == 49,
        res.payload@ == fetch_history_payload(chat_id, opts, now),
{
    let from = match opts.from_time {
        Some(t) => t,
        None => now as u64,
    };
    let p = JsonValue::object().with("chatId", JsonValue::from_i64(chat_id)).with("forward", opts.forward).with(
        "backward",
        opts.backward,
    ).with("backwardTime", opts.backward_time).with("forwardTime", opts.forward_time).with(
        "getChat",
        opts.get_chat,
    ).with("from", JsonValue::from_u64(from)).with("itemType", opts.item_type).with(
        "getMessages",
        opts.get_messages,
    ).with("interactive", opts.interactive);
    Request { opcode: 49, payload: p }
}

/// Asking for the history of chat `chat_id` with `opts`, now.
pub fn fetch_history(chat_id: i64, opts: FetchHistoryOptions) -> (res: Request)
    ensures
        res.opcode == 49,
        exists|now: i64|
            min_timestamp_millis() < now < max_timestamp_millis() && res.payload@ == #[trigger] fetch_history_payload(
                chat_id,
                opts,
                now,
            ),
{
    let now = now_millis();
    fetch_history_at(chat_id, opts, now)
}

/// A text message goes to chat `chat_id` and carries, under their own
/// names, what the arguments `args` give: the attachments and elements of
/// the arguments when they have them (none otherwise), the client id `cid`
/// when it is an integer (`-now` otherwise), and the reply link when
/// `replyTo` is a string holding a message id. The text is sent when it is
/// not empty; the message is neither live nor a share; the recipients are
/// notified unless the argument `notify` says otherwise.
pub proof fn lemma_send_message_payload_members(chat_id: i64, text: Seq<char>, args: Map<Seq<char>, Json>, now: i64)
    ensures
        ({
            let p = send_message_payload(chat_id, text, args, now);
            let m = json_get(p, "message"@)->0;
            &&& json_get(p, "chatId"@) == Some(Json::Int(chat_id as int))
            &&& json_get(p, "message"@) is Some
            &&& args.contains_key("attaches"@) ==> json_get(m, "attaches"@) == Some(args["attaches"@])
            &&& !args.contains_key("attaches"@) ==> json_get(m, "attaches"@) == Some(Json::Array(Seq::empty()))
            &&& args.contains_key("elements"@) ==> json_get(m, "elements"@) == Some(args["elements"@])
            &&& !args.contains_key("elements"@) ==> json_get(m, "elements"@) == Some(Json::Array(Seq::empty()))
            &&& args.contains_key("notify"@) ==> json_get(p, "notify"@) == Some(args["notify"@])
            &&& !args.contains_key("notify"@) ==> json_get(p, "notify"@) == Some(Json::Bool(true))
            &&& text.len() > 0 ==> json_get(m, "text"@) == Some(Json::Str(text))
            &&& text.len() == 0 ==> json_get(m, "text"@) is None
            &&& (args.contains_key("cid"@) && args["cid"@] is Int && i64::MIN <= args["cid"@]->Int_0 <= i64::MAX)
                ==> json_get(m, "cid"@) == Some(args["cid"@])
            &&& !(args.contains_key("cid"@) && args["cid"@] is Int && i64::MIN <= args["cid"@]->Int_0 <= i64::MAX)
                ==> json_get(m, "cid"@) == Some(Json::Int(-now))
            &&& json_get(m, "isLive"@) == Some(Json::Bool(false))
            &&& json_get(m, "detectShare"@) == Some(Json::Bool(false))
            &&& (args.contains_key("replyTo"@) && args["replyTo"@] is Str && parse_u64_spec(args["replyTo"@]->Str_0)
                is Some) ==> json_get(m, "link"@) == Some(Json::Object(map![
                    "type"@ => Json::Str("REPLY"@),
                    "messageId"@ => Json::Int(parse_u64_spec(args["replyTo"@]->Str_0)->0 as int),
                ]))
            &&& !(args.contains_key("replyTo"@) && args["replyTo"@] is Str && parse_u64_spec(args["replyTo"@]->Str_0)
                is Some) ==> json_get(m, "link"@) is None
        }),
{
    reveal_strlit("chatId");
    reveal_strlit("message");
    reveal_strlit("notify");
    reveal_strlit("text");
    reveal_strlit("cid");
    reveal_strlit("isLive");
    reveal_strlit("detectShare");
    reveal_strlit("elements");
    reveal_strlit("attaches");
    reveal_strlit("link");
    reveal_strlit("type");
    reveal_strlit("messageId");
    reveal_strlit("replyTo");
    assert("chatId"@.len() == 6);
    assert("message"@.len() == 7);
    assert("notify"@.len() == 6);
    assert("text"@.len() == 4);
    assert("cid"@.len() == 3);
    assert("isLive"@.len() == 6);
    assert("detectShare"@.len() == 11);
    assert("elements"@.len() == 8);
    assert("attaches"@.len() == 8);
    assert("link"@.len() == 4);
    assert("type"@.len() == 4);
    assert("messageId"@.len() == 9);
    assert("replyTo"@.len() == 7);
    assert("chatId"@[0] != "notify"@[0]);
    assert("chatId"@[0] != "isLive"@[0]);
    assert("message"@[0] != "replyTo"@[0]);
    assert("notify"@[0] != "isLive"@[0]);
    assert("text"@[0] != "link"@[0]);
    assert("text"@[1] != "type"@[1]);
    assert("elements"@[0] != "attaches"@[0]);
    assert("link"@[0] != "type"@[0]);
}

/// A history request sends each option under its own name: `forward`,
/// `backward`, `backwardTime`, `forwardTime`, `getChat`, `itemType`,
/// `getMessages` and `interactive` as given, with the chat's id, and the
/// time to read from, `now` when the options name none.
pub proof fn lemma_fetch_history_payload_members(chat_id: i64, opts: FetchHistoryOptions, now: i64)
    ensures
        ({
            let p = fetch_history_payload(chat_id, opts, now);
            &&& json_get(p, "chatId"@) == Some(Json::Int(chat_id as int))
            &&& json_get(p, "forward"@) == Some(opts.forward@)
            &&& json_get(p, "backward"@) == Some(opts.backward@)
            &&& json_get(p, "backwardTime"@) == Some(opts.backward_time@)
            &&& json_get(p, "forwardTime"@) == Some(opts.forward_time@)
            &&& json_get(p, "getChat"@) == Some(opts.get_chat@)
            &&& json_get(p, "itemType"@) == Some(opts.item_type@)
            &&& json_get(p, "getMessages"@) == Some(opts.get_messages@)
            &&& json_get(p, "interactive"@) == Some(opts.interactive@)
            &&& opts.from_time matches Some(t) ==> json_get(p, "from"@) == Some(Json::Int(t as int))
            &&& opts.from_time is None ==> json_get(p, "from"@) == Some(Json::Int((now as u64) as int))
        }),
{
    reveal_strlit("chatId");
    reveal_strlit("forward");
    reveal_strlit("backward");
    reveal_strlit("backwardTime");
    reveal_strlit("forwardTime");
    reveal_strlit("getChat");
    reveal_strlit("from");
    reveal_strlit("itemType");
    reveal_strlit("getMessages");
    reveal_strlit("interactive");
    assert("chatId"@.len() == 6);
    assert("forward"@.len() == 7);
    assert("backward"@.len() == 8);
    assert("backwardTime"@.len() == 12);
    assert("forwardTime"@.len() == 11);
    assert("getChat"@.len() == 7);
    assert("from"@.len() == 4);
    assert("itemType"@.len() == 8);
    assert("getMessages"@.len() == 11);
    assert("interactive"@.len() == 11);
    assert("forward"@[0] != "getChat"@[0]);
    assert("backward"@[0] != "itemType"@[0]);
    assert("forwardTime"@[0] != "getMessages"@[0]);
    assert("forwardTime"@[0] != "interactive"@[0]);
    assert("getMessages"@[0] != "interactive"@[0]);
}

/// The request of [`add_reaction`] carries exactly these members, each under
/// its own name, as its arguments give them.
pub proof fn lemma_add_reaction_payload_members(chat_id: i64, message_id: u64, reaction: String)
    ensures
        json_get(add_reaction_payload(chat_id, message_id, reaction), "chatId"@) == Some(Json::Int(chat_id as int)),
        json_get(add_reaction_payload(chat_id, message_id, reaction), "messageId"@) == Some(Json::Int(message_id as int)),
        json_get(add_reaction_payload(chat_id, message_id, reaction), "reaction"@) == Some(Json::Object(map![ "reactionType"@ => Json::Str("EMOJI"@), "id"@ => Json::Str(reaction@), ])),
        members_of(add_reaction_payload(chat_id, message_id, reaction)).dom() =~= set!["chatId"@, "messageId"@, "reaction"@],
{
    reveal_strlit("chatId");
    reveal_strlit("messageId");
    reveal_strlit("reaction");
    assert("chatId"@.len() == 6);
    assert("messageId"@.len() == 9);
    assert("reaction"@.len() == 8);
}

/// The request of [`remove_reaction`] carries exactly these members, each under
/// its own name, as its arguments give them.
pub proof fn lemma_remove_reaction_payload_members(chat_id: i64, message_id: u64)
    ensures
        json_get(remove_reaction_payload(chat_id, message_id), "chatId"@) == Some(Json::Int(chat_id as int)),
        json_get(remove_reaction_payload(chat_id, message_id), "messageId"@) == Some(Json::Int(message_id as int)),
        members_of(remove_reaction_payload(chat_id, message_id)).dom() =~= set!["chatId"@, "messageId"@],
{
    reveal_strlit("chatId");
    reveal_strlit("messageId");
    assert("chatId"@.len() == 6);
    assert("messageId"@.len() == 9);
}

/// The request of [`pin_message`] carries exactly these members, each under
/// its own name, as its arguments give them.
pub proof fn lemma_pin_message_payload_members(chat_id: i64, message_id: u64, notify_pin: bool)
    ensures
        json_get(pin_message_payload(chat_id, message_id, notify_pin), "chatId"@) == Some(Json::Int(chat_id as int)),
        json_get(pin_message_payload(chat_id, message_id, notify_pin), "notifyPin"@) == Some(Json::Bool(notify_pin)),
        json_get(pin_message_payload(chat_id, message_id, notify_pin), "pinMessageId"@) == Some(Json::Int(message_id as int)),
        members_of(pin_message_payload(chat_id, message_id, notify_pin)).dom() =~= set!["chatId"@, "notifyPin"@, "pinMessageId"@],
{
    reveal_strlit("chatId");
    reveal_strlit("notifyPin");
    reveal_strlit("pinMessageId");
    assert("chatId"@.len() == 6);
    assert("notifyPin"@.len() == 9);
    assert("pinMessageId"@.len() == 12);
}

/// The request of [`delete_message`] carries exactly these members, each under
/// its own name, as its arguments give them.
pub proof fn lemma_delete_message_payload_members(chat_id: i64, message_id: u64, for_me: bool)
    ensures
        json_get(delete_message_payload(chat_id, message_id, for_me), "chatId"@) == Some(Json::Int(chat_id as int)),
        json_get(delete_message_payload(chat_id, message_id, for_me), "messageIds"@) == Some(Json::Array(seq![Json::Int(message_id as int)])),
        json_get(delete_message_payload(chat_id, message_id, for_me), "forMe"@) == Some(Json::Bool(for_me)),
        members_of(delete_message_payload(chat_id, message_id, for_me)).dom() =~= set!["chatId"@, "messageIds"@, "forMe"@],
{
    reveal_strlit("chatId");
    reveal_strlit("messageIds");
    reveal_strlit("forMe");
    assert("chatId"@.len() == 6);
    assert("messageIds"@.len() == 10);
    assert("forMe"@.len() == 5);
}

/// The request of [`delete_messages`] carries exactly these members, each under
/// its own name, as its arguments give them.
pub proof fn lemma_delete_messages_payload_members(chat_id: i64, message_ids: Vec<u64>, for_me: bool)
    ensures
        json_get(delete_messages_payload(chat_id, message_ids, for_me), "chatId"@) == Some(Json::Int(chat_id as int)),
        json_get(delete_messages_payload(chat_id, message_ids, for_me), "messageIds"@) == Some(uints_json(message_ids@)),
        json_get(delete_messages_payload(chat_id, message_ids, for_me), "forMe"@) == Some(Json::Bool(for_me)),
        members_of(delete_messages_payload(chat_id, message_ids, for_me)).dom() =~= set!["chatId"@, "messageIds"@, "forMe"@],
{
    reveal_strlit("chatId");
    reveal_strlit("messageIds");
    reveal_strlit("forMe");
    assert("chatId"@.len() == 6);
    assert("messageIds"@.len() == 10);
    assert("forMe"@.len() == 5);
}

/// The request of [`edit_message`] carries exactly these members, each under
/// its own name, as its arguments give them.
pub proof fn lemma_edit_message_payload_members(
    chat_id: i64,
    message_id: u64,
    text: String,
    attaches: Option<Vec<JsonValue>>,
    elements: Option<Vec<JsonValue>>,
)
    ensures
        json_get(edit_message_payload(chat_id, message_id, text, attaches, elements), "chatId"@) == Some(Json::Int(chat_id as int)),
        json_get(edit_message_payload(chat_id, message_id, text, attaches, elements), "messageId"@) == Some(Json::Int(message_id as int)),
        json_get(edit_message_payload(chat_id, message_id, text, attaches, elements), "text"@) == Some(Json::Str(text@)),
        json_get(edit_message_payload(chat_id, message_id, text, attaches, elements), "elements"@) == Some(items_or_empty(elements)),
        json_get(edit_message_payload(chat_id, message_id, text, attaches, elements), "attaches"@) == Some(items_or_empty(attaches)),
        members_of(edit_message_payload(chat_id, message_id, text, attaches, elements)).dom() =~= set!["chatId"@, "messageId"@, "text"@, "elements"@, "attaches"@],
{
    reveal_strlit("chatId");
    reveal_strlit("messageId");
    reveal_strlit("text");
    reveal_strlit("elements");
    reveal_strlit("attaches");
    assert("chatId"@.len() == 6);
    assert("messageId"@.len() == 9);
    assert("text"@.len() == 4);
    assert("elements"@.len() == 8);
    assert("attaches"@.len() == 8);
    assert("elements"@[0] != "attaches"@[0]);
}

/// The request of [`get_file_by_id`] carries exactly these members, each under
/// its own name, as its arguments give them.
pub proof fn lemma_get_file_by_id_payload_members(chat_id: i64, message_id: u64, file_id: i64)
    ensures
        json_get(get_file_by_id_payload(chat_id, message_id, file_id), "chatId"@) == Some(Json::Int(chat_id as int)),
        json_get(get_file_by_id_payload(chat_id, message_id, file_id), "messageId"@) == Some(Json::Int(message_id as int)),
        json_get(get_file_by_id_payload(chat_id, message_id, file_id), "fileId"@) == Some(Json::Int(file_id as int)),
        members_of(get_file_by_id_payload(chat_id, message_id, file_id)).dom() =~= set!["chatId"@, "messageId"@, "fileId"@],
{
    reveal_strlit("chatId");
    reveal_strlit("messageId");
    reveal_strlit("fileId");
    assert("chatId"@.len() == 6);
    assert("messageId"@.len() == 9);
    assert("fileId"@.len() == 6);
    assert("chatId"@[0] != "fileId"@[0]);
}

/// The request of [`request_transcription`] carries exactly these members, each under
/// its own name, as its arguments give them.
pub proof fn lemma_request_transcription_payload_members(chat_id: i64, message_id: u64, media_id: u64)
    ensures
        json_get(request_transcription_payload(chat_id, message_id, media_id), "chatId"@) == Some(Json::Int(chat_id as int)),
        json_get(request_transcription_payload(chat_id, message_id, media_id), "messageId"@) == Some(Json::Int(message_id as int)),
        json_get(request_transcription_payload(chat_id, message_id, media_id), "mediaId"@) == Some(Json::Int(media_id as int)),
        members_of(request_transcription_payload(chat_id, message_id, media_id)).dom() =~= set!["chatId"@, "messageId"@, "mediaId"@],
{
    reveal_strlit("chatId");
    reveal_strlit("messageId");
    reveal_strlit("mediaId");
    assert("chatId"@.len() == 6);
    assert("messageId"@.len() == 9);
    assert("mediaId"@.len() == 7);
}

/// Marking a message read names the chat and the message, with the time of
/// reading as the mark.
pub proof fn lemma_read_message_payload_members(chat_id: i64, message_id: u64, now: i64)
    ensures
        json_get(read_message_payload(chat_id, message_id, now), "type"@) == Some(Json::Str("READ_MESSAGE"@)),
        json_get(read_message_payload(chat_id, message_id, now), "chatId"@) == Some(Json::Int(chat_id as int)),
        json_get(read_message_payload(chat_id, message_id, now), "messageId"@) == Some(Json::Int(message_id as int)),
        json_get(read_message_payload(chat_id, message_id, now), "mark"@) == Some(Json::Int((now as u64) as int)),
        0 <= now ==> json_get(read_message_payload(chat_id, message_id, now), "mark"@) == Some(Json::Int(now as int)),
{
    reveal_strlit("type");
    reveal_strlit("chatId");
    reveal_strlit("messageId");
    reveal_strlit("mark");
    assert("type"@.len() == 4);
    assert("chatId"@.len() == 6);
    assert("messageId"@.len() == 9);
    assert("mark"@.len() == 4);
    assert("type"@[0] != "mark"@[0]);
}

/// A video request names the chat, the message and the video, and carries
/// the access token exactly when there is one.
pub proof fn lemma_get_video_by_id_payload_members(chat_id: i64, message_id: u64, video_id: i64, token: Option<String>)
    ensures
        ({
            let p = get_video_by_id_payload(chat_id, message_id, video_id, token);
            &&& json_get(p, "chatId"@) == Some(Json::Int(chat_id as int))
            &&& json_get(p, "messageId"@) == Some(Json::Int(message_id as int))
            &&& json_get(p, "videoId"@) == Some(Json::Int(video_id as int))
            &&& token matches Some(t) ==> json_get(p, "token"@) == Some(Json::Str(t@))
            &&& token is None ==> json_get(p, "token"@) is None
        }),
{
    reveal_strlit("chatId");
    reveal_strlit("messageId");
    reveal_strlit("videoId");
    reveal_strlit("token");
    assert("chatId"@.len() == 6);
    assert("messageId"@.len() == 9);
    assert("videoId"@.len() == 7);
    assert("token"@.len() == 5);
}

/// The retry rule of sending a message: only a refusal whose text says that
/// the chat is not ready (`not.ready` or `not_ready`) is sent again, a
/// second later, and only after one of the first 59 attempts; so no
/// message is sent more than 60 times, and every other outcome is final.
pub proof fn lemma_send_retry_rule(attempt: u32, outcome: SendOutcome)
    ensures
        !(outcome is ApiError) ==> send_step_spec(attempt, outcome) == SendStep::Finish,
        outcome matches SendOutcome::ApiError(t) ==> (send_step_spec(attempt, outcome) is RetryAfterMillis <==> (
            (contains_spec(t@, "not.ready"@) || contains_spec(t@, "not_ready"@)) && attempt < 59)),
        send_step_spec(attempt, outcome) is RetryAfterMillis ==> send_step_spec(attempt, outcome)
            == SendStep::RetryAfterMillis(1000),
{
}

} // verus!
