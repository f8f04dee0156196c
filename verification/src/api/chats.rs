//! Requests about chats and groups: search, membership, settings,
//! administrators and folders.
use vstd::prelude::*;
use vstd::string::StrSliceExecFns;
use crate::api::{Request, now_millis, min_timestamp_millis, max_timestamp_millis, i64_to_string, decimal_of};
use crate::json::{
    Json, JsonValue, insert_opt, opt_str_json, ints_json, strs_json, json_of_members, json_of_items, json_get, members_of,
};
use crate::text::{trim, trim_spec, is_blank};

verus! {

/// The payload of [`search_public`].
pub open spec fn search_public_payload(query: String, count: i32, search_type: String) -> Json {
    Json::Object(
        map![
            "query"@ => Json::Str(query@),
            "count"@ => Json::Int(count as int),
            "type"@ => Json::Str(search_type@),
        ],
    )
}

/// Public chats and channels that match `query`.
pub fn search_public(query: String, count: i32, search_type: String) -> (res: Request)
    ensures
        res.opcode == 60,
        res.payload@ == search_public_payload(query, count, search_type),
{
    let p = JsonValue::object().with("query", JsonValue::from_string(query)).with(
        "count",
        JsonValue::from_i64(count as i64),
    ).with("type", JsonValue::from_string(search_type));
    Request { opcode: 60, payload: p }
}

/// The payload of [`search_msg`].
pub open spec fn search_msg_payload(query: String, count: i32, marker: Option<String>) -> Json {
    Json::Object(
        insert_opt(
            map!["query"@ => Json::Str(query@), "count"@ => Json::Int(count as int)],
            "marker"@,
            opt_str_json(marker),
        ),
    )
}

/// Messages that match `query`, from `marker` on when one is given.
pub fn search_msg(query: String, count: i32, marker: Option<String>) -> (res: Request)
    ensures
        res.opcode == 68,
        res.payload@ == search_msg_payload(query, count, marker),
{
    let p = JsonValue::object().with("query", JsonValue::from_string(query)).with(
        "count",
        JsonValue::from_i64(count as i64),
    ).with_opt("marker", JsonValue::from_opt_string(marker));
    Request { opcode: 68, payload: p }
}

/// The payload of [`get_chats`].
pub open spec fn get_chats_payload(chat_ids: Vec<i64>) -> Json {
    Json::Object(map!["chatIds"@ => ints_json(chat_ids@)])
}

/// The chats with the given ids.
pub fn get_chats(chat_ids: Vec<i64>) -> (res: Request)
    ensures
        res.opcode == 48,
        res.payload@ == get_chats_payload(chat_ids),
{
    Request { opcode: 48, payload: JsonValue::object().with("chatIds", JsonValue::from_i64s(&chat_ids)) }
}

/// The ids of an optional list.
pub open spec fn opt_ids(o: Option<Vec<i64>>) -> Option<Seq<i64>> {
    match o {
        Some(v) => Some(v@),
        None => None,
    }
}

/// The payload that creates group `title` at time `now`: a message whose
/// client id is `now` with one control attachment naming the participants
/// (none when not given); the group is announced unless `notify` says not.
pub open spec fn create_group_payload(
    title: Seq<char>,
    participant_ids: Option<Seq<i64>>,
    notify: Option<bool>,
    now: i64,
) -> Json {
    Json::Object(
        map![
            "message"@ => Json::Object(map![
                "cid"@ => Json::Int(now as int),
                "attaches"@ => Json::Array(seq![Json::Object(map![
                    "_type"@ => Json::Str("CONTROL"@),
                    "event"@ => Json::Str("new"@),
                    "chatType"@ => Json::Str("CHAT"@),
                    "title"@ => Json::Str(title),
                    "userIds"@ => ints_json(match participant_ids {
                        Some(ids) => ids,
                        None => Seq::empty(),
                    }),
                ])]),
            ]),
            "notify"@ => Json::Bool(match notify {
                Some(b) => b,
                None => true,
            }),
        ],
    )
}

/// Creating group `title` at time `now`.
pub fn create_group_at(title: String, participant_ids: Option<Vec<i64>>, notify: Option<bool>, now: i64) -> (res:
    Request)
    ensures
        res.opcode == 64,
        res.payload@ == create_group_payload(
            title@,
            opt_ids(participant_ids),
            notify,
            now,
        ),
{
    let ghost ids_model = match &participant_ids {
        Some(v) => v@,
        None => Seq::<i64>::empty(),
    };
    let ids = match participant_ids {
        Some(v) => v,
        None => Vec::new(),
    };
    assert(ids@ == ids_model);
    let attach = JsonValue::object().with("_type", JsonValue::from_str("CONTROL")).with(
        "event",
        JsonValue::from_str("new"),
    ).with("chatType", JsonValue::from_str("CHAT")).with("title", JsonValue::from_string(title)).with(
        "userIds",
        JsonValue::from_i64s(&ids),
    );
    let ghost attach_model = attach@;
    let mut attaches: Vec<JsonValue> = Vec::new();
    attaches.push(attach);
    let attaches = JsonValue::from_items(attaches);
    assert(attaches@ == Json::Array(seq![attach_model])) by {
        reveal_with_fuel(json_of_items, 2);
        assert(seq![attach_model] =~= Seq::empty().push(attach_model));
    }
    let message = JsonValue::object().with("cid", JsonValue::from_i64(now)).with("attaches", attaches);
    let notify_value = match notify {
        Some(b) => b,
        None => true,
    };
    let p = JsonValue::object().with("message", message).with("notify", JsonValue::from_bool(notify_value));
    Request { opcode: 64, payload: p }
}

/// Creating group `title` now.
pub fn create_group(title: String, participant_ids: Option<Vec<i64>>, notify: Option<bool>) -> (res: Request)
    ensures
        res.opcode == 64,
        exists|now: i64|
            min_timestamp_millis() < now < max_timestamp_millis() && res.payload@ == #[trigger] create_group_payload(
                title@,
                opt_ids(participant_ids),
                notify,
                now,
            ),
{
    let now = now_millis();
    create_group_at(title, participant_ids, notify, now)
}

/// The payload of a request about the history of chat `chat_id` up to
/// `last_event_time` (`now` when not given), for everyone or only for the
/// account (the default).
pub open spec fn history_payload(chat_id: i64, last_event_time: Option<i64>, for_all: Option<bool>, now: i64) -> Json {
    Json::Object(
        map![
            "chatId"@ => Json::Int(chat_id as int),
            "lastEventTime"@ => Json::Int(match last_event_time {
                Some(t) => t as int,
                None => now as int,
            }),
            "forAll"@ => Json::Bool(match for_all {
                Some(b) => b,
                None => false,
            }),
        ],
    )
}

fn history_request(opcode: u16, chat_id: i64, last_event_time: Option<i64>, for_all: Option<bool>, now: i64) -> (res:
    Request)
    ensures
        res.opcode == opcode,
        res.payload@ == history_payload(chat_id, last_event_time, for_all, now),
{
    let t = match last_event_time {
        Some(t) => t,
        None => now,
    };
    let f = match for_all {
        Some(b) => b,
        None => false,
    };
    let p = JsonValue::object().with("chatId", JsonValue::from_i64(chat_id)).with(
        "lastEventTime",
        JsonValue::from_i64(t),
    ).with("forAll", JsonValue::from_bool(f));
    Request { opcode, payload: p }
}

/// Deleting chat `chat_id` up to `last_event_time`, or up to now when not given.
pub fn delete_chat(chat_id: i64, last_event_time: Option<i64>, for_all: Option<bool>) -> (res: Request)
    ensures
        res.opcode == 52,
        exists|now: i64|
            min_timestamp_millis() < now < max_timestamp_millis() && res.payload@ == #[trigger] history_payload(
                chat_id,
                last_event_time,
                for_all,
                now,
            ),
{
    let now = now_millis();
    history_request(52, chat_id, last_event_time, for_all, now)
}

/// Clearing the history of chat `chat_id` up to `last_event_time`, or up to
/// now when not given.
pub fn clear_chat_history(chat_id: i64, last_event_time: Option<i64>, for_all: Option<bool>) -> (res: Request)
    ensures
        res.opcode == 54,
        exists|now: i64|
            min_timestamp_millis() < now < max_timestamp_millis() && res.payload@ == #[trigger] history_payload(
                chat_id,
                last_event_time,
                for_all,
                now,
            ),
{
    let now = now_millis();
    history_request(54, chat_id, last_event_time, for_all, now)
}

/// The payload of [`leave_group`].
pub open spec fn leave_group_payload(chat_id: i64) -> Json {
    Json::Object(map!["chatId"@ => Json::Int(chat_id as int)])
}

/// Leaving group `chat_id`.
pub fn leave_group(chat_id: i64) -> (res: Request)
    ensures
        res.opcode == 58,
        res.payload@ == leave_group_payload(chat_id),
{
    Request { opcode: 58, payload: JsonValue::object().with("chatId", JsonValue::from_i64(chat_id)) }
}

/// The payload of [`change_group_profile`].
pub open spec fn change_group_profile_payload(chat_id: i64, title: Option<String>, description: Option<String>) -> Json {
    Json::Object(
        insert_opt(
            insert_opt(map!["chatId"@ => Json::Int(chat_id as int)], "theme"@, opt_str_json(title)),
            "description"@,
            opt_str_json(description),
        ),
    )
}

/// Changing the title (sent as `theme`) and the description of group
/// `chat_id`; only what is given changes.
pub fn change_group_profile(chat_id: i64, title: Option<String>, description: Option<String>) -> (res: Request)
    ensures
        res.opcode == 55,
        res.payload@ == change_group_profile_payload(chat_id, title, description),
{
    let p = JsonValue::object().with("chatId", JsonValue::from_i64(chat_id)).with_opt(
        "theme",
        JsonValue::from_opt_string(title),
    ).with_opt("description", JsonValue::from_opt_string(description));
    Request { opcode: 55, payload: p }
}

/// The payload of [`join_group`].
pub open spec fn join_group_payload(link: String) -> Json {
    Json::Object(map!["link"@ => Json::Str(link@)])
}

/// Joining the group of invitation link `link`.
pub fn join_group(link: String) -> (res: Request)
    ensures
        res.opcode == 57,
        res.payload@ == join_group_payload(link),
{
    Request { opcode: 57, payload: JsonValue::object().with("link", JsonValue::from_string(link)) }
}

/// The payload of [`resolve_group_by_link`].
pub open spec fn resolve_group_by_link_payload(link: String) -> Json {
    Json::Object(map!["link"@ => Json::Str(link@)])
}

/// The group of invitation link `link`.
pub fn resolve_group_by_link(link: String) -> (res: Request)
    ensures
        res.opcode == 89,
        res.payload@ == resolve_group_by_link_payload(link),
{
    Request { opcode: 89, payload: JsonValue::object().with("link", JsonValue::from_string(link)) }
}

/// The payload of [`refresh_invite_link`].
pub open spec fn refresh_invite_link_payload(chat_id: i64) -> Json {
    Json::Object(
        map!["revokePrivateLink"@ => Json::Bool(true), "chatId"@ => Json::Int(chat_id as int)],
    )
}

/// A new private invitation link of group `chat_id`, revoking the old one.
pub fn refresh_invite_link(chat_id: i64) -> (res: Request)
    ensures
        res.opcode == 55,
        res.payload@ == refresh_invite_link_payload(chat_id),
{
    let p = JsonValue::object().with("revokePrivateLink", JsonValue::from_bool(true)).with(
        "chatId",
        JsonValue::from_i64(chat_id),
    );
    Request { opcode: 55, payload: p }
}

/// The payload of [`confirm_join_requests`].
pub open spec fn confirm_join_requests_payload(chat_id: i64, user_ids: Vec<i64>, show_history: Option<bool>) -> Json {
    Json::Object(
        map![
            "chatId"@ => Json::Int(chat_id as int),
            "userIds"@ => ints_json(user_ids@),
            "type"@ => Json::Str("JOIN_REQUEST"@),
            "showHistory"@ => Json::Bool(match show_history {
                Some(b) => b,
                None => true,
            }),
            "operation"@ => Json::Str("add"@),
        ],
    )
}

/// Accepting the join requests of `user_ids` to group `chat_id`; they see the
/// history unless `show_history` says not.
pub fn confirm_join_requests(chat_id: i64, user_ids: Vec<i64>, show_history: Option<bool>) -> (res: Request)
    ensures
        res.opcode == 77,
        res.payload@ == confirm_join_requests_payload(chat_id, user_ids, show_history),
{
    let show = match show_history {
        Some(b) => b,
        None => true,
    };
    let p = JsonValue::object().with("chatId", JsonValue::from_i64(chat_id)).with(
        "userIds",
        JsonValue::from_i64s(&user_ids),
    ).with("type", JsonValue::from_str("JOIN_REQUEST")).with("showHistory", JsonValue::from_bool(show)).with(
        "operation",
        JsonValue::from_str("add"),
    );
    Request { opcode: 77, payload: p }
}

/// The payload of [`decline_join_requests`].
pub open spec fn decline_join_requests_payload(chat_id: i64, user_ids: Vec<i64>) -> Json {
    Json::Object(
        map![
            "chatId"@ => Json::Int(chat_id as int),
            "userIds"@ => ints_json(user_ids@),
            "operation"@ => Json::Str("remove"@),
        ],
    )
}

/// Declining the join requests of `user_ids` to group `chat_id`.
pub fn decline_join_requests(chat_id: i64, user_ids: Vec<i64>) -> (res: Request)
    ensures
        res.opcode == 77,
        res.payload@ == decline_join_requests_payload(chat_id, user_ids),
{
    let p = JsonValue::object().with("chatId", JsonValue::from_i64(chat_id)).with(
        "userIds",
        JsonValue::from_i64s(&user_ids),
    ).with("operation", JsonValue::from_str("remove"));
    Request { opcode: 77, payload: p }
}

/// `m` with a group setting under both of its names, when the setting is given.
pub open spec fn insert_setting(m: Map<Seq<char>, Json>, upper: Seq<char>, camel: Seq<char>, v: Option<bool>) -> Map<
    Seq<char>,
    Json,
> {
    match v {
        Some(b) => m.insert(upper, Json::Bool(b)).insert(camel, Json::Bool(b)),
        None => m,
    }
}

fn with_setting(obj: JsonValue, upper: &str, camel: &str, v: Option<bool>) -> (res: JsonValue)
    requires
        obj@ is Object,
    ensures
        res@ is Object,
        res@ == Json::Object(insert_setting(crate::json::members_of(obj@), upper@, camel@, v)),
{
    match v {
        Some(b) => obj.with(upper, JsonValue::from_bool(b)).with(camel, JsonValue::from_bool(b)),
        None => obj,
    }
}

/// The settings that a group settings change sets: each given setting under
/// its upper-case and its camel-case name.
pub open spec fn group_settings(
    all_can_pin_message: Option<bool>,
    only_owner_can_change_icon_title: Option<bool>,
    only_admin_can_add_member: Option<bool>,
    only_admin_can_call: Option<bool>,
    members_can_see_private_link: Option<bool>,
) -> Map<Seq<char>, Json> {
    insert_setting(
        insert_setting(
            insert_setting(
                insert_setting(
                    insert_setting(
                        Map::empty(),
                        "ALL_CAN_PIN_MESSAGE"@,
                        "allCanPinMessage"@,
                        all_can_pin_message,
                    ),
                    "ONLY_OWNER_CAN_CHANGE_ICON_TITLE"@,
                    "onlyOwnerCanChangeIconTitle"@,
                    only_owner_can_change_icon_title,
                ),
                "ONLY_ADMIN_CAN_ADD_MEMBER"@,
                "onlyAdminCanAddMember"@,
                only_admin_can_add_member,
            ),
            "ONLY_ADMIN_CAN_CALL"@,
            "onlyAdminCanCall"@,
            only_admin_can_call,
        ),
        "MEMBERS_CAN_SEE_PRIVATE_LINK"@,
        "membersCanSeePrivateLink"@,
        members_can_see_private_link,
    )
}

/// The payload of [`change_group_settings`].
pub open spec fn change_group_settings_payload(
    chat_id: i64,
    all_can_pin_message: Option<bool>,
    only_owner_can_change_icon_title: Option<bool>,
    only_admin_can_add_member: Option<bool>,
    only_admin_can_call: Option<bool>,
    members_can_see_private_link: Option<bool>,
) -> Json {
    Json::Object(
        map![
            "chatId"@ => Json::Int(chat_id as int),
            "options"@ => Json::Object(group_settings(
                all_can_pin_message,
                only_owner_can_change_icon_title,
                only_admin_can_add_member,
                only_admin_can_call,
                members_can_see_private_link,
            )),
        ],
    )
}

/// Changing the given settings of group `chat_id`.
pub fn change_group_settings(
    chat_id: i64,
    all_can_pin_message: Option<bool>,
    only_owner_can_change_icon_title: Option<bool>,
    only_admin_can_add_member: Option<bool>,
    only_admin_can_call: Option<bool>,
    members_can_see_private_link: Option<bool>,
) -> (res: Request)
    ensures
        res.opcode == 55,
        res.payload@ == change_group_settings_payload(chat_id, all_can_pin_message, only_owner_can_change_icon_title, only_admin_can_add_member, only_admin_can_call, members_can_see_private_link),
{
    let s = JsonValue::object();
    let s = with_setting(s, "ALL_CAN_PIN_MESSAGE", "allCanPinMessage", all_can_pin_message);
    let s = with_setting(
        s,
        "ONLY_OWNER_CAN_CHANGE_ICON_TITLE",
        "onlyOwnerCanChangeIconTitle",
        only_owner_can_change_icon_title,
    );
    let s = with_setting(s, "ONLY_ADMIN_CAN_ADD_MEMBER", "onlyAdminCanAddMember", only_admin_can_add_member);
    let s = with_setting(s, "ONLY_ADMIN_CAN_CALL", "onlyAdminCanCall", only_admin_can_call);
    let s = with_setting(
        s,
        "MEMBERS_CAN_SEE_PRIVATE_LINK",
        "membersCanSeePrivateLink",
        members_can_see_private_link,
    );
    let p = JsonValue::object().with("chatId", JsonValue::from_i64(chat_id)).with("options", s);
    Request { opcode: 55, payload: p }
}

/// The payload of [`remove_users_from_group`].
pub open spec fn remove_users_from_group_payload(chat_id: i64, user_ids: Vec<i64>, clean_msg_period: i64) -> Json {
    Json::Object(
        map![
            "chatId"@ => Json::Int(chat_id as int),
            "userIds"@ => ints_json(user_ids@),
            "operation"@ => Json::Str("remove"@),
            "cleanMsgPeriod"@ => Json::Int(clean_msg_period as int),
        ],
    )
}

/// Removing `user_ids` from group `chat_id`, deleting their messages of the
/// last `clean_msg_period`.
pub fn remove_users_from_group(chat_id: i64, user_ids: Vec<i64>, clean_msg_period: i64) -> (res: Request)
    ensures
        res.opcode == 77,
        res.payload@ == remove_users_from_group_payload(chat_id, user_ids, clean_msg_period),
{
    let p = JsonValue::object().with("chatId", JsonValue::from_i64(chat_id)).with(
        "userIds",
        JsonValue::from_i64s(&user_ids),
    ).with("operation", JsonValue::from_str("remove")).with(
        "cleanMsgPeriod",
        JsonValue::from_i64(clean_msg_period),
    );
    Request { opcode: 77, payload: p }
}

/// The payload of [`invite_users_to_group`].
pub open spec fn invite_users_to_group_payload(chat_id: i64, user_ids: Vec<i64>, show_history: Option<bool>) -> Json {
    Json::Object(
        map![
            "chatId"@ => Json::Int(chat_id as int),
            "userIds"@ => ints_json(user_ids@),
            "showHistory"@ => Json::Bool(match show_history {
                Some(b) => b,
                None => true,
            }),
            "operation"@ => Json::Str("add"@),
        ],
    )
}

/// Adding `user_ids` to group `chat_id`; they see the history unless
/// `show_history` says not.
pub fn invite_users_to_group(chat_id: i64, user_ids: Vec<i64>, show_history: Option<bool>) -> (res: Request)
    ensures
        res.opcode == 77,
        res.payload@ == invite_users_to_group_payload(chat_id, user_ids, show_history),
{
    let show = match show_history {
        Some(b) => b,
        None => true,
    };
    let p = JsonValue::object().with("chatId", JsonValue::from_i64(chat_id)).with(
        "userIds",
        JsonValue::from_i64s(&user_ids),
    ).with("showHistory", JsonValue::from_bool(show)).with("operation", JsonValue::from_str("add"));
    Request { opcode: 77, payload: p }
}

/// The payload of [`get_join_requests`].
pub open spec fn get_join_requests_payload(chat_id: i64) -> Json {
    Json::Object(
        map![
            "chatId"@ => Json::Int(chat_id as int),
            "type"@ => Json::Str("JOIN_REQUEST"@),
            "count"@ => Json::Int(100),
        ],
    )
}

/// The first hundred join requests to group `chat_id`.
pub fn get_join_requests(chat_id: i64) -> (res: Request)
    ensures
        res.opcode == 59,
        res.payload@ == get_join_requests_payload(chat_id),
{
    let p = JsonValue::object().with("chatId", JsonValue::from_i64(chat_id)).with(
        "type",
        JsonValue::from_str("JOIN_REQUEST"),
    ).with("count", JsonValue::from_i64(100));
    Request { opcode: 59, payload: p }
}

/// The payload of [`set_chat_mute`].
pub open spec fn set_chat_mute_payload(chat_id: i64, dont_disturb_until: i64) -> Json {
    Json::Object(
        map![
            "settings"@ => Json::Object(map![
                "chats"@ => Json::Object(map![
                    decimal_of(chat_id as int) => Json::Object(map![
                        "dontDisturbUntil"@ => Json::Int(dont_disturb_until as int),
                    ]),
                ]),
            ]),
        ],
    )
}

/// Muting chat `chat_id` until `dont_disturb_until`: the chat's settings go
/// under its id written in decimal.
pub fn set_chat_mute(chat_id: i64, dont_disturb_until: i64) -> (res: Request)
    ensures
        res.opcode == 22,
        res.payload@ == set_chat_mute_payload(chat_id, dont_disturb_until),
{
    let key = i64_to_string(chat_id);
    let entry = JsonValue::object().with("dontDisturbUntil", JsonValue::from_i64(dont_disturb_until));
    let chats = JsonValue::object().with(key.as_str(), entry);
    let settings = JsonValue::object().with("chats", chats);
    Request { opcode: 22, payload: JsonValue::object().with("settings", settings) }
}

/// The payload of [`update_user_settings`].
pub open spec fn update_user_settings_payload(settings: Vec<(String, JsonValue)>) -> Json {
    Json::Object(
        map!["settings"@ => Json::Object(map!["user"@ => Json::Object(json_of_members(settings@))])],
    )
}

/// Changing the account's settings: each given member replaces the setting
/// of its name.
pub fn update_user_settings(settings: Vec<(String, JsonValue)>) -> (res: Request)
    ensures
        res.opcode == 22,
        res.payload@ == update_user_settings_payload(settings),
{
    let user = JsonValue::Object(settings);
    let s = JsonValue::object().with("user", user);
    Request { opcode: 22, payload: JsonValue::object().with("settings", s) }
}

/// The payload of [`get_folders`].
pub open spec fn get_folders_payload(folder_sync: Option<i64>) -> Json {
    Json::Object(
        map![
            "folderSync"@ => Json::Int(match folder_sync {
                Some(s) => s as int,
                None => 0,
            }),
        ],
    )
}

/// The folders changed since `folder_sync` (since the beginning when not given).
pub fn get_folders(folder_sync: Option<i64>) -> (res: Request)
    ensures
        res.opcode == 272,
        res.payload@ == get_folders_payload(folder_sync),
{
    let s = match folder_sync {
        Some(s) => s,
        None => 0,
    };
    Request { opcode: 272, payload: JsonValue::object().with("folderSync", JsonValue::from_i64(s)) }
}

/// The payload of [`get_folder_by_id`].
pub open spec fn get_folder_by_id_payload(folder_ids: Vec<String>) -> Json {
    Json::Object(map!["folderIds"@ => strs_json(folder_ids@)])
}

/// The folders with the given ids.
pub fn get_folder_by_id(folder_ids: Vec<String>) -> (res: Request)
    ensures
        res.opcode == 273,
        res.payload@ == get_folder_by_id_payload(folder_ids),
{
    Request { opcode: 273, payload: JsonValue::object().with("folderIds", JsonValue::from_strings(&folder_ids)) }
}

/// The payload of [`update_folder`].
pub open spec fn update_folder_payload(
    id: String,
    title: String,
    included: Vec<i64>,
    filters: Vec<i64>,
    options: Vec<i64>,
    favorites: Vec<i64>,
) -> Json {
    Json::Object(
        map![
            "id"@ => Json::Str(id@),
            "title"@ => Json::Str(trim_spec(title@)),
            "include"@ => ints_json(included@),
            "filters"@ => ints_json(filters@),
            "options"@ => ints_json(options@),
            "favorites"@ => ints_json(favorites@),
        ],
    )
}

/// Creating or changing folder `id`; its title is sent trimmed.
pub fn update_folder(
    id: String,
    title: String,
    included: Vec<i64>,
    filters: Vec<i64>,
    options: Vec<i64>,
    favorites: Vec<i64>,
) -> (res: Request)
    ensures
        res.opcode == 274,
        res.payload@ == update_folder_payload(id, title, included, filters, options, favorites),
{
    let p = JsonValue::object().with("id", JsonValue::from_string(id)).with(
        "title",
        JsonValue::from_str(trim(title.as_str())),
    ).with("include", JsonValue::from_i64s(&included)).with("filters", JsonValue::from_i64s(&filters)).with(
        "options",
        JsonValue::from_i64s(&options),
    ).with("favorites", JsonValue::from_i64s(&favorites));
    Request { opcode: 274, payload: p }
}

/// The payload of [`reorder_folders`].
pub open spec fn reorder_folders_payload(folders_order: Vec<String>) -> Json {
    Json::Object(map!["foldersOrder"@ => strs_json(folders_order@)])
}

/// Putting the folders in the given order.
pub fn reorder_folders(folders_order: Vec<String>) -> (res: Request)
    ensures
        res.opcode == 275,
        res.payload@ == reorder_folders_payload(folders_order),
{
    Request { opcode: 275, payload: JsonValue::object().with("foldersOrder", JsonValue::from_strings(&folders_order)) }
}

/// The payload of [`delete_folders`].
pub open spec fn delete_folders_payload(folder_ids: Vec<String>) -> Json {
    Json::Object(map!["folderIds"@ => strs_json(folder_ids@)])
}

/// Deleting the folders with the given ids.
pub fn delete_folders(folder_ids: Vec<String>) -> (res: Request)
    ensures
        res.opcode == 276,
        res.payload@ == delete_folders_payload(folder_ids),
{
    Request { opcode: 276, payload: JsonValue::object().with("folderIds", JsonValue::from_strings(&folder_ids)) }
}

/// The payload of [`get_chat_media`].
pub open spec fn get_chat_media_payload(chat_id: i64, message_id: i64, attach_types: Vec<String>, forward: i32, backward: i32) -> Json {
    Json::Object(
        map![
            "chatId"@ => Json::Int(chat_id as int),
            "messageId"@ => Json::Int(message_id as int),
            "attachTypes"@ => strs_json(attach_types@),
            "forward"@ => Json::Int(forward as int),
            "backward"@ => Json::Int(backward as int),
        ],
    )
}

/// The media of chat `chat_id` around message `message_id`.
pub fn get_chat_media(chat_id: i64, message_id: i64, attach_types: Vec<String>, forward: i32, backward: i32) -> (res:
    Request)
    ensures
        res.opcode == 51,
        res.payload@ == get_chat_media_payload(chat_id, message_id, attach_types, forward, backward),
{
    let p = JsonValue::object().with("chatId", JsonValue::from_i64(chat_id)).with(
        "messageId",
        JsonValue::from_i64(message_id),
    ).with("attachTypes", JsonValue::from_strings(&attach_types)).with(
        "forward",
        JsonValue::from_i64(forward as i64),
    ).with("backward", JsonValue::from_i64(backward as i64));
    Request { opcode: 51, payload: p }
}

/// The payload of [`assign_admin`].
pub open spec fn assign_admin_payload(chat_id: i64, user_id: i64, permissions: Vec<String>, alias: Option<String>) -> Json {
    Json::Object(
        map![
            "chatId"@ => Json::Int(chat_id as int),
            "adminParticipants"@ => Json::Object(map![
                decimal_of(user_id as int) => Json::Object(insert_opt(
                    map!["permissions"@ => strs_json(permissions@)],
                    "alias"@,
                    match alias {
                        Some(a) => if is_blank(a@) {
                            None
                        } else {
                            Some(Json::Str(trim_spec(a@)))
                        },
                        None => None,
                    },
                )),
            ]),
        ],
    )
}

/// Making `user_id` an administrator of group `chat_id` with `permissions`;
/// the alias goes along, trimmed, only when it is not blank.
pub fn assign_admin(chat_id: i64, user_id: i64, permissions: Vec<String>, alias: Option<String>) -> (res: Request)
    ensures
        res.opcode == 55,
        res.payload@ == assign_admin_payload(chat_id, user_id, permissions, alias),
{
    let alias_value = match alias {
        Some(a) => {
            let t = trim(a.as_str());
            if t.unicode_len() == 0 {
                None
            } else {
                Some(JsonValue::from_str(t))
            }
        },
        None => None,
    };
    let entry = JsonValue::object().with("permissions", JsonValue::from_strings(&permissions)).with_opt(
        "alias",
        alias_value,
    );
    let key = i64_to_string(user_id);
    let admins = JsonValue::object().with(key.as_str(), entry);
    let p = JsonValue::object().with("chatId", JsonValue::from_i64(chat_id)).with("adminParticipants", admins);
    Request { opcode: 55, payload: p }
}

/// The payload of [`revoke_admin`].
pub open spec fn revoke_admin_payload(chat_id: i64, user_id: i64) -> Json {
    Json::Object(
        map![
            "chatId"@ => Json::Int(chat_id as int),
            "adminParticipants"@ => Json::Object(map![decimal_of(user_id as int) => Json::Null]),
        ],
    )
}

/// Taking the administrator rights of `user_id` in group `chat_id`.
pub fn revoke_admin(chat_id: i64, user_id: i64) -> (res: Request)
    ensures
        res.opcode == 55,
        res.payload@ == revoke_admin_payload(chat_id, user_id),
{
    let key = i64_to_string(user_id);
    let admins = JsonValue::object().with(key.as_str(), JsonValue::null());
    let p = JsonValue::object().with("chatId", JsonValue::from_i64(chat_id)).with("adminParticipants", admins);
    Request { opcode: 55, payload: p }
}

/// Creating a group sends a message whose client id is `now`, with exactly
/// one attachment: a control event `new` for a chat titled `title` whose
/// `userIds` are the given participants, one for one and in order (none
/// when none are given). The group is announced unless `notify` says not.
pub proof fn lemma_create_group_payload_members(
    title: Seq<char>,
    participant_ids: Option<Seq<i64>>,
    notify: Option<bool>,
    now: i64,
)
    ensures
        ({
            let p = create_group_payload(title, participant_ids, notify, now);
            let m = json_get(p, "message"@)->0;
            let a = json_get(m, "attaches"@)->0;
            let c = a->Array_0[0];
            let ids = json_get(c, "userIds"@)->0;
            let given = match participant_ids {
                Some(v) => v,
                None => Seq::<i64>::empty(),
            };
            &&& json_get(p, "message"@) is Some
            &&& json_get(m, "cid"@) == Some(Json::Int(now as int))
            &&& json_get(m, "attaches"@) is Some
            &&& a is Array && a->Array_0.len() == 1
            &&& json_get(c, "_type"@) == Some(Json::Str("CONTROL"@))
            &&& json_get(c, "event"@) == Some(Json::Str("new"@))
            &&& json_get(c, "chatType"@) == Some(Json::Str("CHAT"@))
            &&& json_get(c, "title"@) == Some(Json::Str(title))
            &&& json_get(c, "userIds"@) is Some
            &&& ids is Array && ids->Array_0.len() == given.len()
            &&& forall|i: int| 0 <= i < given.len() ==> ids->Array_0[i] == Json::Int(given[i] as int)
            &&& notify matches Some(b) ==> json_get(p, "notify"@) == Some(Json::Bool(b))
            &&& notify is None ==> json_get(p, "notify"@) == Some(Json::Bool(true))
        }),
{
    reveal_strlit("message");
    reveal_strlit("notify");
    reveal_strlit("cid");
    reveal_strlit("attaches");
    reveal_strlit("_type");
    reveal_strlit("event");
    reveal_strlit("chatType");
    reveal_strlit("title");
    reveal_strlit("userIds");
    assert("message"@.len() == 7);
    assert("notify"@.len() == 6);
    assert("cid"@.len() == 3);
    assert("attaches"@.len() == 8);
    assert("_type"@.len() == 5);
    assert("event"@.len() == 5);
    assert("chatType"@.len() == 8);
    assert("title"@.len() == 5);
    assert("userIds"@.len() == 7);
    assert("message"@[0] != "userIds"@[0]);
    assert("attaches"@[0] != "chatType"@[0]);
    assert("_type"@[0] != "event"@[0]);
    assert("_type"@[0] != "title"@[0]);
    assert("event"@[0] != "title"@[0]);
}

/// The request of [`search_public`] carries exactly these members, each under
/// its own name, as its arguments give them.
pub proof fn lemma_search_public_payload_members(query: String, count: i32, search_type: String)
    ensures
        json_get(search_public_payload(query, count, search_type), "query"@) == Some(Json::Str(query@)),
        json_get(search_public_payload(query, count, search_type), "count"@) == Some(Json::Int(count as int)),
        json_get(search_public_payload(query, count, search_type), "type"@) == Some(Json::Str(search_type@)),
        members_of(search_public_payload(query, count, search_type)).dom() =~= set!["query"@, "count"@, "type"@],
{
    reveal_strlit("query");
    reveal_strlit("count");
    reveal_strlit("type");
    assert("query"@.len() == 5);
    assert("count"@.len() == 5);
    assert("type"@.len() == 4);
    assert("query"@[0] != "count"@[0]);
}

/// The request of [`get_chats`] carries exactly these members, each under
/// its own name, as its arguments give them.
pub proof fn lemma_get_chats_payload_members(chat_ids: Vec<i64>)
    ensures
        json_get(get_chats_payload(chat_ids), "chatIds"@) == Some(ints_json(chat_ids@)),
        members_of(get_chats_payload(chat_ids)).dom() =~= set!["chatIds"@],
{
    reveal_strlit("chatIds");
    assert("chatIds"@.len() == 7);
}

/// The request of [`leave_group`] carries exactly these members, each under
/// its own name, as its arguments give them.
pub proof fn lemma_leave_group_payload_members(chat_id: i64)
    ensures
        json_get(leave_group_payload(chat_id), "chatId"@) == Some(Json::Int(chat_id as int)),
        members_of(leave_group_payload(chat_id)).dom() =~= set!["chatId"@],
{
    reveal_strlit("chatId");
    assert("chatId"@.len() == 6);
}

/// The request of [`join_group`] carries exactly these members, each under
/// its own name, as its arguments give them.
pub proof fn lemma_join_group_payload_members(link: String)
    ensures
        json_get(join_group_payload(link), "link"@) == Some(Json::Str(link@)),
        members_of(join_group_payload(link)).dom() =~= set!["link"@],
{
    reveal_strlit("link");
    assert("link"@.len() == 4);
}

/// The request of [`resolve_group_by_link`] carries exactly these members, each under
/// its own name, as its arguments give them.
pub proof fn lemma_resolve_group_by_link_payload_members(link: String)
    ensures
        json_get(resolve_group_by_link_payload(link), "link"@) == Some(Json::Str(link@)),
        members_of(resolve_group_by_link_payload(link)).dom() =~= set!["link"@],
{
    reveal_strlit("link");
    assert("link"@.len() == 4);
}

/// The request of [`refresh_invite_link`] carries exactly these members, each under
/// its own name, as its arguments give them.
pub proof fn lemma_refresh_invite_link_payload_members(chat_id: i64)
    ensures
        json_get(refresh_invite_link_payload(chat_id), "revokePrivateLink"@) == Some(Json::Bool(true)),
        json_get(refresh_invite_link_payload(chat_id), "chatId"@) == Some(Json::Int(chat_id as int)),
        members_of(refresh_invite_link_payload(chat_id)).dom() =~= set!["revokePrivateLink"@, "chatId"@],
{
    reveal_strlit("revokePrivateLink");
    reveal_strlit("chatId");
    assert("revokePrivateLink"@.len() == 17);
    assert("chatId"@.len() == 6);
}

/// The request of [`confirm_join_requests`] carries exactly these members, each under
/// its own name, as its arguments give them.
pub proof fn lemma_confirm_join_requests_payload_members(chat_id: i64, user_ids: Vec<i64>, show_history: Option<bool>)
    ensures
        json_get(confirm_join_requests_payload(chat_id, user_ids, show_history), "chatId"@) == Some(Json::Int(chat_id as int)),
        json_get(confirm_join_requests_payload(chat_id, user_ids, show_history), "userIds"@) == Some(ints_json(user_ids@)),
        json_get(confirm_join_requests_payload(chat_id, user_ids, show_history), "type"@) == Some(Json::Str("JOIN_REQUEST"@)),
        json_get(confirm_join_requests_payload(chat_id, user_ids, show_history), "showHistory"@) == Some(Json::Bool(match show_history { Some(b) => b, None => true, })),
        json_get(confirm_join_requests_payload(chat_id, user_ids, show_history), "operation"@) == Some(Json::Str("add"@)),
        members_of(confirm_join_requests_payload(chat_id, user_ids, show_history)).dom() =~= set!["chatId"@, "userIds"@, "type"@, "showHistory"@, "operation"@],
{
    reveal_strlit("chatId");
    reveal_strlit("userIds");
    reveal_strlit("type");
    reveal_strlit("showHistory");
    reveal_strlit("operation");
    assert("chatId"@.len() == 6);
    assert("userIds"@.len() == 7);
    assert("type"@.len() == 4);
    assert("showHistory"@.len() == 11);
    assert("operation"@.len() == 9);
}

/// The request of [`decline_join_requests`] carries exactly these members, each under
/// its own name, as its arguments give them.
pub proof fn lemma_decline_join_requests_payload_members(chat_id: i64, user_ids: Vec<i64>)
    ensures
        json_get(decline_join_requests_payload(chat_id, user_ids), "chatId"@) == Some(Json::Int(chat_id as int)),
        json_get(decline_join_requests_payload(chat_id, user_ids), "userIds"@) == Some(ints_json(user_ids@)),
        json_get(decline_join_requests_payload(chat_id, user_ids), "operation"@) == Some(Json::Str("remove"@)),
        members_of(decline_join_requests_payload(chat_id, user_ids)).dom() =~= set!["chatId"@, "userIds"@, "operation"@],
{
    reveal_strlit("chatId");
    reveal_strlit("userIds");
    reveal_strlit("operation");
    assert("chatId"@.len() == 6);
    assert("userIds"@.len() == 7);
    assert("operation"@.len() == 9);
}

/// The request of [`change_group_settings`] carries exactly these members, each under
/// its own name, as its arguments give them.
pub proof fn lemma_change_group_settings_payload_members(
    chat_id: i64,
    all_can_pin_message: Option<bool>,
    only_owner_can_change_icon_title: Option<bool>,
    only_admin_can_add_member: Option<bool>,
    only_admin_can_call: Option<bool>,
    members_can_see_private_link: Option<bool>,
)
    ensures
        json_get(change_group_settings_payload(chat_id, all_can_pin_message, only_owner_can_change_icon_title, only_admin_can_add_member, only_admin_can_call, members_can_see_private_link), "chatId"@) == Some(Json::Int(chat_id as int)),
        json_get(change_group_settings_payload(chat_id, all_can_pin_message, only_owner_can_change_icon_title, only_admin_can_add_member, only_admin_can_call, members_can_see_private_link), "options"@) == Some(Json::Object(group_settings( all_can_pin_message, only_owner_can_change_icon_title, only_admin_can_add_member, only_admin_can_call, members_can_see_private_link, ))),
        members_of(change_group_settings_payload(chat_id, all_can_pin_message, only_owner_can_change_icon_title, only_admin_can_add_member, only_admin_can_call, members_can_see_private_link)).dom() =~= set!["chatId"@, "options"@],
{
    reveal_strlit("chatId");
    reveal_strlit("options");
    assert("chatId"@.len() == 6);
    assert("options"@.len() == 7);
}

/// The request of [`remove_users_from_group`] carries exactly these members, each under
/// its own name, as its arguments give them.
pub proof fn lemma_remove_users_from_group_payload_members(chat_id: i64, user_ids: Vec<i64>, clean_msg_period: i64)
    ensures
        json_get(remove_users_from_group_payload(chat_id, user_ids, clean_msg_period), "chatId"@) == Some(Json::Int(chat_id as int)),
        json_get(remove_users_from_group_payload(chat_id, user_ids, clean_msg_period), "userIds"@) == Some(ints_json(user_ids@)),
        json_get(remove_users_from_group_payload(chat_id, user_ids, clean_msg_period), "operation"@) == Some(Json::Str("remove"@)),
        json_get(remove_users_from_group_payload(chat_id, user_ids, clean_msg_period), "cleanMsgPeriod"@) == Some(Json::Int(clean_msg_period as int)),
        members_of(remove_users_from_group_payload(chat_id, user_ids, clean_msg_period)).dom() =~= set!["chatId"@, "userIds"@, "operation"@, "cleanMsgPeriod"@],
{
    reveal_strlit("chatId");
    reveal_strlit("userIds");
    reveal_strlit("operation");
    reveal_strlit("cleanMsgPeriod");
    assert("chatId"@.len() == 6);
    assert("userIds"@.len() == 7);
    assert("operation"@.len() == 9);
    assert("cleanMsgPeriod"@.len() == 14);
}

/// The request of [`invite_users_to_group`] carries exactly these members, each under
/// its own name, as its arguments give them.
pub proof fn lemma_invite_users_to_group_payload_members(chat_id: i64, user_ids: Vec<i64>, show_history: Option<bool>)
    ensures
        json_get(invite_users_to_group_payload(chat_id, user_ids, show_history), "chatId"@) == Some(Json::Int(chat_id as int)),
        json_get(invite_users_to_group_payload(chat_id, user_ids, show_history), "userIds"@) == Some(ints_json(user_ids@)),
        json_get(invite_users_to_group_payload(chat_id, user_ids, show_history), "showHistory"@) == Some(Json::Bool(match show_history { Some(b) => b, None => true, })),
        json_get(invite_users_to_group_payload(chat_id, user_ids, show_history), "operation"@) == Some(Json::Str("add"@)),
        members_of(invite_users_to_group_payload(chat_id, user_ids, show_history)).dom() =~= set!["chatId"@, "userIds"@, "showHistory"@, "operation"@],
{
    reveal_strlit("chatId");
    reveal_strlit("userIds");
    reveal_strlit("showHistory");
    reveal_strlit("operation");
    assert("chatId"@.len() == 6);
    assert("userIds"@.len() == 7);
    assert("showHistory"@.len() == 11);
    assert("operation"@.len() == 9);
}

/// The request of [`get_join_requests`] carries exactly these members, each under
/// its own name, as its arguments give them.
pub proof fn lemma_get_join_requests_payload_members(chat_id: i64)
    ensures
        json_get(get_join_requests_payload(chat_id), "chatId"@) == Some(Json::Int(chat_id as int)),
        json_get(get_join_requests_payload(chat_id), "type"@) == Some(Json::Str("JOIN_REQUEST"@)),
        json_get(get_join_requests_payload(chat_id), "count"@) == Some(Json::Int(100)),
        members_of(get_join_requests_payload(chat_id)).dom() =~= set!["chatId"@, "type"@, "count"@],
{
    reveal_strlit("chatId");
    reveal_strlit("type");
    reveal_strlit("count");
    assert("chatId"@.len() == 6);
    assert("type"@.len() == 4);
    assert("count"@.len() == 5);
}

/// The request of [`set_chat_mute`] carries exactly these members, each under
/// its own name, as its arguments give them.
pub proof fn lemma_set_chat_mute_payload_members(chat_id: i64, dont_disturb_until: i64)
    ensures
        json_get(set_chat_mute_payload(chat_id, dont_disturb_until), "settings"@) == Some(Json::Object(map![ "chats"@ => Json::Object(map![ decimal_of(chat_id as int) => Json::Object(map![ "dontDisturbUntil"@ => Json::Int(dont_disturb_until as int), ]), ]), ])),
        members_of(set_chat_mute_payload(chat_id, dont_disturb_until)).dom() =~= set!["settings"@],
{
    reveal_strlit("settings");
    assert("settings"@.len() == 8);
}

/// The request of [`update_user_settings`] carries exactly these members, each under
/// its own name, as its arguments give them.
pub proof fn lemma_update_user_settings_payload_members(settings: Vec<(String, JsonValue)>)
    ensures
        json_get(update_user_settings_payload(settings), "settings"@) == Some(Json::Object(map!["user"@ => Json::Object(json_of_members(settings@))])),
        members_of(update_user_settings_payload(settings)).dom() =~= set!["settings"@],
{
    reveal_strlit("settings");
    assert("settings"@.len() == 8);
}

/// The request of [`get_folders`] carries exactly these members, each under
/// its own name, as its arguments give them.
pub proof fn lemma_get_folders_payload_members(folder_sync: Option<i64>)
    ensures
        json_get(get_folders_payload(folder_sync), "folderSync"@) == Some(Json::Int(match folder_sync { Some(s) => s as int, None => 0, })),
        members_of(get_folders_payload(folder_sync)).dom() =~= set!["folderSync"@],
{
    reveal_strlit("folderSync");
    assert("folderSync"@.len() == 10);
}

/// The request of [`get_folder_by_id`] carries exactly these members, each under
/// its own name, as its arguments give them.
pub proof fn lemma_get_folder_by_id_payload_members(folder_ids: Vec<String>)
    ensures
        json_get(get_folder_by_id_payload(folder_ids), "folderIds"@) == Some(strs_json(folder_ids@)),
        members_of(get_folder_by_id_payload(folder_ids)).dom() =~= set!["folderIds"@],
{
    reveal_strlit("folderIds");
    assert("folderIds"@.len() == 9);
}

/// The request of [`update_folder`] carries exactly these members, each under
/// its own name, as its arguments give them.
pub proof fn lemma_update_folder_payload_members(
    id: String,
    title: String,
    included: Vec<i64>,
    filters: Vec<i64>,
    options: Vec<i64>,
    favorites: Vec<i64>,
)
    ensures
        json_get(update_folder_payload(id, title, included, filters, options, favorites), "id"@) == Some(Json::Str(id@)),
        json_get(update_folder_payload(id, title, included, filters, options, favorites), "title"@) == Some(Json::Str(trim_spec(title@))),
        json_get(update_folder_payload(id, title, included, filters, options, favorites), "include"@) == Some(ints_json(included@)),
        json_get(update_folder_payload(id, title, included, filters, options, favorites), "filters"@) == Some(ints_json(filters@)),
        json_get(update_folder_payload(id, title, included, filters, options, favorites), "options"@) == Some(ints_json(options@)),
        json_get(update_folder_payload(id, title, included, filters, options, favorites), "favorites"@) == Some(ints_json(favorites@)),
        members_of(update_folder_payload(id, title, included, filters, options, favorites)).dom() =~= set!["id"@, "title"@, "include"@, "filters"@, "options"@, "favorites"@],
{
    reveal_strlit("id");
    reveal_strlit("title");
    reveal_strlit("include");
    reveal_strlit("filters");
    reveal_strlit("options");
    reveal_strlit("favorites");
    assert("id"@.len() == 2);
    assert("title"@.len() == 5);
    assert("include"@.len() == 7);
    assert("filters"@.len() == 7);
    assert("options"@.len() == 7);
    assert("favorites"@.len() == 9);
    assert("include"@[0] != "filters"@[0]);
    assert("include"@[0] != "options"@[0]);
    assert("filters"@[0] != "options"@[0]);
}

/// The request of [`reorder_folders`] carries exactly these members, each under
/// its own name, as its arguments give them.
pub proof fn lemma_reorder_folders_payload_members(folders_order: Vec<String>)
    ensures
        json_get(reorder_folders_payload(folders_order), "foldersOrder"@) == Some(strs_json(folders_order@)),
        members_of(reorder_folders_payload(folders_order)).dom() =~= set!["foldersOrder"@],
{
    reveal_strlit("foldersOrder");
    assert("foldersOrder"@.len() == 12);
}

/// The request of [`delete_folders`] carries exactly these members, each under
/// its own name, as its arguments give them.
pub proof fn lemma_delete_folders_payload_members(folder_ids: Vec<String>)
    ensures
        json_get(delete_folders_payload(folder_ids), "folderIds"@) == Some(strs_json(folder_ids@)),
        members_of(delete_folders_payload(folder_ids)).dom() =~= set!["folderIds"@],
{
    reveal_strlit("folderIds");
    assert("folderIds"@.len() == 9);
}

/// The request of [`get_chat_media`] carries exactly these members, each under
/// its own name, as its arguments give them.
pub proof fn lemma_get_chat_media_payload_members(chat_id: i64, message_id: i64, attach_types: Vec<String>, forward: i32, backward: i32)
    ensures
        json_get(get_chat_media_payload(chat_id, message_id, attach_types, forward, backward), "chatId"@) == Some(Json::Int(chat_id as int)),
        json_get(get_chat_media_payload(chat_id, message_id, attach_types, forward, backward), "messageId"@) == Some(Json::Int(message_id as int)),
        json_get(get_chat_media_payload(chat_id, message_id, attach_types, forward, backward), "attachTypes"@) == Some(strs_json(attach_types@)),
        json_get(get_chat_media_payload(chat_id, message_id, attach_types, forward, backward), "forward"@) == Some(Json::Int(forward as int)),
        json_get(get_chat_media_payload(chat_id, message_id, attach_types, forward, backward), "backward"@) == Some(Json::Int(backward as int)),
        members_of(get_chat_media_payload(chat_id, message_id, attach_types, forward, backward)).dom() =~= set!["chatId"@, "messageId"@, "attachTypes"@, "forward"@, "backward"@],
{
    reveal_strlit("chatId");
    reveal_strlit("messageId");
    reveal_strlit("attachTypes");
    reveal_strlit("forward");
    reveal_strlit("backward");
    assert("chatId"@.len() == 6);
    assert("messageId"@.len() == 9);
    assert("attachTypes"@.len() == 11);
    assert("forward"@.len() == 7);
    assert("backward"@.len() == 8);
}

/// The request of [`assign_admin`] carries exactly these members, each under
/// its own name, as its arguments give them.
pub proof fn lemma_assign_admin_payload_members(chat_id: i64, user_id: i64, permissions: Vec<String>, alias: Option<String>)
    ensures
        json_get(assign_admin_payload(chat_id, user_id, permissions, alias), "chatId"@) == Some(Json::Int(chat_id as int)),
        json_get(assign_admin_payload(chat_id, user_id, permissions, alias), "adminParticipants"@) == Some(Json::Object(map![ decimal_of(user_id as int) => Json::Object(insert_opt( map!["permissions"@ => strs_json(permissions@)], "alias"@, match alias { Some(a) => if is_blank(a@) { None } else { Some(Json::Str(trim_spec(a@))) }, None => None, }, )), ])),
        members_of(assign_admin_payload(chat_id, user_id, permissions, alias)).dom() =~= set!["chatId"@, "adminParticipants"@],
{
    reveal_strlit("chatId");
    reveal_strlit("adminParticipants");
    assert("chatId"@.len() == 6);
    assert("adminParticipants"@.len() == 17);
}

/// The request of [`revoke_admin`] carries exactly these members, each under
/// its own name, as its arguments give them.
pub proof fn lemma_revoke_admin_payload_members(chat_id: i64, user_id: i64)
    ensures
        json_get(revoke_admin_payload(chat_id, user_id), "chatId"@) == Some(Json::Int(chat_id as int)),
        json_get(revoke_admin_payload(chat_id, user_id), "adminParticipants"@) == Some(Json::Object(map![decimal_of(user_id as int) => Json::Null])),
        members_of(revoke_admin_payload(chat_id, user_id)).dom() =~= set!["chatId"@, "adminParticipants"@],
{
    reveal_strlit("chatId");
    reveal_strlit("adminParticipants");
    assert("chatId"@.len() == 6);
    assert("adminParticipants"@.len() == 17);
}

/// A message search sends the query and the count, and the position to
/// continue from exactly when one is given.
pub proof fn lemma_search_msg_payload_members(query: String, count: i32, marker: Option<String>)
    ensures
        json_get(search_msg_payload(query, count, marker), "query"@) == Some(Json::Str(query@)),
        json_get(search_msg_payload(query, count, marker), "count"@) == Some(Json::Int(count as int)),
        marker matches Some(m) ==> json_get(search_msg_payload(query, count, marker), "marker"@) == Some(
            Json::Str(m@),
        ),
        marker is None ==> json_get(search_msg_payload(query, count, marker), "marker"@) is None,
{
    reveal_strlit("query");
    reveal_strlit("count");
    reveal_strlit("marker");
    assert("query"@.len() == 5);
    assert("count"@.len() == 5);
    assert("marker"@.len() == 6);
    assert("query"@[0] != "count"@[0]);
}

/// A request about a chat's history names the chat, reaches up to the given
/// time (`now` when none is given), and is for everyone only when asked.
pub proof fn lemma_history_payload_members(chat_id: i64, last_event_time: Option<i64>, for_all: Option<bool>, now: i64)
    ensures
        json_get(history_payload(chat_id, last_event_time, for_all, now), "chatId"@) == Some(Json::Int(chat_id as int)),
        last_event_time matches Some(t) ==> json_get(history_payload(chat_id, last_event_time, for_all, now), "lastEventTime"@)
            == Some(Json::Int(t as int)),
        last_event_time is None ==> json_get(history_payload(chat_id, last_event_time, for_all, now), "lastEventTime"@)
            == Some(Json::Int(now as int)),
        json_get(history_payload(chat_id, last_event_time, for_all, now), "forAll"@) == Some(
            Json::Bool(for_all == Some(true)),
        ),
{
    reveal_strlit("chatId");
    reveal_strlit("lastEventTime");
    reveal_strlit("forAll");
    assert("chatId"@.len() == 6);
    assert("lastEventTime"@.len() == 13);
    assert("forAll"@.len() == 6);
    assert("chatId"@[0] != "forAll"@[0]);
}

/// Changing a group's profile names the group, and sends the new title (as
/// `theme`) and description exactly when they are given.
pub proof fn lemma_change_group_profile_payload_members(chat_id: i64, title: Option<String>, description: Option<String>)
    ensures
        json_get(change_group_profile_payload(chat_id, title, description), "chatId"@) == Some(
            Json::Int(chat_id as int),
        ),
        title matches Some(t) ==> json_get(change_group_profile_payload(chat_id, title, description), "theme"@)
            == Some(Json::Str(t@)),
        title is None ==> json_get(change_group_profile_payload(chat_id, title, description), "theme"@) is None,
        description matches Some(d) ==> json_get(change_group_profile_payload(chat_id, title, description), "description"@)
            == Some(Json::Str(d@)),
        description is None ==> json_get(change_group_profile_payload(chat_id, title, description), "description"@)
            is None,
{
    reveal_strlit("chatId");
    reveal_strlit("theme");
    reveal_strlit("description");
    assert("chatId"@.len() == 6);
    assert("theme"@.len() == 5);
    assert("description"@.len() == 11);
}

/// A group settings change sets each given setting, under both its
/// upper-case and its camel-case name, to the given value; a setting not
/// given is not sent; and nothing else is sent.
pub proof fn lemma_group_settings_members(
    a: Option<bool>,
    b: Option<bool>,
    c: Option<bool>,
    d: Option<bool>,
    e: Option<bool>,
)
    ensures
        ({
            let g = group_settings(a, b, c, d, e);
            &&& forall|k: Seq<char>| #[trigger] g.contains_key(k) ==> (k == "ALL_CAN_PIN_MESSAGE"@
                || k == "allCanPinMessage"@ || k == "ONLY_OWNER_CAN_CHANGE_ICON_TITLE"@
                || k == "onlyOwnerCanChangeIconTitle"@ || k == "ONLY_ADMIN_CAN_ADD_MEMBER"@
                || k == "onlyAdminCanAddMember"@ || k == "ONLY_ADMIN_CAN_CALL"@ || k == "onlyAdminCanCall"@
                || k == "MEMBERS_CAN_SEE_PRIVATE_LINK"@ || k == "membersCanSeePrivateLink"@)
            &&& a matches Some(x) ==> g.contains_key("ALL_CAN_PIN_MESSAGE"@) && g["ALL_CAN_PIN_MESSAGE"@] == Json::Bool(x) && g.contains_key("allCanPinMessage"@) && g["allCanPinMessage"@] == Json::Bool(x)
            &&& a is None ==> !g.contains_key("ALL_CAN_PIN_MESSAGE"@) && !g.contains_key("allCanPinMessage"@)
            &&& b matches Some(x) ==> g.contains_key("ONLY_OWNER_CAN_CHANGE_ICON_TITLE"@) && g["ONLY_OWNER_CAN_CHANGE_ICON_TITLE"@] == Json::Bool(x) && g.contains_key("onlyOwnerCanChangeIconTitle"@) && g["onlyOwnerCanChangeIconTitle"@] == Json::Bool(x)
            &&& b is None ==> !g.contains_key("ONLY_OWNER_CAN_CHANGE_ICON_TITLE"@) && !g.contains_key("onlyOwnerCanChangeIconTitle"@)
            &&& c matches Some(x) ==> g.contains_key("ONLY_ADMIN_CAN_ADD_MEMBER"@) && g["ONLY_ADMIN_CAN_ADD_MEMBER"@] == Json::Bool(x) && g.contains_key("onlyAdminCanAddMember"@) && g["onlyAdminCanAddMember"@] == Json::Bool(x)
            &&& c is None ==> !g.contains_key("ONLY_ADMIN_CAN_ADD_MEMBER"@) && !g.contains_key("onlyAdminCanAddMember"@)
            &&& d matches Some(x) ==> g.contains_key("ONLY_ADMIN_CAN_CALL"@) && g["ONLY_ADMIN_CAN_CALL"@] == Json::Bool(x) && g.contains_key("onlyAdminCanCall"@) && g["onlyAdminCanCall"@] == Json::Bool(x)
            &&& d is None ==> !g.contains_key("ONLY_ADMIN_CAN_CALL"@) && !g.contains_key("onlyAdminCanCall"@)
            &&& e matches Some(x) ==> g.contains_key("MEMBERS_CAN_SEE_PRIVATE_LINK"@) && g["MEMBERS_CAN_SEE_PRIVATE_LINK"@] == Json::Bool(x) && g.contains_key("membersCanSeePrivateLink"@) && g["membersCanSeePrivateLink"@] == Json::Bool(x)
            &&& e is None ==> !g.contains_key("MEMBERS_CAN_SEE_PRIVATE_LINK"@) && !g.contains_key("membersCanSeePrivateLink"@)
        }),
{
    reveal_strlit("ALL_CAN_PIN_MESSAGE");
    reveal_strlit("allCanPinMessage");
    reveal_strlit("ONLY_OWNER_CAN_CHANGE_ICON_TITLE");
    reveal_strlit("onlyOwnerCanChangeIconTitle");
    reveal_strlit("ONLY_ADMIN_CAN_ADD_MEMBER");
    reveal_strlit("onlyAdminCanAddMember");
    reveal_strlit("ONLY_ADMIN_CAN_CALL");
    reveal_strlit("onlyAdminCanCall");
    reveal_strlit("MEMBERS_CAN_SEE_PRIVATE_LINK");
    reveal_strlit("membersCanSeePrivateLink");
    assert("ALL_CAN_PIN_MESSAGE"@.len() == 19);
    assert("allCanPinMessage"@.len() == 16);
    assert("ONLY_OWNER_CAN_CHANGE_ICON_TITLE"@.len() == 32);
    assert("onlyOwnerCanChangeIconTitle"@.len() == 27);
    assert("ONLY_ADMIN_CAN_ADD_MEMBER"@.len() == 25);
    assert("onlyAdminCanAddMember"@.len() == 21);
    assert("ONLY_ADMIN_CAN_CALL"@.len() == 19);
    assert("onlyAdminCanCall"@.len() == 16);
    assert("MEMBERS_CAN_SEE_PRIVATE_LINK"@.len() == 28);
    assert("membersCanSeePrivateLink"@.len() == 24);
    assert("ALL_CAN_PIN_MESSAGE"@[0] != "ONLY_ADMIN_CAN_CALL"@[0]);
    assert("allCanPinMessage"@[0] != "onlyAdminCanCall"@[0]);
}

} // verus!
