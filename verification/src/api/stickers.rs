//! Requests about stickers and other assets, and the resolution of links.
use vstd::prelude::*;
use crate::api::{Request, now_millis, min_timestamp_millis, max_timestamp_millis};
use crate::json::{Json, JsonValue, json_get, members_of};
use crate::text::{concat, starts_with, starts_with_spec};

verus! {

/// The payload of [`get_sticker_sections`].
pub open spec fn get_sticker_sections_payload(sync: i64) -> Json {
    Json::Object(map!["type"@ => Json::Str("STICKER"@), "sync"@ => Json::Int(sync as int)])
}

/// The sticker sections changed since `sync`.
pub fn get_sticker_sections(sync: i64) -> (res: Request)
    ensures
        res.opcode == 27,
        res.payload@ == get_sticker_sections_payload(sync),
{
    let p = JsonValue::object().with("type", JsonValue::from_str("STICKER")).with("sync", JsonValue::from_i64(sync));
    Request { opcode: 27, payload: p }
}

/// The payload of [`get_favorite_stickers`].
pub open spec fn get_favorite_stickers_payload(sync: i64) -> Json {
    Json::Object(
        map!["type"@ => Json::Str("FAVORITE_STICKER"@), "sync"@ => Json::Int(sync as int)],
    )
}

/// The favourite stickers changed since `sync`.
pub fn get_favorite_stickers(sync: i64) -> (res: Request)
    ensures
        res.opcode == 27,
        res.payload@ == get_favorite_stickers_payload(sync),
{
    let p = JsonValue::object().with("type", JsonValue::from_str("FAVORITE_STICKER")).with(
        "sync",
        JsonValue::from_i64(sync),
    );
    Request { opcode: 27, payload: p }
}

/// The payload of [`get_assets_section`].
pub open spec fn get_assets_section_payload(section_id: String, from: i64, count: i32) -> Json {
    Json::Object(
        map![
            "sectionId"@ => Json::Str(section_id@),
            "from"@ => Json::Int(from as int),
            "count"@ => Json::Int(count as int),
        ],
    )
}

/// `count` assets of section `section_id` from position `from`.
pub fn get_assets_section(section_id: String, from: i64, count: i32) -> (res: Request)
    ensures
        res.opcode == 26,
        res.payload@ == get_assets_section_payload(section_id, from, count),
{
    let p = JsonValue::object().with("sectionId", JsonValue::from_string(section_id)).with(
        "from",
        JsonValue::from_i64(from),
    ).with("count", JsonValue::from_i64(count as i64));
    Request { opcode: 26, payload: p }
}

/// The payload of [`get_assets_by_ids`].
pub open spec fn get_assets_by_ids_payload(asset_type: String, ids: Vec<i64>) -> Json {
    Json::Object(
        map![
            "type"@ => Json::Str(asset_type@),
            "ids"@ => Json::Array(Seq::new(ids@.len(), |i: int| Json::Int(ids@[i] as int))),
        ],
    )
}

/// The assets of type `asset_type` with the given ids.
pub fn get_assets_by_ids(asset_type: String, ids: Vec<i64>) -> (res: Request)
    ensures
        res.opcode == 28,
        res.payload@ == get_assets_by_ids_payload(asset_type, ids),
{
    let p = JsonValue::object().with("type", JsonValue::from_string(asset_type)).with(
        "ids",
        JsonValue::from_i64s(&ids),
    );
    Request { opcode: 28, payload: p }
}

/// The payload of [`add_favorite_sticker_set`].
pub open spec fn add_favorite_sticker_set_payload(set_id: i64) -> Json {
    Json::Object(
        map!["type"@ => Json::Str("FAVORITE_STICKER_SET"@), "id"@ => Json::Int(set_id as int)],
    )
}

/// Adding sticker set `set_id` to the favourites.
pub fn add_favorite_sticker_set(set_id: i64) -> (res: Request)
    ensures
        res.opcode == 29,
        res.payload@ == add_favorite_sticker_set_payload(set_id),
{
    let p = JsonValue::object().with("type", JsonValue::from_str("FAVORITE_STICKER_SET")).with(
        "id",
        JsonValue::from_i64(set_id),
    );
    Request { opcode: 29, payload: p }
}

/// The payload of [`remove_favorite_sticker_set`].
pub open spec fn remove_favorite_sticker_set_payload(set_id: i64) -> Json {
    Json::Object(
        map![
            "type"@ => Json::Str("FAVORITE_STICKER_SET"@),
            "ids"@ => Json::Array(seq![Json::Int(set_id as int)]),
        ],
    )
}

/// Removing sticker set `set_id` from the favourites.
pub fn remove_favorite_sticker_set(set_id: i64) -> (res: Request)
    ensures
        res.opcode == 259,
        res.payload@ == remove_favorite_sticker_set_payload(set_id),
{
    let mut ids: Vec<i64> = Vec::new();
    ids.push(set_id);
    let arr = JsonValue::from_i64s(&ids);
    assert(Seq::new(ids@.len(), |i: int| Json::Int(ids@[i] as int)) =~= seq![Json::Int(set_id as int)]);
    let p = JsonValue::object().with("type", JsonValue::from_str("FAVORITE_STICKER_SET")).with("ids", arr);
    Request { opcode: 259, payload: p }
}

/// The payload of [`move_asset`].
pub open spec fn move_asset_payload(asset_type: String, id: i64, position: i32) -> Json {
    Json::Object(
        map![
            "type"@ => Json::Str(asset_type@),
            "id"@ => Json::Int(id as int),
            "position"@ => Json::Int(position as int),
        ],
    )
}

/// Moving asset `id` of type `asset_type` to `position`.
pub fn move_asset(asset_type: String, id: i64, position: i32) -> (res: Request)
    ensures
        res.opcode == 260,
        res.payload@ == move_asset_payload(asset_type, id, position),
{
    let p = JsonValue::object().with("type", JsonValue::from_string(asset_type)).with(
        "id",
        JsonValue::from_i64(id),
    ).with("position", JsonValue::from_i64(position as i64));
    Request { opcode: 260, payload: p }
}

/// The link that a link resolution asks about: `link` itself when it is an
/// `http://` or `https://` address, else `link` under `https://max.ru/`.
pub open spec fn full_link(link: Seq<char>) -> Seq<char> {
    if starts_with_spec(link, "http://"@) || starts_with_spec(link, "https://"@) {
        link
    } else {
        "https://max.ru/"@ + link
    }
}

/// The payload of [`resolve_link`].
pub open spec fn resolve_link_payload(link: String) -> Json {
    Json::Object(map!["link"@ => Json::Str(full_link(link@))])
}

/// What the link `link` leads to.
pub fn resolve_link(link: String) -> (res: Request)
    ensures
        res.opcode == 89,
        res.payload@ == resolve_link_payload(link),
{
    let clean_link = if starts_with(link.as_str(), "http://") || starts_with(link.as_str(), "https://") {
        link
    } else {
        concat("https://max.ru/", link.as_str())
    };
    Request { opcode: 89, payload: JsonValue::object().with("link", JsonValue::from_string(clean_link)) }
}

/// The payload that sends sticker `sticker_id` to chat `chat_id` at time
/// `now`: an empty message whose client id is `-now` and whose only
/// attachment is the sticker.
pub open spec fn sticker_message_payload(chat_id: i64, sticker_id: i64, notify: Option<bool>, now: i64) -> Json {
    Json::Object(
        map![
            "chatId"@ => Json::Int(chat_id as int),
            "message"@ => Json::Object(map![
                "cid"@ => Json::Int(-now),
                "text"@ => Json::Str(""@),
                "elements"@ => Json::Array(Seq::empty()),
                "attaches"@ => Json::Array(seq![Json::Object(map![
                    "_type"@ => Json::Str("STICKER"@),
                    "stickerId"@ => Json::Int(sticker_id as int),
                ])]),
            ]),
            "notify"@ => Json::Bool(match notify {
                Some(b) => b,
                None => true,
            }),
        ],
    )
}

/// Sending sticker `sticker_id` to chat `chat_id` at time `now`.
pub fn send_sticker_message_at(chat_id: i64, sticker_id: i64, notify: Option<bool>, now: i64) -> (res: Request)
    requires
        now > i64::MIN,
    ensures
        res.opcode == 64,
        res.payload@ == sticker_message_payload(chat_id, sticker_id, notify, now),
{
    let sticker = JsonValue::object().with("_type", JsonValue::from_str("STICKER")).with(
        "stickerId",
        JsonValue::from_i64(sticker_id),
    );
    let ghost sticker_model = sticker@;
    let mut attaches: Vec<JsonValue> = Vec::new();
    attaches.push(sticker);
    let attaches = JsonValue::from_items(attaches);
    assert(attaches@ == Json::Array(seq![sticker_model])) by {
        reveal_with_fuel(crate::json::json_of_items, 2);
        assert(seq![sticker_model] =~= Seq::empty().push(sticker_model));
    }
    let elements = JsonValue::from_items(Vec::new());
    assert(elements@ == Json::Array(Seq::empty()));
    let message = JsonValue::object().with("cid", JsonValue::from_i64(-now)).with("text", JsonValue::from_str("")).with(
        "elements",
        elements,
    ).with("attaches", attaches);
    let notify_value = match notify {
        Some(b) => b,
        None => true,
    };
    let p = JsonValue::object().with("chatId", JsonValue::from_i64(chat_id)).with("message", message).with(
        "notify",
        JsonValue::from_bool(notify_value),
    );
    Request { opcode: 64, payload: p }
}

/// Sending sticker `sticker_id` to chat `chat_id` now.
pub fn send_sticker_message(chat_id: i64, sticker_id: i64, notify: Option<bool>) -> (res: Request)
    ensures
        res.opcode == 64,
        exists|now: i64|
            min_timestamp_millis() < now < max_timestamp_millis() && res.payload@ == #[trigger] sticker_message_payload(
                chat_id,
                sticker_id,
                notify,
                now,
            ),
{
    let now = now_millis();
    send_sticker_message_at(chat_id, sticker_id, notify, now)
}

/// The request of [`get_sticker_sections`] carries exactly these members, each under
/// its own name, as its arguments give them.
pub proof fn lemma_get_sticker_sections_payload_members(sync: i64)
    ensures
        json_get(get_sticker_sections_payload(sync), "type"@) == Some(Json::Str("STICKER"@)),
        json_get(get_sticker_sections_payload(sync), "sync"@) == Some(Json::Int(sync as int)),
        members_of(get_sticker_sections_payload(sync)).dom() =~= set!["type"@, "sync"@],
{
    reveal_strlit("type");
    reveal_strlit("sync");
    assert("type"@.len() == 4);
    assert("sync"@.len() == 4);
    assert("type"@[0] != "sync"@[0]);
}

/// The request of [`get_favorite_stickers`] carries exactly these members, each under
/// its own name, as its arguments give them.
pub proof fn lemma_get_favorite_stickers_payload_members(sync: i64)
    ensures
        json_get(get_favorite_stickers_payload(sync), "type"@) == Some(Json::Str("FAVORITE_STICKER"@)),
        json_get(get_favorite_stickers_payload(sync), "sync"@) == Some(Json::Int(sync as int)),
        members_of(get_favorite_stickers_payload(sync)).dom() =~= set!["type"@, "sync"@],
{
    reveal_strlit("type");
    reveal_strlit("sync");
    assert("type"@.len() == 4);
    assert("sync"@.len() == 4);
    assert("type"@[0] != "sync"@[0]);
}

/// The request of [`get_assets_section`] carries exactly these members, each under
/// its own name, as its arguments give them.
pub proof fn lemma_get_assets_section_payload_members(section_id: String, from: i64, count: i32)
    ensures
        json_get(get_assets_section_payload(section_id, from, count), "sectionId"@) == Some(Json::Str(section_id@)),
        json_get(get_assets_section_payload(section_id, from, count), "from"@) == Some(Json::Int(from as int)),
        json_get(get_assets_section_payload(section_id, from, count), "count"@) == Some(Json::Int(count as int)),
        members_of(get_assets_section_payload(section_id, from, count)).dom() =~= set!["sectionId"@, "from"@, "count"@],
{
    reveal_strlit("sectionId");
    reveal_strlit("from");
    reveal_strlit("count");
    assert("sectionId"@.len() == 9);
    assert("from"@.len() == 4);
    assert("count"@.len() == 5);
}

/// The request of [`get_assets_by_ids`] carries exactly these members, each under
/// its own name, as its arguments give them.
pub proof fn lemma_get_assets_by_ids_payload_members(asset_type: String, ids: Vec<i64>)
    ensures
        json_get(get_assets_by_ids_payload(asset_type, ids), "type"@) == Some(Json::Str(asset_type@)),
        json_get(get_assets_by_ids_payload(asset_type, ids), "ids"@) == Some(Json::Array(Seq::new(ids@.len(), |i: int| Json::Int(ids@[i] as int)))),
        members_of(get_assets_by_ids_payload(asset_type, ids)).dom() =~= set!["type"@, "ids"@],
{
    reveal_strlit("type");
    reveal_strlit("ids");
    assert("type"@.len() == 4);
    assert("ids"@.len() == 3);
}

/// The request of [`add_favorite_sticker_set`] carries exactly these members, each under
/// its own name, as its arguments give them.
pub proof fn lemma_add_favorite_sticker_set_payload_members(set_id: i64)
    ensures
        json_get(add_favorite_sticker_set_payload(set_id), "type"@) == Some(Json::Str("FAVORITE_STICKER_SET"@)),
        json_get(add_favorite_sticker_set_payload(set_id), "id"@) == Some(Json::Int(set_id as int)),
        members_of(add_favorite_sticker_set_payload(set_id)).dom() =~= set!["type"@, "id"@],
{
    reveal_strlit("type");
    reveal_strlit("id");
    assert("type"@.len() == 4);
    assert("id"@.len() == 2);
}

/// The request of [`remove_favorite_sticker_set`] carries exactly these members, each under
/// its own name, as its arguments give them.
pub proof fn lemma_remove_favorite_sticker_set_payload_members(set_id: i64)
    ensures
        json_get(remove_favorite_sticker_set_payload(set_id), "type"@) == Some(Json::Str("FAVORITE_STICKER_SET"@)),
        json_get(remove_favorite_sticker_set_payload(set_id), "ids"@) == Some(Json::Array(seq![Json::Int(set_id as int)])),
        members_of(remove_favorite_sticker_set_payload(set_id)).dom() =~= set!["type"@, "ids"@],
{
    reveal_strlit("type");
    reveal_strlit("ids");
    assert("type"@.len() == 4);
    assert("ids"@.len() == 3);
}

/// The request of [`move_asset`] carries exactly these members, each under
/// its own name, as its arguments give them.
pub proof fn lemma_move_asset_payload_members(asset_type: String, id: i64, position: i32)
    ensures
        json_get(move_asset_payload(asset_type, id, position), "type"@) == Some(Json::Str(asset_type@)),
        json_get(move_asset_payload(asset_type, id, position), "id"@) == Some(Json::Int(id as int)),
        json_get(move_asset_payload(asset_type, id, position), "position"@) == Some(Json::Int(position as int)),
        members_of(move_asset_payload(asset_type, id, position)).dom() =~= set!["type"@, "id"@, "position"@],
{
    reveal_strlit("type");
    reveal_strlit("id");
    reveal_strlit("position");
    assert("type"@.len() == 4);
    assert("id"@.len() == 2);
    assert("position"@.len() == 8);
}

/// The request of [`resolve_link`] carries exactly these members, each under
/// its own name, as its arguments give them.
pub proof fn lemma_resolve_link_payload_members(link: String)
    ensures
        json_get(resolve_link_payload(link), "link"@) == Some(Json::Str(full_link(link@))),
        members_of(resolve_link_payload(link)).dom() =~= set!["link"@],
{
    reveal_strlit("link");
    assert("link"@.len() == 4);
}

/// A sticker message goes to the chat with the client id `-now`, an empty
/// text, no elements and exactly one attachment: the sticker. The
/// recipients are notified unless `notify` says not.
pub proof fn lemma_sticker_message_payload_members(chat_id: i64, sticker_id: i64, notify: Option<bool>, now: i64)
    ensures
        ({
            let p = sticker_message_payload(chat_id, sticker_id, notify, now);
            let m = json_get(p, "message"@)->0;
            let a = json_get(m, "attaches"@)->0;
            &&& json_get(p, "chatId"@) == Some(Json::Int(chat_id as int))
            &&& json_get(p, "message"@) is Some
            &&& json_get(m, "cid"@) == Some(Json::Int(-now))
            &&& json_get(m, "text"@) == Some(Json::Str(Seq::empty()))
            &&& json_get(m, "elements"@) == Some(Json::Array(Seq::empty()))
            &&& json_get(m, "attaches"@) is Some
            &&& a is Array && a->Array_0.len() == 1
            &&& json_get(a->Array_0[0], "_type"@) == Some(Json::Str("STICKER"@))
            &&& json_get(a->Array_0[0], "stickerId"@) == Some(Json::Int(sticker_id as int))
            &&& json_get(p, "notify"@) == Some(Json::Bool(notify != Some(false)))
        }),
{
    reveal_strlit("");
    assert(""@ =~= Seq::<char>::empty());
    reveal_strlit("chatId");
    reveal_strlit("message");
    reveal_strlit("notify");
    reveal_strlit("cid");
    reveal_strlit("text");
    reveal_strlit("elements");
    reveal_strlit("attaches");
    reveal_strlit("_type");
    reveal_strlit("stickerId");
    assert("chatId"@.len() == 6);
    assert("message"@.len() == 7);
    assert("notify"@.len() == 6);
    assert("cid"@.len() == 3);
    assert("text"@.len() == 4);
    assert("elements"@.len() == 8);
    assert("attaches"@.len() == 8);
    assert("_type"@.len() == 5);
    assert("stickerId"@.len() == 9);
    assert("chatId"@[0] != "notify"@[0]);
    assert("elements"@[0] != "attaches"@[0]);
}

/// A link to resolve is sent whole: a link that already names the `http`
/// or `https` scheme is kept as it is, any other is taken as a path on
/// `https://max.ru/`. Either way the result ends with the given link.
pub proof fn lemma_full_link(link: Seq<char>)
    ensures
        starts_with_spec(link, "http://"@) || starts_with_spec(link, "https://"@) ==> full_link(link) == link,
        !(starts_with_spec(link, "http://"@) || starts_with_spec(link, "https://"@)) ==> full_link(link)
            == "https://max.ru/"@ + link && starts_with_spec(full_link(link), "https://"@),
        full_link(link).len() >= link.len(),
        full_link(link).subrange(full_link(link).len() - link.len(), full_link(link).len() as int) == link,
{
    reveal_strlit("https://max.ru/");
    reveal_strlit("https://");
    let f = full_link(link);
    if !(starts_with_spec(link, "http://"@) || starts_with_spec(link, "https://"@)) {
        assert(f.subrange(0, 8) =~= "https://"@);
        assert(f.subrange(f.len() - link.len(), f.len() as int) =~= link);
    } else {
        assert(f.subrange(0, f.len() as int) =~= link);
    }
}

} // verus!
