//! Inline keyboards that bots attach to messages, and their wire form.
use vstd::prelude::*;
use crate::json::{Json, JsonValue, members_of, json_of_items, insert_opt, opt_str_json, json_get};
use crate::text::{to_uppercase, to_uppercase_spec};

verus! {

/// A button of an inline keyboard.
#[derive(Debug, Clone, PartialEq, Eq)]
pub struct InlineKeyboardButton {
    pub button_type: String,
    pub text: String,
    pub url: Option<String>,
    pub web_app: Option<String>,
    pub contact_id: Option<i64>,
    pub payload: Option<String>,
}

/// The rows of buttons of a keyboard.
#[derive(Debug, Clone, PartialEq, Eq)]
pub struct InlineKeyboardLayout {
    pub buttons: Vec<Vec<InlineKeyboardButton>>,
}

/// An inline keyboard as a message attachment.
#[derive(Debug, Clone, PartialEq, Eq)]
pub struct InlineKeyboardAttachment {
    pub attach_type: String,
    pub callback_id: Option<String>,
    pub keyboard: InlineKeyboardLayout,
}

/// The text of an optional string.
pub open spec fn opt_view(o: Option<String>) -> Option<Seq<char>> {
    match o {
        Some(s) => Some(s@),
        None => None,
    }
}

/// The wire form of a button: `type` and `text` always, the optional fields
/// only when set.
pub open spec fn button_json(b: InlineKeyboardButton) -> Json {
    Json::Object(
        insert_opt(
            insert_opt(
                insert_opt(
                    insert_opt(
                        Map::empty().insert("type"@, Json::Str(b.button_type@)).insert(
                            "text"@,
                            Json::Str(b.text@),
                        ),
                        "url"@,
                        opt_str_json(b.url),
                    ),
                    "webApp"@,
                    opt_str_json(b.web_app),
                ),
                "contactId"@,
                match b.contact_id {
                    Some(c) => Some(Json::Int(c as int)),
                    None => None,
                },
            ),
            "payload"@,
            opt_str_json(b.payload),
        ),
    )
}

/// The wire form of a row of buttons.
pub open spec fn row_json(row: Seq<InlineKeyboardButton>) -> Json {
    Json::Array(Seq::new(row.len(), |i: int| button_json(row[i])))
}

/// The wire form of a layout.
pub open spec fn layout_json(l: InlineKeyboardLayout) -> Json {
    Json::Object(
        Map::empty().insert(
            "buttons"@,
            Json::Array(Seq::new(l.buttons@.len(), |i: int| row_json(l.buttons@[i]@))),
        ),
    )
}

/// The wire form of a keyboard attachment.
pub open spec fn attachment_json(a: InlineKeyboardAttachment) -> Json {
    Json::Object(
        insert_opt(
            Map::empty().insert("_type"@, Json::Str(a.attach_type@)),
            "callbackId"@,
            opt_str_json(a.callback_id),
        ).insert("keyboard"@, layout_json(a.keyboard)),
    )
}

/// Whether no row of the layout holds a button.
pub open spec fn layout_is_empty(l: InlineKeyboardLayout) -> bool {
    forall|i: int| 0 <= i < l.buttons@.len() ==> #[trigger] l.buttons@[i]@.len() == 0
}

/// The attachment type of inline keyboards.
pub fn default_keyboard_type() -> (res: String)
    ensures
        res@ == "INLINE_KEYBOARD"@,
{
    "INLINE_KEYBOARD".to_owned()
}

fn opt_string_json(o: &Option<String>) -> (res: Option<JsonValue>)
    ensures
        match res {
            Some(j) => opt_str_json(*o) == Some(j@),
            None => o is None,
        },
{
    match o {
        Some(s) => Some(JsonValue::from_str(s.as_str())),
        None => None,
    }
}

fn insert_opt_exec(obj: &mut JsonValue, key: &str, v: Option<JsonValue>)
    requires
        old(obj)@ is Object,
    ensures
        final(obj)@ is Object,
        final(obj)@ == Json::Object(
            insert_opt(
                members_of(old(obj)@),
                key@,
                match v {
                    Some(j) => Some(j@),
                    None => None,
                },
            ),
        ),
{
    match v {
        Some(j) => obj.insert(key, j),
        None => {},
    }
}

impl InlineKeyboardButton {
    /// A button of the given type, upper-cased, and caption.
    pub fn new(button_type: &str, text: &str) -> (res: InlineKeyboardButton)
        ensures
            res.button_type@ == to_uppercase_spec(button_type@),
            res.text@ == text@,
            res.url is None,
            res.web_app is None,
            res.contact_id is None,
            res.payload is None,
    {
        InlineKeyboardButton {
            button_type: to_uppercase(button_type),
            text: text.to_owned(),
            url: None,
            web_app: None,
            contact_id: None,
            payload: None,
        }
    }

    /// A button that sends `payload` back to the bot when pressed.
    pub fn callback(text: &str, payload: &str) -> (res: InlineKeyboardButton)
        ensures
            res.button_type@ == "CALLBACK"@,
            res.text@ == text@,
            res.url is None,
            res.web_app is None,
            res.contact_id is None,
            opt_view(res.payload) == Some(payload@),
    {
        InlineKeyboardButton {
            button_type: "CALLBACK".to_owned(),
            text: text.to_owned(),
            url: None,
            web_app: None,
            contact_id: None,
            payload: Some(payload.to_owned()),
        }
    }

    /// A button that opens `url`.
    pub fn url(text: &str, url: &str) -> (res: InlineKeyboardButton)
        ensures
            res.button_type@ == "LINK"@,
            res.text@ == text@,
            opt_view(res.url) == Some(url@),
            res.web_app is None,
            res.contact_id is None,
            res.payload is None,
    {
        InlineKeyboardButton {
            button_type: "LINK".to_owned(),
            text: text.to_owned(),
            url: Some(url.to_owned()),
            web_app: None,
            contact_id: None,
            payload: None,
        }
    }

    /// The wire form of the button.
    pub fn to_json(&self) -> (res: JsonValue)
        ensures
            res@ == button_json(*self),
    {
        let mut obj = JsonValue::object();
        obj.insert("type", JsonValue::from_str(self.button_type.as_str()));
        obj.insert("text", JsonValue::from_str(self.text.as_str()));
        insert_opt_exec(&mut obj, "url", opt_string_json(&self.url));
        insert_opt_exec(&mut obj, "webApp", opt_string_json(&self.web_app));
        let contact = match self.contact_id {
            Some(c) => Some(JsonValue::from_i64(c)),
            None => None,
        };
        insert_opt_exec(&mut obj, "contactId", contact);
        insert_opt_exec(&mut obj, "payload", opt_string_json(&self.payload));
        obj
    }
}

fn row_to_json(row: &Vec<InlineKeyboardButton>) -> (res: JsonValue)
    ensures
        res@ == row_json(row@),
{
    let mut items: Vec<JsonValue> = Vec::new();
    for i in 0..row.len()
        invariant
            json_of_items(items@) == Seq::new(i as nat, |k: int| button_json(row@[k])),
    {
        let v = row[i].to_json();
        proof {
            assert(items@.push(v).drop_last() =~= items@);
        }
        items.push(v);
        assert(json_of_items(items@) =~= Seq::new((i + 1) as nat, |k: int| button_json(row@[k])));
    }
    JsonValue::from_items(items)
}

impl InlineKeyboardLayout {
    /// The wire form of the layout.
    pub fn to_json(&self) -> (res: JsonValue)
        ensures
            res@ == layout_json(*self),
    {
        let mut rows: Vec<JsonValue> = Vec::new();
        for i in 0..self.buttons.len()
            invariant
                json_of_items(rows@) == Seq::new(i as nat, |k: int| row_json(self.buttons@[k]@)),
        {
            let v = row_to_json(&self.buttons[i]);
            proof {
                assert(rows@.push(v).drop_last() =~= rows@);
            }
            rows.push(v);
            assert(json_of_items(rows@) =~= Seq::new((i + 1) as nat, |k: int| row_json(self.buttons@[k]@)));
        }
        JsonValue::object().with("buttons", JsonValue::from_items(rows))
    }
}

impl InlineKeyboardAttachment {
    /// An inline keyboard attachment with the given rows.
    pub fn new(callback_id: Option<String>, rows: Vec<Vec<InlineKeyboardButton>>) -> (res: InlineKeyboardAttachment)
        ensures
            res.attach_type@ == "INLINE_KEYBOARD"@,
            res.callback_id == callback_id,
            res.keyboard.buttons == rows,
    {
        InlineKeyboardAttachment {
            attach_type: default_keyboard_type(),
            callback_id,
            keyboard: InlineKeyboardLayout { buttons: rows },
        }
    }

    /// Whether the keyboard has no button: every row, if there is any, is empty.
    #[verifier::loop_isolation(false)]
    pub fn is_empty(&self) -> (res: bool)
        ensures
            res == layout_is_empty(self.keyboard),
    {
        let rows = &self.keyboard.buttons;
        for i in 0..rows.len()
            invariant
                forall|k: int| 0 <= k < i ==> #[trigger] rows@[k]@.len() == 0,
        {
            if rows[i].len() != 0 {
                assert(self.keyboard.buttons@[i as int]@.len() != 0);
                return false;
            }
        }
        true
    }

    /// The wire form of the attachment: `_type`, `callbackId` when set, and
    /// `keyboard`.
    pub fn to_json(&self) -> (res: JsonValue)
        ensures
            res@ == attachment_json(*self),
    {
        let mut obj = JsonValue::object();
        obj.insert("_type", JsonValue::from_str(self.attach_type.as_str()));
        insert_opt_exec(&mut obj, "callbackId", opt_string_json(&self.callback_id));
        obj.insert("keyboard", self.keyboard.to_json());
        obj
    }
}

/// A button goes on the wire with its type and caption, and each optional
/// field (link, web app, contact, payload) under its own name exactly when
/// it is set.
pub proof fn lemma_button_json_members(b: InlineKeyboardButton)
    ensures
        json_get(button_json(b), "type"@) == Some(Json::Str(b.button_type@)),
        json_get(button_json(b), "text"@) == Some(Json::Str(b.text@)),
        b.url matches Some(u) ==> json_get(button_json(b), "url"@) == Some(Json::Str(u@)),
        b.url is None ==> json_get(button_json(b), "url"@) is None,
        b.web_app matches Some(w) ==> json_get(button_json(b), "webApp"@) == Some(Json::Str(w@)),
        b.web_app is None ==> json_get(button_json(b), "webApp"@) is None,
        b.contact_id matches Some(c) ==> json_get(button_json(b), "contactId"@) == Some(Json::Int(c as int)),
        b.contact_id is None ==> json_get(button_json(b), "contactId"@) is None,
        b.payload matches Some(t) ==> json_get(button_json(b), "payload"@) == Some(Json::Str(t@)),
        b.payload is None ==> json_get(button_json(b), "payload"@) is None,
{
    reveal_strlit("type");
    reveal_strlit("text");
    reveal_strlit("url");
    reveal_strlit("webApp");
    reveal_strlit("contactId");
    reveal_strlit("payload");
    assert("type"@.len() == 4);
    assert("text"@.len() == 4);
    assert("url"@.len() == 3);
    assert("webApp"@.len() == 6);
    assert("contactId"@.len() == 9);
    assert("payload"@.len() == 7);
    assert("type"@[1] != "text"@[1]);
}

/// A keyboard attachment goes on the wire with its type, its callback id
/// exactly when it has one, and its keyboard: every row, in order, with
/// every button of the row, in order, in the button's wire form.
pub proof fn lemma_attachment_json_members(a: InlineKeyboardAttachment)
    ensures
        json_get(attachment_json(a), "_type"@) == Some(Json::Str(a.attach_type@)),
        a.callback_id matches Some(c) ==> json_get(attachment_json(a), "callbackId"@) == Some(Json::Str(c@)),
        a.callback_id is None ==> json_get(attachment_json(a), "callbackId"@) is None,
        json_get(attachment_json(a), "keyboard"@) matches Some(k) && json_get(k, "buttons"@) matches Some(
            Json::Array(rows),
        ) && rows.len() == a.keyboard.buttons@.len() && forall|i: int|
            0 <= i < rows.len() ==> ((#[trigger] rows[i]) matches Json::Array(bs) && bs.len()
                == a.keyboard.buttons@[i]@.len() && forall|j: int|
                0 <= j < bs.len() ==> bs[j] == button_json(a.keyboard.buttons@[i]@[j])),
{
    reveal_strlit("_type");
    reveal_strlit("callbackId");
    reveal_strlit("keyboard");
    reveal_strlit("buttons");
    assert("_type"@.len() == 5);
    assert("callbackId"@.len() == 10);
    assert("keyboard"@.len() == 8);
    assert("buttons"@.len() == 7);
}

} // verus!
