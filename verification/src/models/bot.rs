//! Bots: their commands and the description of a bot as the server sends it.
use vstd::prelude::*;
use vstd::string::StringExecFns;
use vstd::string::StrSliceExecFns;
use crate::json::{Json, JsonValue, json_get, json_get_str, json_as_array, json_of_items};
use crate::models::keyboard::opt_view;
use crate::text::{trim, trim_spec, is_unicode_whitespace, lemma_trim_ends};

verus! {

/// A command that a bot understands.
#[derive(Debug, Clone, PartialEq, Eq)]
pub struct BotCommand {
    pub name: String,
    pub description: Option<String>,
}

/// What the library knows of a bot.
#[derive(Debug)]
pub struct BotInfo {
    pub bot_id: u64,
    pub commands: Vec<BotCommand>,
    pub contact: Option<JsonValue>,
    pub description: Option<String>,
}

/// The model of a command: its name and its description.
pub open spec fn command_view(c: BotCommand) -> (Seq<char>, Option<Seq<char>>) {
    (c.name@, opt_view(c.description))
}

/// `d` trimmed, or nothing when only whitespace remains.
pub open spec fn trimmed_nonblank(d: Seq<char>) -> Option<Seq<char>> {
    if trim_spec(d).len() == 0 {
        None
    } else {
        Some(trim_spec(d))
    }
}

/// The command that an item of the `commands` array describes: one with a
/// non-empty string `name`, and the trimmed `description` when it is a
/// string that is not blank.
pub open spec fn command_from_item(item: Json) -> Option<(Seq<char>, Option<Seq<char>>)> {
    match json_get_str(item, "name"@) {
        Some(n) => if n.len() == 0 {
            None
        } else {
            Some(
                (
                    n,
                    match json_get_str(item, "description"@) {
                        Some(d) => trimmed_nonblank(d),
                        None => None,
                    },
                ),
            )
        },
        None => None,
    }
}

/// The commands that a sequence of items describes, in order, skipping the
/// items that describe none.
pub open spec fn commands_from_items(items: Seq<Json>) -> Seq<(Seq<char>, Option<Seq<char>>)>
    decreases items.len(),
{
    if items.len() == 0 {
        Seq::empty()
    } else {
        let rest = commands_from_items(items.drop_last());
        match command_from_item(items.last()) {
            Some(c) => rest.push(c),
            None => rest,
        }
    }
}

/// The commands of a bot payload: those of its `commands` array, or none when
/// it has no such array.
pub open spec fn commands_from_payload(payload: Json) -> Seq<(Seq<char>, Option<Seq<char>>)> {
    match json_get(payload, "commands"@) {
        Some(c) => match json_as_array(c) {
            Some(items) => commands_from_items(items),
            None => Seq::empty(),
        },
        None => Seq::empty(),
    }
}

/// The description of a bot: the string `description` of its `contact`.
pub open spec fn description_from_payload(payload: Json) -> Option<Seq<char>> {
    match json_get(payload, "contact"@) {
        Some(c) => json_get_str(c, "description"@),
        None => None,
    }
}

fn trimmed_description(d: &str) -> (res: Option<String>)
    ensures
        opt_view(res) == trimmed_nonblank(d@),
{
    let t = trim(d);
    if t.unicode_len() == 0 {
        None
    } else {
        Some(t.to_owned())
    }
}

fn command_from_json(item: &JsonValue) -> (res: Option<BotCommand>)
    ensures
        match res {
            Some(c) => command_from_item(item@) == Some(command_view(c)),
            None => command_from_item(item@) is None,
        },
{
    let name = match item.get("name") {
        Some(n) => match n.as_str() {
            Some(s) => s,
            None => return None,
        },
        None => return None,
    };
    if name.unicode_len() == 0 {
        return None;
    }
    let description = match item.get("description") {
        Some(d) => match d.as_str() {
            Some(s) => trimmed_description(s),
            None => None,
        },
        None => None,
    };
    Some(BotCommand { name: name.to_owned(), description })
}

impl BotCommand {
    /// A command with the given name; the description is kept trimmed, and
    /// only when something other than whitespace remains.
    pub fn new(name: &str, description: Option<String>) -> (res: BotCommand)
        ensures
            res.name@ == name@,
            opt_view(res.description) == match description {
                Some(d) => trimmed_nonblank(d@),
                None => None,
            },
    {
        let description = match description {
            Some(d) => trimmed_description(d.as_str()),
            None => None,
        };
        BotCommand { name: name.to_owned(), description }
    }

    /// The command as a user types it: `/` followed by its name.
    pub fn slash(&self) -> (res: String)
        ensures
            res@ == seq!['/'] + self.name@,
    {
        let mut res = String::from_str("/");
        proof {
            reveal_strlit("/");
        }
        res.append(self.name.as_str());
        res
    }
}

impl BotInfo {
    /// The bot `bot_id` as `payload` describes it: the commands of its
    /// `commands` array, its `contact` and the description of that contact.
    pub fn from_payload(bot_id: u64, payload: &JsonValue) -> (res: BotInfo)
        ensures
            res.bot_id == bot_id,
            res.commands@.map_values(|c: BotCommand| command_view(c)) == commands_from_payload(payload@),
            match res.contact {
                Some(c) => json_get(payload@, "contact"@) == Some(c@),
                None => json_get(payload@, "contact"@) is None,
            },
            opt_view(res.description) == description_from_payload(payload@),
    {
        let mut commands: Vec<BotCommand> = Vec::new();
        match payload.get("commands") {
            Some(c) => match c.as_array() {
                Some(items) => {
                    for i in 0..items.len()
                        invariant
                            json_get(payload@, "commands"@) == Some(c@),
                            json_as_array(c@) == Some(json_of_items(items@)),
                            commands@.map_values(|c: BotCommand| command_view(c))
                                == commands_from_items(json_of_items(items@.take(i as int))),
                    {
                        let found = command_from_json(&items[i]);
                        proof {
                            let t = items@.take(i + 1);
                            assert(t.drop_last() =~= items@.take(i as int));
                            assert(t[t.len() - 1] == items@[i as int]);
                            let jt = json_of_items(t);
                            assert(jt.drop_last() == json_of_items(items@.take(i as int)));
                            assert(jt.last() == items@[i as int]@);
                        }
                        match found {
                            Some(cmd) => {
                                commands.push(cmd);
                            },
                            None => {},
                        }
                        assert(commands@.map_values(|c: BotCommand| command_view(c))
                            =~= commands_from_items(json_of_items(items@.take(i + 1))));
                    }
                    assert(items@.take(items.len() as int) =~= items@);
                },
                None => {},
            },
            None => {},
        }
        assert(commands@.map_values(|c: BotCommand| command_view(c)) =~= commands_from_payload(payload@));
        let contact = match payload.get("contact") {
            Some(c) => Some(c.deep_copy()),
            None => None,
        };
        let description = match &contact {
            Some(c) => match c.get("description") {
                Some(d) => match d.as_str() {
                    Some(s) => Some(s.to_owned()),
                    None => None,
                },
                None => None,
            },
            None => None,
        };
        BotInfo { bot_id, commands, contact, description }
    }
}

/// The commands read from the items of a bot's `commands` array: every
/// command has a non-empty name that some item gives as its `name`; every
/// item with a non-empty string `name` gives a command of that name; a
/// description, when kept, is not empty and neither starts nor ends with
/// whitespace; and there are never more commands than items.
pub proof fn lemma_commands_from_items(items: Seq<Json>)
    ensures
        commands_from_items(items).len() <= items.len(),
        forall|k: int|
            0 <= k < commands_from_items(items).len() ==> (#[trigger] commands_from_items(items)[k]).0.len() > 0
                && exists|i: int| 0 <= i < items.len() && json_get_str(#[trigger] items[i], "name"@) == Some(
                    commands_from_items(items)[k].0,
                ),
        forall|i: int|
            0 <= i < items.len() && (json_get_str(#[trigger] items[i], "name"@) matches Some(n) && n.len() > 0)
                ==> exists|k: int|
                0 <= k < commands_from_items(items).len() && Some((#[trigger] commands_from_items(items)[k]).0)
                    == json_get_str(items[i], "name"@),
        forall|k: int|
            0 <= k < commands_from_items(items).len() ==> ((#[trigger] commands_from_items(items)[k]).1 matches Some(d)
                ==> d.len() > 0 && !is_unicode_whitespace(d[0]) && !is_unicode_whitespace(d.last())),
    decreases items.len(),
{
    if items.len() > 0 {
        let pre = items.drop_last();
        lemma_commands_from_items(pre);
        let rest = commands_from_items(pre);
        let cur = commands_from_items(items);
        let x = items.last();
        assert(x == items[items.len() - 1]);
        assert forall|k: int| 0 <= k < rest.len() implies cur[k] == rest[k] by {
            match command_from_item(x) {
                Some(c) => assert(cur == rest.push(c)),
                None => {},
            }
        }
        match command_from_item(x) {
            Some(c) => {
                assert(cur == rest.push(c));
                match json_get_str(x, "description"@) {
                    Some(d) => lemma_trim_ends(d),
                    None => {},
                }
                assert(cur[rest.len() as int] == c);
            },
            None => {},
        }
        assert forall|k: int| 0 <= k < cur.len() implies (#[trigger] cur[k]).0.len() > 0 && exists|i: int|
            0 <= i < items.len() && json_get_str(#[trigger] items[i], "name"@) == Some(cur[k].0) by {
            if k < rest.len() {
                let i = choose|i: int| 0 <= i < pre.len() && json_get_str(#[trigger] pre[i], "name"@) == Some(rest[k].0);
                assert(items[i] == pre[i]);
            } else {
                assert(json_get_str(items[items.len() - 1], "name"@) == Some(cur[k].0));
            }
        }
        assert forall|i: int|
            0 <= i < items.len() && (json_get_str(#[trigger] items[i], "name"@) matches Some(n) && n.len() > 0)
            implies exists|k: int| 0 <= k < cur.len() && Some((#[trigger] cur[k]).0) == json_get_str(items[i], "name"@) by {
            if i < pre.len() {
                assert(items[i] == pre[i]);
                let k = choose|k: int| 0 <= k < rest.len() && Some((#[trigger] rest[k]).0) == json_get_str(pre[i], "name"@);
                assert(cur[k] == rest[k]);
            } else {
                assert(cur[rest.len() as int].0 == json_get_str(x, "name"@)->0);
            }
        }
        assert forall|k: int| 0 <= k < cur.len() implies ((#[trigger] cur[k]).1 matches Some(d) ==> d.len() > 0
            && !is_unicode_whitespace(d[0]) && !is_unicode_whitespace(d.last())) by {
            if k < rest.len() {
                assert(cur[k] == rest[k]);
            }
        }
    }
}

} // verus!
