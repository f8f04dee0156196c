//! Background telemetry: the events that a mobile client reports while a
//! person walks through its screens, and the machine that decides, session
//! after session, which events to report and how long to wait in between.
use vstd::prelude::*;
use rand::Rng;
use crate::api::{Request, now_millis};
use crate::json::{Json, JsonValue, json_of_items, members_of, json_get};
use crate::navigation::{NavigationPlanner, Screen, screen_id, transitions, forward_model, back_model};

verus! {

/// A chat that navigation events may name as the source of a visit.
#[derive(Debug, Clone)]
pub struct TelemetryChat {
    pub chat_id: i64,
    pub chat_type: String,
}

/// One telemetry event.
#[derive(Debug)]
pub struct TelemetryEvent {
    pub time: i64,
    pub user_id: u64,
    /// The event's class, sent as `type`.
    pub event_type: String,
    pub event: String,
    pub params: JsonValue,
    pub session_id: i64,
}

/// The model of an event: time, user, class, name, parameters and session.
pub open spec fn event_view(e: TelemetryEvent) -> (int, int, Seq<char>, Seq<char>, Json, int) {
    (e.time as int, e.user_id as int, e.event_type@, e.event@, e.params@, e.session_id as int)
}

/// The models of a sequence of events.
pub open spec fn events_view(s: Seq<TelemetryEvent>) -> Seq<(int, int, Seq<char>, Seq<char>, Json, int)> {
    s.map_values(|e: TelemetryEvent| event_view(e))
}

/// The wire form of an event.
pub open spec fn event_json(e: (int, int, Seq<char>, Seq<char>, Json, int)) -> Json {
    Json::Object(
        map![
            "time"@ => Json::Int(e.0),
            "userId"@ => Json::Int(e.1),
            "type"@ => Json::Str(e.2),
            "event"@ => Json::Str(e.3),
            "params"@ => e.4,
            "sessionId"@ => Json::Int(e.5),
        ],
    )
}

/// The login event.
pub open spec fn login_event_spec(user_id: u64, session_id: i64, now: i64) -> (int, int, Seq<char>, Seq<char>, Json, int) {
    (
        now as int,
        user_id as int,
        "PERF"@,
        "login"@,
        Json::Object(
            map![
                "properties"@ => Json::Object(map![
                    "connection_type"@ => Json::Int(2),
                    "vpn"@ => Json::Int(0),
                    "class"@ => Json::Int(2),
                    "background"@ => Json::Int(1),
                    "warm_start"@ => Json::Int(1),
                ]),
                "errorType"@ => Json::Int(100),
            ],
        ),
        session_id as int,
    )
}

/// Whether a chat type names a dialog.
pub open spec fn is_dialog(chat_type: Seq<char>) -> bool {
    chat_type == "ChatType.DIALOG"@ || chat_type == "DIALOG"@
}

/// The source of a visit to `screen_to`: the chat list is entered from its
/// tab; a chat is entered from chat `pick` of `chats` (a dialog or another
/// chat), or from the user's own dialog when there is no chat; other screens
/// have no source.
pub open spec fn source_params_spec(screen_to: Screen, user_id: u64, chats: Seq<TelemetryChat>, pick: int) -> Map<
    Seq<char>,
    Json,
> {
    if screen_to == Screen::Chats {
        map!["source_type"@ => Json::Int(5), "source_id"@ => Json::Int(1), "tab_config"@ => Json::Int(2)]
    } else if screen_to != Screen::Chat {
        Map::empty()
    } else if chats.len() == 0 {
        map!["source_type"@ => Json::Int(1), "source_id"@ => Json::Int(user_id as int)]
    } else {
        map![
            "source_type"@ => Json::Int(if is_dialog(chats[pick].chat_type@) {
                1
            } else {
                2
            }),
            "source_id"@ => Json::Int(chats[pick].chat_id as int),
        ]
    }
}

/// The navigation event of a move from `from` to `to`.
pub open spec fn nav_event_spec(
    user_id: u64,
    session_id: i64,
    from: Screen,
    to: Screen,
    prev_time: i64,
    action_id: u64,
    source: Map<Seq<char>, Json>,
    now: i64,
) -> (int, int, Seq<char>, Seq<char>, Json, int) {
    (
        now as int,
        user_id as int,
        "NAV"@,
        "GO"@,
        Json::Object(
            map![
                "prev_time"@ => Json::Int(prev_time as int),
                "screen_to"@ => Json::Int(screen_id(to) as int),
                "action_id"@ => Json::Int(action_id as int),
                "screen_from"@ => Json::Int(screen_id(from) as int),
            ].union_prefer_right(source),
        ),
        session_id as int,
    )
}

/// One measured span of a rendering event.
pub open spec fn span_json(duration: int, name: Seq<char>) -> Json {
    Json::Object(map!["duration"@ => Json::Int(duration), "name"@ => Json::Str(name)])
}

/// The event that measures how a chat opened: building its message list
/// took `messages` milliseconds and drawing it `render`.
pub open spec fn open_chat_event_spec(user_id: u64, session_id: i64, messages: u32, render: u32, now: i64) -> (
    int,
    int,
    Seq<char>,
    Seq<char>,
    Json,
    int,
) {
    (
        now as int,
        user_id as int,
        "PERF"@,
        "open_chat_to_render"@,
        Json::Object(
            map![
                "spans"@ => Json::Array(seq![
                    span_json(messages + render, "open_chat_to_render"@),
                    span_json(messages as int, "messages_list_created"@),
                    span_json(render as int, "messages_render"@),
                ]),
                "properties"@ => Json::Object(map![
                    "class"@ => Json::Int(2),
                    "warm"@ => Json::Int(1),
                    "flow"@ => Json::Int(1),
                ]),
            ],
        ),
        session_id as int,
    )
}

/// The event that measures how the chat list opened: creating its tab took
/// `created` milliseconds and drawing it `rendered`.
pub open spec fn open_chats_event_spec(user_id: u64, session_id: i64, created: u32, rendered: u32, now: i64) -> (
    int,
    int,
    Seq<char>,
    Seq<char>,
    Json,
    int,
) {
    (
        now as int,
        user_id as int,
        "PERF"@,
        "open_chats_to_render"@,
        Json::Object(
            map![
                "spans"@ => Json::Array(seq![
                    span_json(created + rendered, "open_chats_to_render"@),
                    span_json(created as int, "chats_tab_created"@),
                    span_json(rendered as int, "chat_list_render"@),
                ]),
                "properties"@ => Json::Object(map!["class"@ => Json::Int(2)]),
            ],
        ),
        session_id as int,
    )
}

impl TelemetryEvent {
    /// The wire form of the event.
    pub fn to_json(&self) -> (res: JsonValue)
        ensures
            res@ == event_json(event_view(*self)),
    {
        JsonValue::object().with("time", JsonValue::from_i64(self.time)).with(
            "userId",
            JsonValue::from_u64(self.user_id),
        ).with("type", JsonValue::from_str(self.event_type.as_str())).with(
            "event",
            JsonValue::from_str(self.event.as_str()),
        ).with("params", self.params.deep_copy()).with("sessionId", JsonValue::from_i64(self.session_id))
    }
}

/// The payload that reports `events`.
pub open spec fn telemetry_payload(events: Seq<TelemetryEvent>) -> Json {
    Json::Object(
        map!["events"@ => Json::Array(Seq::new(events.len(), |i: int| event_json(event_view(events[i]))))],
    )
}

/// Reporting `events`: nothing to send when there are none.
pub fn telemetry_request(events: &Vec<TelemetryEvent>) -> (res: Option<Request>)
    ensures
        events@.len() == 0 ==> res is None,
        events@.len() > 0 ==> (res matches Some(r) && r.opcode == 5 && r.payload@ == telemetry_payload(events@)),
{
    if events.len() == 0 {
        return None;
    }
    let mut items: Vec<JsonValue> = Vec::new();
    for i in 0..events.len()
        invariant
            json_of_items(items@) == Seq::new(i as nat, |k: int| event_json(event_view(events@[k]))),
    {
        let v = events[i].to_json();
        proof {
            assert(items@.push(v).drop_last() =~= items@);
        }
        items.push(v);
        assert(json_of_items(items@) =~= Seq::new((i + 1) as nat, |k: int| event_json(event_view(events@[k]))));
    }
    Some(Request { opcode: 5, payload: JsonValue::object().with("events", JsonValue::from_items(items)) })
}

fn spans(total: u64, first: u32, first_name: &str, second: u32, second_name: &str, total_name: &str) -> (res: JsonValue)
    requires
        total == first + second,
    ensures
        res@ == Json::Array(
            seq![
                span_json(total as int, total_name@),
                span_json(first as int, first_name@),
                span_json(second as int, second_name@),
            ],
        ),
{
    let mut items: Vec<JsonValue> = Vec::new();
    let a = JsonValue::object().with("duration", JsonValue::from_u64(total)).with("name", JsonValue::from_str(total_name));
    let b = JsonValue::object().with("duration", JsonValue::from_u64(first as u64)).with(
        "name",
        JsonValue::from_str(first_name),
    );
    let c = JsonValue::object().with("duration", JsonValue::from_u64(second as u64)).with(
        "name",
        JsonValue::from_str(second_name),
    );
    let ghost (ja, jb, jc) = (a@, b@, c@);
    items.push(a);
    items.push(b);
    items.push(c);
    proof {
        reveal_with_fuel(json_of_items, 4);
        assert(items@.drop_last().drop_last().drop_last() =~= Seq::<JsonValue>::empty());
        assert(json_of_items(items@) =~= seq![ja, jb, jc]);
    }
    JsonValue::from_items(items)
}

/// The login event at time `now`.
pub fn login_event_at(user_id: u64, session_id: i64, now: i64) -> (res: TelemetryEvent)
    ensures
        event_view(res) == login_event_spec(user_id, session_id, now),
{
    let props = JsonValue::object().with("connection_type", JsonValue::from_i64(2)).with(
        "vpn",
        JsonValue::from_i64(0),
    ).with("class", JsonValue::from_i64(2)).with("background", JsonValue::from_i64(1)).with(
        "warm_start",
        JsonValue::from_i64(1),
    );
    let params = JsonValue::object().with("properties", props).with("errorType", JsonValue::from_i64(100));
    TelemetryEvent {
        time: now,
        user_id,
        event_type: "PERF".to_owned(),
        event: "login".to_owned(),
        params,
        session_id,
    }
}

/// The login event, now.
pub fn build_login_event(user_id: u64, session_id: i64) -> (res: TelemetryEvent)
    ensures
        exists|now: i64| event_view(res) == #[trigger] login_event_spec(user_id, session_id, now),
{
    let now = now_millis();
    login_event_at(user_id, session_id, now)
}

/// The source of a visit to `screen_to`, with `pick` the index of the chat
/// that the visit comes from.
pub fn source_params_at(screen_to: Screen, user_id: u64, chats: &Vec<TelemetryChat>, pick: usize) -> (res: JsonValue)
    requires
        screen_to == Screen::Chat && chats@.len() > 0 ==> pick < chats@.len(),
    ensures
        res@ == Json::Object(source_params_spec(screen_to, user_id, chats@, pick as int)),
{
    if screen_to == Screen::Chats {
        return JsonValue::object().with("source_type", JsonValue::from_i64(5)).with(
            "source_id",
            JsonValue::from_i64(1),
        ).with("tab_config", JsonValue::from_i64(2));
    }
    if screen_to != Screen::Chat {
        return JsonValue::object();
    }
    if chats.len() == 0 {
        return JsonValue::object().with("source_type", JsonValue::from_i64(1)).with(
            "source_id",
            JsonValue::from_u64(user_id),
        );
    }
    let chat = &chats[pick];
    let dialog = chat.chat_type == "ChatType.DIALOG".to_owned() || chat.chat_type == "DIALOG".to_owned();
    let source_type: i64 = if dialog {
        1
    } else {
        2
    };
    JsonValue::object().with("source_type", JsonValue::from_i64(source_type)).with(
        "source_id",
        JsonValue::from_i64(chat.chat_id),
    )
}

/// `rng.gen_range(0..n)` with the thread's generator: an index below `n`.
/// Which one is chance.
#[verifier::external_body]
fn random_below(n: usize) -> (res: usize)
    requires
        n > 0,
    ensures
        res < n,
{
    rand::thread_rng().gen_range(0..n)
}

/// `rng.gen_range(lo..=hi)` with the thread's generator: a number from `lo`
/// to `hi`. Which one is chance.
#[verifier::external_body]
fn random_between(lo: u32, hi: u32) -> (res: u32)
    requires
        lo <= hi,
    ensures
        lo <= res <= hi,
{
    rand::thread_rng().gen_range(lo..=hi)
}

/// The source of a visit to `screen_to`, the chat it comes from drawn at random.
pub fn get_source_params(screen_to: Screen, user_id: u64, chats: &Vec<TelemetryChat>) -> (res: JsonValue)
    ensures
        screen_to != Screen::Chat || chats@.len() == 0 ==> res@ == Json::Object(
            source_params_spec(screen_to, user_id, chats@, 0),
        ),
        screen_to == Screen::Chat && chats@.len() > 0 ==> exists|pick: int|
            0 <= pick < chats@.len() && res@ == Json::Object(#[trigger] source_params_spec(screen_to, user_id, chats@, pick)),
{
    let pick = draw_chat_pick(chats.len());
    source_params_at(screen_to, user_id, chats, pick)
}

/// The index of the chat that a visit comes from, drawn at random among `n`
/// chats (0 when there is none).
pub fn draw_chat_pick(n: usize) -> (res: usize)
    ensures
        n > 0 ==> res < n,
        n == 0 ==> res == 0,
{
    if n == 0 {
        0
    } else {
        random_below(n)
    }
}

/// The navigation event of a move from `screen_from` to `screen_to` at time
/// `now`, with the source of the visit.
pub fn nav_event_at(
    user_id: u64,
    session_id: i64,
    screen_from: Screen,
    screen_to: Screen,
    prev_time: i64,
    action_id: u64,
    source: &JsonValue,
    now: i64,
) -> (res: TelemetryEvent)
    requires
        source@ is Object,
    ensures
        event_view(res) == nav_event_spec(
            user_id,
            session_id,
            screen_from,
            screen_to,
            prev_time,
            action_id,
            members_of(source@),
            now,
        ),
{
    let mut params = JsonValue::object().with("prev_time", JsonValue::from_i64(prev_time)).with(
        "screen_to",
        JsonValue::from_u64(screen_to.id() as u64),
    ).with("action_id", JsonValue::from_u64(action_id)).with(
        "screen_from",
        JsonValue::from_u64(screen_from.id() as u64),
    );
    params.merge_from(source);
    TelemetryEvent { time: now, user_id, event_type: "NAV".to_owned(), event: "GO".to_owned(), params, session_id }
}

/// The event that measures how a chat opened, at time `now`.
pub fn open_chat_event_at(user_id: u64, session_id: i64, messages: u32, render: u32, now: i64) -> (res: TelemetryEvent)
    ensures
        event_view(res) == open_chat_event_spec(user_id, session_id, messages, render, now),
{
    let total = messages as u64 + render as u64;
    let s = spans(total, messages, "messages_list_created", render, "messages_render", "open_chat_to_render");
    let props = JsonValue::object().with("class", JsonValue::from_i64(2)).with("warm", JsonValue::from_i64(1)).with(
        "flow",
        JsonValue::from_i64(1),
    );
    let params = JsonValue::object().with("spans", s).with("properties", props);
    TelemetryEvent {
        time: now,
        user_id,
        event_type: "PERF".to_owned(),
        event: "open_chat_to_render".to_owned(),
        params,
        session_id,
    }
}

/// The event that measures how the chat list opened, at time `now`.
pub fn open_chats_event_at(user_id: u64, session_id: i64, created: u32, rendered: u32, now: i64) -> (res:
    TelemetryEvent)
    ensures
        event_view(res) == open_chats_event_spec(user_id, session_id, created, rendered, now),
{
    let total = created as u64 + rendered as u64;
    let s = spans(total, created, "chats_tab_created", rendered, "chat_list_render", "open_chats_to_render");
    let props = JsonValue::object().with("class", JsonValue::from_i64(2));
    let params = JsonValue::object().with("spans", s).with("properties", props);
    TelemetryEvent {
        time: now,
        user_id,
        event_type: "PERF".to_owned(),
        event: "open_chats_to_render".to_owned(),
        params,
        session_id,
    }
}

/// The durations of a rendering, drawn at random: for a chat, building the
/// message list takes 60 to 240 milliseconds and drawing it 50 to 260; for
/// the chat list, creating the tab takes 50 to 230 and drawing it 180 to 650.
pub fn draw_render_spans(chat: bool) -> (res: (u32, u32))
    ensures
        chat ==> 60 <= res.0 <= 240 && 50 <= res.1 <= 260,
        !chat ==> 50 <= res.0 <= 230 && 180 <= res.1 <= 650,
{
    if chat {
        let a = random_between(60, 240);
        let b = random_between(50, 260);
        (a, b)
    } else {
        let a = random_between(50, 230);
        let b = random_between(180, 650);
        (a, b)
    }
}

/// The event that measures how a chat opened, with durations drawn at random, now.
pub fn build_open_chat_event(user_id: u64, session_id: i64) -> (res: TelemetryEvent)
    ensures
        exists|m: u32, r: u32, now: i64|
            60 <= m <= 240 && 50 <= r <= 260 && event_view(res) == #[trigger] open_chat_event_spec(
                user_id,
                session_id,
                m,
                r,
                now,
            ),
{
    let (m, r) = draw_render_spans(true);
    let now = now_millis();
    open_chat_event_at(user_id, session_id, m, r, now)
}

/// The event that measures how the chat list opened, with durations drawn at
/// random, now.
pub fn build_open_chats_event(user_id: u64, session_id: i64) -> (res: TelemetryEvent)
    ensures
        exists|c: u32, r: u32, now: i64|
            50 <= c <= 230 && 180 <= r <= 650 && event_view(res) == #[trigger] open_chats_event_spec(
                user_id,
                session_id,
                c,
                r,
                now,
            ),
{
    let (c, r) = draw_render_spans(false);
    let now = now_millis();
    open_chats_event_at(user_id, session_id, c, r, now)
}

/// The action number after `action_id`: one more, kept below 0xFFFFFFFF.
pub open spec fn next_action_id_spec(action_id: u64) -> u64 {
    ((if action_id == u64::MAX {
        0
    } else {
        action_id + 1
    }) % 0xFFFF_FFFF) as u64
}

/// The action number after `action_id`.
pub fn next_action_id(action_id: u64) -> (res: u64)
    ensures
        res == next_action_id_spec(action_id),
        res < 0xFFFF_FFFFu64,
{
    action_id.wrapping_add(1) % 0xFFFF_FFFFu64
}

/// Where the telemetry task stands.
#[derive(Debug, Clone, Copy, PartialEq, Eq, Structural)]
pub enum TelemetryPhase {
    /// Waiting until the client is connected and knows its user.
    AwaitingConnection,
    /// Waiting out the delay after start-up.
    StartingUp,
    /// About to begin a session.
    SessionReady,
    /// Pausing before the next step of a session.
    Pausing,
    /// Waiting while a chat (or the chat list) renders.
    Rendering { chat: bool },
    /// The steps of the session are done.
    SessionEnd,
    /// Waiting before going back to the background.
    Returning,
    /// Idle between two sessions.
    Idle,
    /// The task has ended.
    Stopped,
}

/// What the task waits for before its next input.
#[derive(Debug, Clone, Copy, PartialEq, Eq, Structural)]
pub enum TelemetryWait {
    /// Nothing: the next input is due at once.
    Nothing,
    /// A whole number of seconds drawn from `min` to `max`.
    Seconds { min: u64, max: u64 },
    /// The pause of the session's route profile.
    Pause,
    /// The time a screen takes to render.
    Render,
    /// The task ends.
    Stop,
}

/// What the task does after an input: report `events` (when there are any),
/// then wait.
#[derive(Debug)]
pub struct TelemetryAction {
    pub events: Vec<TelemetryEvent>,
    pub wait: TelemetryWait,
}

/// The telemetry task's state.
pub struct TelemetryMachine {
    pub phase: TelemetryPhase,
    pub user_id: u64,
    pub session_id: i64,
    pub last_nav_time: i64,
    pub action_id: u64,
    pub steps_left: u32,
    pub events: Vec<TelemetryEvent>,
    pub planner: NavigationPlanner,
}

/// What one input may do to the task, as every handler of
/// [`TelemetryMachine`] guarantees: `a` is the task before the input,
/// `report` the events it reports and `b` the task after it.
/// - The action number stays, or becomes the next one.
/// - Beginning a session (leaving `SessionReady` for anything but the end of
///   the task) raises the session number by one; apart from that and the
///   start-up, the session number stays.
/// - Whenever the task goes idle, the planner is on the background screen
///   and remembers nothing.
/// - Before start-up nothing is reported; the start-up reports exactly the
///   login event; a stopped task stays stopped and reports nothing.
pub open spec fn telemetry_step(
    a: TelemetryMachine,
    report: Seq<(int, int, Seq<char>, Seq<char>, Json, int)>,
    b: TelemetryMachine,
) -> bool {
    &&& b.action_id == a.action_id || b.action_id == next_action_id_spec(a.action_id)
    &&& (a.phase == TelemetryPhase::SessionReady && b.phase != TelemetryPhase::Stopped) ==> b.session_id
        == a.session_id + 1
    &&& (a.phase != TelemetryPhase::StartingUp && !(a.phase == TelemetryPhase::SessionReady && b.phase
        != TelemetryPhase::Stopped)) ==> b.session_id == a.session_id
    &&& b.phase == TelemetryPhase::Idle ==> b.planner.current() == Screen::Background
        && b.planner.history().len() == 0
    &&& a.phase == TelemetryPhase::AwaitingConnection ==> report.len() == 0 && (b.phase
        == TelemetryPhase::AwaitingConnection || b.phase == TelemetryPhase::StartingUp || b.phase
        == TelemetryPhase::Stopped)
    &&& a.phase == TelemetryPhase::StartingUp ==> (b.phase == TelemetryPhase::SessionReady && report
        == seq![login_event_spec(b.user_id, b.session_id, b.last_nav_time)]) || (b.phase
        == TelemetryPhase::Stopped && report.len() == 0)
    &&& a.phase == TelemetryPhase::Stopped ==> b.phase == TelemetryPhase::Stopped && report.len() == 0
}

impl TelemetryMachine {
    /// The task's invariant: a session that pauses or renders still has a
    /// step to finish.
    pub open spec fn wf(&self) -> bool {
        (self.phase == TelemetryPhase::Pausing || self.phase is Rendering) ==> self.steps_left > 0
    }

    /// A task waiting for the connection, with the client's planner and
    /// action counter.
    pub fn new(planner: NavigationPlanner, action_id: u64) -> (res: TelemetryMachine)
        ensures
            res.wf(),
            res.phase == TelemetryPhase::AwaitingConnection,
            res.planner == planner,
            res.action_id == action_id,
            res.events@.len() == 0,
    {
        TelemetryMachine {
            phase: TelemetryPhase::AwaitingConnection,
            user_id: 0,
            session_id: 0,
            last_nav_time: 0,
            action_id,
            steps_left: 0,
            events: Vec::new(),
            planner,
        }
    }

    /// The connection was checked: once it is up and the user is known, the
    /// start-up delay of 15 to 90 seconds begins; until then, check again a
    /// second later.
    pub fn on_poll(&mut self, connected: bool, has_user_id: bool) -> (res: TelemetryAction)
        requires
            old(self).wf(),
            old(self).phase == TelemetryPhase::AwaitingConnection,
        ensures
            telemetry_step(*old(self), events_view(res.events@), *final(self)),
            final(self).wf(),
            res.events@.len() == 0,
            connected && has_user_id ==> *final(self) == (TelemetryMachine {
                phase: TelemetryPhase::StartingUp,
                ..*old(self)
            }) && res.wait == (TelemetryWait::Seconds { min: 15, max: 90 }),
            !(connected && has_user_id) ==> *final(self) == *old(self) && res.wait == (TelemetryWait::Seconds {
                min: 1,
                max: 1,
            }),
    {
        if connected && has_user_id {
            self.phase = TelemetryPhase::StartingUp;
            TelemetryAction { events: Vec::new(), wait: TelemetryWait::Seconds { min: 15, max: 90 } }
        } else {
            TelemetryAction { events: Vec::new(), wait: TelemetryWait::Seconds { min: 1, max: 1 } }
        }
    }

    /// The start-up delay is over: report the login of `user_id` in session
    /// `session_id`, and take `now` as the time of the last navigation.
    pub fn on_startup_elapsed(&mut self, user_id: u64, session_id: i64, now: i64) -> (res: TelemetryAction)
        requires
            old(self).wf(),
            old(self).phase == TelemetryPhase::StartingUp,
        ensures
            telemetry_step(*old(self), events_view(res.events@), *final(self)),
            final(self).wf(),
            *final(self) == (TelemetryMachine {
                phase: TelemetryPhase::SessionReady,
                user_id,
                session_id,
                last_nav_time: now,
                ..*old(self)
            }),
            events_view(res.events@) == seq![login_event_spec(user_id, session_id, now)],
            res.wait == TelemetryWait::Nothing,
    {
        self.user_id = user_id;
        self.session_id = session_id;
        self.last_nav_time = now;
        self.phase = TelemetryPhase::SessionReady;
        let mut events: Vec<TelemetryEvent> = Vec::new();
        events.push(login_event_at(user_id, session_id, now));
        assert(events_view(events@) =~= seq![login_event_spec(user_id, session_id, now)]);
        TelemetryAction { events, wait: TelemetryWait::Nothing }
    }

    /// A session of `steps` steps begins: its number is one more than the
    /// last one, and it starts with no event.
    pub fn on_session_begins(&mut self, steps: u32) -> (res: TelemetryAction)
        requires
            old(self).wf(),
            old(self).phase == TelemetryPhase::SessionReady,
            old(self).session_id < i64::MAX,
        ensures
            telemetry_step(*old(self), events_view(res.events@), *final(self)),
            final(self).wf(),
            final(self).session_id == old(self).session_id + 1,
            final(self).events@.len() == 0,
            final(self).steps_left == steps,
            steps > 0 ==> final(self).phase == TelemetryPhase::Pausing && res.wait == TelemetryWait::Pause,
            steps == 0 ==> final(self).phase == TelemetryPhase::SessionEnd && res.wait == TelemetryWait::Nothing,
            res.events@.len() == 0,
            final(self).planner == old(self).planner,
            final(self).action_id == old(self).action_id,
            final(self).last_nav_time == old(self).last_nav_time,
            final(self).user_id == old(self).user_id,
    {
        self.session_id = self.session_id + 1;
        self.events = Vec::new();
        self.steps_left = steps;
        if steps > 0 {
            self.phase = TelemetryPhase::Pausing;
            TelemetryAction { events: Vec::new(), wait: TelemetryWait::Pause }
        } else {
            self.phase = TelemetryPhase::SessionEnd;
            TelemetryAction { events: Vec::new(), wait: TelemetryWait::Nothing }
        }
    }

    fn finish_step(&mut self) -> (res: TelemetryAction)
        requires
            old(self).steps_left > 0,
        ensures
            final(self).wf(),
            final(self).steps_left == old(self).steps_left - 1,
            final(self).steps_left > 0 ==> final(self).phase == TelemetryPhase::Pausing && res.wait
                == TelemetryWait::Pause,
            final(self).steps_left == 0 ==> final(self).phase == TelemetryPhase::SessionEnd && res.wait
                == TelemetryWait::Nothing,
            res.events@.len() == 0,
            final(self).planner == old(self).planner,
            final(self).events == old(self).events,
            final(self).action_id == old(self).action_id,
            final(self).session_id == old(self).session_id,
            final(self).last_nav_time == old(self).last_nav_time,
            final(self).user_id == old(self).user_id,
    {
        self.steps_left = self.steps_left - 1;
        if self.steps_left > 0 {
            self.phase = TelemetryPhase::Pausing;
            TelemetryAction { events: Vec::new(), wait: TelemetryWait::Pause }
        } else {
            self.phase = TelemetryPhase::SessionEnd;
            TelemetryAction { events: Vec::new(), wait: TelemetryWait::Nothing }
        }
    }

    /// A pause is over. When the client has disconnected the task ends.
    /// Otherwise the planner takes a step (back when `go_back` and it
    /// remembers a screen, else along transition `choice`), the move is
    /// recorded with a new action number and the source `pick` among
    /// `chats`, and then a chat renders, or the chat list when
    /// `open_chats_coin` says so; otherwise the step is done.
    pub fn on_pause_elapsed(
        &mut self,
        connected: bool,
        go_back: bool,
        choice: usize,
        chats: &Vec<TelemetryChat>,
        pick: usize,
        open_chats_coin: bool,
        now: i64,
    ) -> (res: TelemetryAction)
        requires
            old(self).wf(),
            old(self).phase == TelemetryPhase::Pausing,
            choice < transitions(old(self).planner.current()).len(),
            chats@.len() > 0 ==> pick < chats@.len(),
        ensures
            telemetry_step(*old(self), events_view(res.events@), *final(self)),
            final(self).wf(),
            res.events@.len() == 0,
            !connected ==> *final(self) == (TelemetryMachine { phase: TelemetryPhase::Stopped, ..*old(self) })
                && res.wait == TelemetryWait::Stop,
            connected ==> {
                let from = old(self).planner.current();
                let moved = if go_back && old(self).planner.history().len() > 0 {
                    back_model(from, old(self).planner.history())
                } else {
                    forward_model(from, old(self).planner.history(), transitions(from)[choice as int].0)
                };
                let to = moved.0;
                let aid = next_action_id_spec(old(self).action_id);
                &&& (final(self).planner.current(), final(self).planner.history()) == moved
                &&& final(self).action_id == aid
                &&& final(self).last_nav_time == now
                &&& events_view(final(self).events@) == events_view(old(self).events@).push(
                    nav_event_spec(
                        old(self).user_id,
                        old(self).session_id,
                        from,
                        to,
                        old(self).last_nav_time,
                        aid,
                        source_params_spec(to, old(self).user_id, chats@, pick as int),
                        now,
                    ),
                )
                &&& to == Screen::Chat ==> final(self).phase == (TelemetryPhase::Rendering { chat: true })
                    && res.wait == TelemetryWait::Render && final(self).steps_left == old(self).steps_left
                &&& (to == Screen::Chats && open_chats_coin) ==> final(self).phase == (TelemetryPhase::Rendering {
                    chat: false,
                }) && res.wait == TelemetryWait::Render && final(self).steps_left == old(self).steps_left
                &&& (to != Screen::Chat && !(to == Screen::Chats && open_chats_coin)) ==> {
                    &&& final(self).steps_left == old(self).steps_left - 1
                    &&& final(self).steps_left > 0 ==> final(self).phase == TelemetryPhase::Pausing && res.wait
                        == TelemetryWait::Pause
                    &&& final(self).steps_left == 0 ==> final(self).phase == TelemetryPhase::SessionEnd
                        && res.wait == TelemetryWait::Nothing
                }
            },
            final(self).session_id == old(self).session_id,
            final(self).user_id == old(self).user_id,
    {
        if !connected {
            self.phase = TelemetryPhase::Stopped;
            return TelemetryAction { events: Vec::new(), wait: TelemetryWait::Stop };
        }
        let from = self.planner.current_screen();
        let to = self.planner.advance(go_back, choice);
        self.action_id = next_action_id(self.action_id);
        let source = source_params_at(to, self.user_id, chats, pick);
        let ev = nav_event_at(
            self.user_id,
            self.session_id,
            from,
            to,
            self.last_nav_time,
            self.action_id,
            &source,
            now,
        );
        self.last_nav_time = ev.time;
        let ghost before = self.events@;
        self.events.push(ev);
        assert(events_view(self.events@) =~= events_view(before).push(event_view(ev)));
        if to == Screen::Chat {
            self.phase = TelemetryPhase::Rendering { chat: true };
            TelemetryAction { events: Vec::new(), wait: TelemetryWait::Render }
        } else if to == Screen::Chats && open_chats_coin {
            self.phase = TelemetryPhase::Rendering { chat: false };
            TelemetryAction { events: Vec::new(), wait: TelemetryWait::Render }
        } else {
            self.finish_step()
        }
    }

    /// A screen has rendered: the rendering is recorded (a chat's with the
    /// durations `first` and `second` of building and drawing its messages,
    /// the chat list's with those of creating and drawing its tab), and the
    /// step is done.
    pub fn on_render_elapsed(&mut self, first: u32, second: u32, now: i64) -> (res: TelemetryAction)
        requires
            old(self).wf(),
            old(self).phase is Rendering,
        ensures
            telemetry_step(*old(self), events_view(res.events@), *final(self)),
            final(self).wf(),
            res.events@.len() == 0,
            events_view(final(self).events@) == events_view(old(self).events@).push(
                if old(self).phase == (TelemetryPhase::Rendering { chat: true }) {
                    open_chat_event_spec(old(self).user_id, old(self).session_id, first, second, now)
                } else {
                    open_chats_event_spec(old(self).user_id, old(self).session_id, first, second, now)
                },
            ),
            final(self).steps_left == old(self).steps_left - 1,
            final(self).steps_left > 0 ==> final(self).phase == TelemetryPhase::Pausing && res.wait
                == TelemetryWait::Pause,
            final(self).steps_left == 0 ==> final(self).phase == TelemetryPhase::SessionEnd && res.wait
                == TelemetryWait::Nothing,
            final(self).planner == old(self).planner,
            final(self).action_id == old(self).action_id,
            final(self).session_id == old(self).session_id,
            final(self).last_nav_time == old(self).last_nav_time,
            final(self).user_id == old(self).user_id,
    {
        let chat = match self.phase {
            TelemetryPhase::Rendering { chat } => chat,
            _ => true,
        };
        let ev = if chat {
            open_chat_event_at(self.user_id, self.session_id, first, second, now)
        } else {
            open_chats_event_at(self.user_id, self.session_id, first, second, now)
        };
        let ghost before = self.events@;
        self.events.push(ev);
        assert(events_view(self.events@) =~= events_view(before).push(event_view(ev)));
        self.finish_step()
    }

    fn send_session(&mut self) -> (res: TelemetryAction)
        requires
            old(self).wf(),
        ensures
            final(self).wf(),
            res.events@ == old(self).events@,
            final(self).events@.len() == 0,
            final(self).phase == TelemetryPhase::Idle,
            res.wait == (TelemetryWait::Seconds { min: 900, max: 2700 }),
            final(self).planner == old(self).planner,
            final(self).action_id == old(self).action_id,
            final(self).session_id == old(self).session_id,
            final(self).last_nav_time == old(self).last_nav_time,
            final(self).user_id == old(self).user_id,
            final(self).steps_left == old(self).steps_left,
    {
        let mut events: Vec<TelemetryEvent> = Vec::new();
        std::mem::swap(&mut events, &mut self.events);
        self.phase = TelemetryPhase::Idle;
        TelemetryAction { events, wait: TelemetryWait::Seconds { min: 900, max: 2700 } }
    }

    /// The steps of the session are done. When the planner is not on the
    /// background and `return_coin` says so, the task waits 12 to 45 seconds
    /// before going back to it; otherwise the planner goes back at once,
    /// unrecorded, and the session's events are reported.
    pub fn on_session_ends(&mut self, return_coin: bool) -> (res: TelemetryAction)
        requires
            old(self).wf(),
            old(self).phase == TelemetryPhase::SessionEnd,
        ensures
            telemetry_step(*old(self), events_view(res.events@), *final(self)),
            final(self).wf(),
            (old(self).planner.current() != Screen::Background && return_coin) ==> {
                &&& final(self).phase == TelemetryPhase::Returning
                &&& res.wait == (TelemetryWait::Seconds { min: 12, max: 45 })
                &&& res.events@.len() == 0
                &&& final(self).planner == old(self).planner
                &&& final(self).events == old(self).events
            },
            !(old(self).planner.current() != Screen::Background && return_coin) ==> {
                &&& final(self).phase == TelemetryPhase::Idle
                &&& res.wait == (TelemetryWait::Seconds { min: 900, max: 2700 })
                &&& res.events@ == old(self).events@
                &&& final(self).events@.len() == 0
                &&& final(self).planner.current() == Screen::Background
                &&& final(self).planner.history().len() == 0
            },
            final(self).action_id == old(self).action_id,
            final(self).session_id == old(self).session_id,
            final(self).last_nav_time == old(self).last_nav_time,
            final(self).user_id == old(self).user_id,
            final(self).steps_left == old(self).steps_left,
    {
        if self.planner.current_screen() != Screen::Background && return_coin {
            self.phase = TelemetryPhase::Returning;
            return TelemetryAction { events: Vec::new(), wait: TelemetryWait::Seconds { min: 12, max: 45 } };
        }
        self.planner.reset_to_background();
        self.send_session()
    }

    /// The wait before going back is over: the planner goes back to the
    /// background, the move is recorded with a new action number, and the
    /// session's events are reported.
    pub fn on_return_elapsed(&mut self, now: i64) -> (res: TelemetryAction)
        requires
            old(self).wf(),
            old(self).phase == TelemetryPhase::Returning,
        ensures
            telemetry_step(*old(self), events_view(res.events@), *final(self)),
            final(self).wf(),
            final(self).phase == TelemetryPhase::Idle,
            res.wait == (TelemetryWait::Seconds { min: 900, max: 2700 }),
            final(self).action_id == next_action_id_spec(old(self).action_id),
            final(self).planner.current() == Screen::Background,
            final(self).planner.history().len() == 0,
            final(self).last_nav_time == now,
            events_view(res.events@) == events_view(old(self).events@).push(
                nav_event_spec(
                    old(self).user_id,
                    old(self).session_id,
                    old(self).planner.current(),
                    Screen::Background,
                    old(self).last_nav_time,
                    next_action_id_spec(old(self).action_id),
                    Map::empty(),
                    now,
                ),
            ),
            final(self).events@.len() == 0,
            final(self).session_id == old(self).session_id,
            final(self).user_id == old(self).user_id,
            final(self).steps_left == old(self).steps_left,
    {
        self.action_id = next_action_id(self.action_id);
        let from = self.planner.current_screen();
        self.planner.reset_to_background();
        let source = JsonValue::object();
        let ev = nav_event_at(
            self.user_id,
            self.session_id,
            from,
            Screen::Background,
            self.last_nav_time,
            self.action_id,
            &source,
            now,
        );
        self.last_nav_time = ev.time;
        let ghost before = self.events@;
        self.events.push(ev);
        assert(events_view(self.events@) =~= events_view(before).push(event_view(ev)));
        self.send_session()
    }

    /// The idle time between sessions is over: the next session may begin.
    pub fn on_idle_elapsed(&mut self) -> (res: TelemetryAction)
        requires
            old(self).wf(),
            old(self).phase == TelemetryPhase::Idle,
        ensures
            telemetry_step(*old(self), events_view(res.events@), *final(self)),
            final(self).wf(),
            *final(self) == (TelemetryMachine { phase: TelemetryPhase::SessionReady, ..*old(self) }),
            res.events@.len() == 0,
            res.wait == TelemetryWait::Nothing,
    {
        self.phase = TelemetryPhase::SessionReady;
        TelemetryAction { events: Vec::new(), wait: TelemetryWait::Nothing }
    }

    /// The client shuts down: the task ends, and what the session recorded
    /// is dropped unreported.
    pub fn on_shutdown(&mut self) -> (res: TelemetryAction)
        requires
            old(self).wf(),
        ensures
            telemetry_step(*old(self), events_view(res.events@), *final(self)),
            final(self).wf(),
            *final(self) == (TelemetryMachine { phase: TelemetryPhase::Stopped, ..*old(self) }),
            res.events@.len() == 0,
            res.wait == TelemetryWait::Stop,
    {
        self.phase = TelemetryPhase::Stopped;
        TelemetryAction { events: Vec::new(), wait: TelemetryWait::Stop }
    }
}

/// Action numbers stay below 0xFFFFFFFF, and within that bound each one is
/// one more than the last.
pub proof fn lemma_action_id_bounded(action_id: u64)
    ensures
        next_action_id_spec(action_id) < 0xFFFF_FFFFu64,
        action_id + 1 < 0xFFFF_FFFFu64 ==> next_action_id_spec(action_id) == action_id + 1,
{
}

/// How many sessions begin among the inputs from state `i` to state `j` of
/// a run: the steps that leave `SessionReady` for anything but the end of
/// the task.
pub open spec fn sessions_begun(run: Seq<TelemetryMachine>, i: int, j: int) -> int
    decreases j - i,
{
    if j <= i {
        0
    } else {
        sessions_begun(run, i, j - 1) + if run[j - 1].phase == TelemetryPhase::SessionReady && run[j].phase
            != TelemetryPhase::Stopped {
            1int
        } else {
            0int
        }
    }
}

/// Over a whole run of the telemetry task (states `run`, where input `k`
/// takes `run[k]` to `run[k + 1]` and reports `reports[k]`):
/// - once it has changed, the action number is below 0xFFFFFFFF;
/// - away from the start-up, the session number rises by exactly one per
///   session begun;
/// - whenever the task is idle after a session, the planner is on the
///   background screen and remembers nothing;
/// - for a task that starts out waiting for the connection, the first
///   report it makes is the login event alone.
pub proof fn lemma_telemetry_run(
    run: Seq<TelemetryMachine>,
    reports: Seq<Seq<(int, int, Seq<char>, Seq<char>, Json, int)>>,
)
    requires
        run.len() == reports.len() + 1,
        forall|k: int| 0 <= k < reports.len() ==> telemetry_step(run[k], #[trigger] reports[k], run[k + 1]),
    ensures
        forall|i: int, j: int|
            0 <= i <= j < run.len() ==> #[trigger] run[j].action_id == #[trigger] run[i].action_id
                || run[j].action_id < 0xFFFF_FFFFu64,
        forall|i: int, j: int|
            0 <= i <= j < run.len() && (forall|k: int| i <= k < j ==> run[k].phase != TelemetryPhase::StartingUp)
                ==> #[trigger] run[j].session_id == #[trigger] run[i].session_id + sessions_begun(run, i, j),
        forall|k: int|
            0 < k < run.len() && (#[trigger] run[k]).phase == TelemetryPhase::Idle ==> run[k].planner.current()
                == Screen::Background && run[k].planner.history().len() == 0,
        run[0].phase == TelemetryPhase::AwaitingConnection ==> forall|k: int|
            0 <= k < reports.len() && (#[trigger] reports[k]).len() > 0 && (forall|m: int|
                0 <= m < k ==> reports[m].len() == 0) ==> reports[k] == seq![
                login_event_spec(run[k + 1].user_id, run[k + 1].session_id, run[k + 1].last_nav_time),
            ],
{
    assert forall|i: int, j: int| 0 <= i <= j < run.len() implies #[trigger] run[j].action_id
        == #[trigger] run[i].action_id || run[j].action_id < 0xFFFF_FFFFu64 by {
        lemma_run_action_ids(run, reports, i, j);
    }
    assert forall|i: int, j: int|
        0 <= i <= j < run.len() && (forall|k: int| i <= k < j ==> run[k].phase != TelemetryPhase::StartingUp)
        implies #[trigger] run[j].session_id == #[trigger] run[i].session_id + sessions_begun(run, i, j) by {
        lemma_run_sessions(run, reports, i, j);
    }
    assert forall|k: int| 0 < k < run.len() && (#[trigger] run[k]).phase == TelemetryPhase::Idle implies run[k].planner.current()
        == Screen::Background && run[k].planner.history().len() == 0 by {
        assert(telemetry_step(run[k - 1], reports[k - 1], run[k]));
    }
    if run[0].phase == TelemetryPhase::AwaitingConnection {
        assert forall|k: int|
            0 <= k < reports.len() && (#[trigger] reports[k]).len() > 0 && (forall|m: int|
                0 <= m < k ==> reports[m].len() == 0) implies reports[k] == seq![
            login_event_spec(run[k + 1].user_id, run[k + 1].session_id, run[k + 1].last_nav_time),
        ] by {
            lemma_run_before_first_report(run, reports, k);
            assert(telemetry_step(run[k], reports[k], run[k + 1]));
        }
    }
}

proof fn lemma_run_action_ids(
    run: Seq<TelemetryMachine>,
    reports: Seq<Seq<(int, int, Seq<char>, Seq<char>, Json, int)>>,
    i: int,
    j: int,
)
    requires
        run.len() == reports.len() + 1,
        forall|k: int| 0 <= k < reports.len() ==> telemetry_step(run[k], #[trigger] reports[k], run[k + 1]),
        0 <= i <= j < run.len(),
    ensures
        run[j].action_id == run[i].action_id || run[j].action_id < 0xFFFF_FFFFu64,
    decreases j - i,
{
    if j > i {
        lemma_run_action_ids(run, reports, i, j - 1);
        assert(telemetry_step(run[j - 1], reports[j - 1], run[j]));
        lemma_action_id_bounded(run[j - 1].action_id);
    }
}

proof fn lemma_run_sessions(
    run: Seq<TelemetryMachine>,
    reports: Seq<Seq<(int, int, Seq<char>, Seq<char>, Json, int)>>,
    i: int,
    j: int,
)
    requires
        run.len() == reports.len() + 1,
        forall|k: int| 0 <= k < reports.len() ==> telemetry_step(run[k], #[trigger] reports[k], run[k + 1]),
        0 <= i <= j < run.len(),
        forall|k: int| i <= k < j ==> run[k].phase != TelemetryPhase::StartingUp,
    ensures
        run[j].session_id == run[i].session_id + sessions_begun(run, i, j),
    decreases j - i,
{
    if j > i {
        lemma_run_sessions(run, reports, i, j - 1);
        assert(telemetry_step(run[j - 1], reports[j - 1], run[j]));
        assert(run[j - 1].phase != TelemetryPhase::StartingUp);
    }
}

proof fn lemma_run_before_first_report(
    run: Seq<TelemetryMachine>,
    reports: Seq<Seq<(int, int, Seq<char>, Seq<char>, Json, int)>>,
    k: int,
)
    requires
        run.len() == reports.len() + 1,
        forall|i: int| 0 <= i < reports.len() ==> telemetry_step(run[i], #[trigger] reports[i], run[i + 1]),
        run[0].phase == TelemetryPhase::AwaitingConnection,
        0 <= k < run.len(),
        forall|m: int| 0 <= m < k ==> reports[m].len() == 0,
    ensures
        run[k].phase == TelemetryPhase::AwaitingConnection || run[k].phase == TelemetryPhase::StartingUp
            || run[k].phase == TelemetryPhase::Stopped,
    decreases k,
{
    if k > 0 {
        lemma_run_before_first_report(run, reports, k - 1);
        assert(telemetry_step(run[k - 1], reports[k - 1], run[k]));
        assert(reports[k - 1].len() == 0);
    }
}

/// An event goes on the wire with each of its parts under its own name: its
/// time, user, class (`type`), name (`event`), parameters and session.
pub proof fn lemma_event_json_members(e: (int, int, Seq<char>, Seq<char>, Json, int))
    ensures
        json_get(event_json(e), "time"@) == Some(Json::Int(e.0)),
        json_get(event_json(e), "userId"@) == Some(Json::Int(e.1)),
        json_get(event_json(e), "type"@) == Some(Json::Str(e.2)),
        json_get(event_json(e), "event"@) == Some(Json::Str(e.3)),
        json_get(event_json(e), "params"@) == Some(e.4),
        json_get(event_json(e), "sessionId"@) == Some(Json::Int(e.5)),
        members_of(event_json(e)).dom() =~= set!["time"@, "userId"@, "type"@, "event"@, "params"@, "sessionId"@],
{
    reveal_strlit("time");
    reveal_strlit("userId");
    reveal_strlit("type");
    reveal_strlit("event");
    reveal_strlit("params");
    reveal_strlit("sessionId");
    assert("time"@.len() == 4);
    assert("userId"@.len() == 6);
    assert("type"@.len() == 4);
    assert("event"@.len() == 5);
    assert("params"@.len() == 6);
    assert("sessionId"@.len() == 9);
    assert("time"@[1] != "type"@[1]);
    assert("userId"@[0] != "params"@[0]);
}

/// The login event is a performance event named `login`, at time `now`, of
/// the user in the session, reporting a warm start from the background.
pub proof fn lemma_login_event_members(user_id: u64, session_id: i64, now: i64)
    ensures
        ({
            let e = login_event_spec(user_id, session_id, now);
            let props = json_get(e.4, "properties"@)->0;
            &&& e.0 == now && e.1 == user_id && e.5 == session_id
            &&& e.2 == "PERF"@ && e.3 == "login"@
            &&& json_get(e.4, "errorType"@) == Some(Json::Int(100))
            &&& json_get(e.4, "properties"@) is Some
            &&& json_get(props, "connection_type"@) == Some(Json::Int(2))
            &&& json_get(props, "vpn"@) == Some(Json::Int(0))
            &&& json_get(props, "class"@) == Some(Json::Int(2))
            &&& json_get(props, "background"@) == Some(Json::Int(1))
            &&& json_get(props, "warm_start"@) == Some(Json::Int(1))
        }),
{
    reveal_strlit("errorType");
    reveal_strlit("properties");
    reveal_strlit("connection_type");
    reveal_strlit("vpn");
    reveal_strlit("class");
    reveal_strlit("background");
    reveal_strlit("warm_start");
    assert("errorType"@.len() == 9);
    assert("properties"@.len() == 10);
    assert("connection_type"@.len() == 15);
    assert("vpn"@.len() == 3);
    assert("class"@.len() == 5);
    assert("background"@.len() == 10);
    assert("warm_start"@.len() == 10);
    assert("properties"@[0] != "background"@[0]);
    assert("properties"@[0] != "warm_start"@[0]);
    assert("background"@[0] != "warm_start"@[0]);
}

/// A navigation event is the move `GO` of class `NAV` at time `now`, of the
/// user in the session. Its parameters name the screens left and reached by
/// their protocol numbers, the action number and the time of the previous
/// move, and carry every member of the visit's source besides.
pub proof fn lemma_nav_event_members(
    user_id: u64,
    session_id: i64,
    from: Screen,
    to: Screen,
    prev_time: i64,
    action_id: u64,
    source: Map<Seq<char>, Json>,
    now: i64,
)
    requires
        !source.contains_key("prev_time"@),
        !source.contains_key("screen_to"@),
        !source.contains_key("action_id"@),
        !source.contains_key("screen_from"@),
    ensures
        ({
            let e = nav_event_spec(user_id, session_id, from, to, prev_time, action_id, source, now);
            &&& e.0 == now && e.1 == user_id && e.5 == session_id
            &&& e.2 == "NAV"@ && e.3 == "GO"@
            &&& json_get(e.4, "prev_time"@) == Some(Json::Int(prev_time as int))
            &&& json_get(e.4, "screen_to"@) == Some(Json::Int(screen_id(to) as int))
            &&& json_get(e.4, "screen_from"@) == Some(Json::Int(screen_id(from) as int))
            &&& json_get(e.4, "action_id"@) == Some(Json::Int(action_id as int))
            &&& forall|k: Seq<char>| #[trigger] source.contains_key(k) ==> json_get(e.4, k) == Some(source[k])
        }),
{
    reveal_strlit("prev_time");
    reveal_strlit("screen_to");
    reveal_strlit("action_id");
    reveal_strlit("screen_from");
    assert("prev_time"@.len() == 9);
    assert("screen_to"@.len() == 9);
    assert("action_id"@.len() == 9);
    assert("screen_from"@.len() == 11);
    assert("prev_time"@[0] != "screen_to"@[0]);
    assert("prev_time"@[0] != "action_id"@[0]);
    assert("screen_to"@[0] != "action_id"@[0]);
}

/// Every source of a visit leaves the navigation members to the event: it
/// names only its type, its id and, for the chat list, its tab.
pub proof fn lemma_source_params_members(screen_to: Screen, user_id: u64, chats: Seq<TelemetryChat>, pick: int)
    requires
        chats.len() > 0 ==> 0 <= pick < chats.len(),
    ensures
        ({
            let m = source_params_spec(screen_to, user_id, chats, pick);
            &&& !m.contains_key("prev_time"@) && !m.contains_key("screen_to"@)
            &&& !m.contains_key("action_id"@) && !m.contains_key("screen_from"@)
            &&& screen_to == Screen::Chats ==> m =~= map![
                "source_type"@ => Json::Int(5),
                "source_id"@ => Json::Int(1),
                "tab_config"@ => Json::Int(2),
            ]
            &&& (screen_to != Screen::Chats && screen_to != Screen::Chat) ==> m.dom().len() == 0
            &&& (screen_to == Screen::Chat && chats.len() == 0) ==> m.contains_key("source_id"@) && m["source_id"@]
                == Json::Int(user_id as int) && m["source_type"@] == Json::Int(1)
            &&& (screen_to == Screen::Chat && chats.len() > 0) ==> m.contains_key("source_id"@) && m["source_id"@]
                == Json::Int(chats[pick].chat_id as int) && m.contains_key("source_type"@) && (m["source_type"@]
                == Json::Int(1) <==> is_dialog(chats[pick].chat_type@)) && (m["source_type"@] == Json::Int(1)
                || m["source_type"@] == Json::Int(2))
        }),
{
    reveal_strlit("prev_time");
    reveal_strlit("screen_to");
    reveal_strlit("action_id");
    reveal_strlit("screen_from");
    reveal_strlit("source_type");
    reveal_strlit("source_id");
    reveal_strlit("tab_config");
    assert("prev_time"@.len() == 9);
    assert("screen_to"@.len() == 9);
    assert("action_id"@.len() == 9);
    assert("screen_from"@.len() == 11);
    assert("source_type"@.len() == 11);
    assert("source_id"@.len() == 9);
    assert("tab_config"@.len() == 10);
    assert("prev_time"@[0] != "screen_to"@[0]);
    assert("prev_time"@[0] != "action_id"@[0]);
    assert("prev_time"@[0] != "source_id"@[0]);
    assert("screen_to"@[0] != "action_id"@[0]);
    assert("screen_to"@[1] != "source_id"@[1]);
    assert("action_id"@[0] != "source_id"@[0]);
    assert("screen_from"@[1] != "source_type"@[1]);
    if screen_to != Screen::Chats && screen_to != Screen::Chat {
        assert(source_params_spec(screen_to, user_id, chats, pick).dom() =~= Set::empty());
    }
}

/// A rendering event measures three spans, in order: the whole, then its two
/// parts; the whole lasts as long as the two parts together.
pub proof fn lemma_render_events_spans(user_id: u64, session_id: i64, first: u32, second: u32, now: i64)
    ensures
        ({
            let c = open_chat_event_spec(user_id, session_id, first, second, now);
            let l = open_chats_event_spec(user_id, session_id, first, second, now);
            &&& c.0 == now && c.1 == user_id && c.5 == session_id && c.2 == "PERF"@
            &&& l.0 == now && l.1 == user_id && l.5 == session_id && l.2 == "PERF"@
            &&& c.3 == "open_chat_to_render"@ && l.3 == "open_chats_to_render"@
            &&& json_get(c.4, "spans"@) matches Some(Json::Array(sp)) && sp.len() == 3
                && json_get(sp[0], "duration"@) == Some(Json::Int(first + second))
                && json_get(sp[1], "duration"@) == Some(Json::Int(first as int))
                && json_get(sp[2], "duration"@) == Some(Json::Int(second as int))
                && json_get(sp[0], "name"@) == Some(Json::Str("open_chat_to_render"@))
                && json_get(sp[1], "name"@) == Some(Json::Str("messages_list_created"@))
                && json_get(sp[2], "name"@) == Some(Json::Str("messages_render"@))
            &&& json_get(l.4, "spans"@) matches Some(Json::Array(sp)) && sp.len() == 3
                && json_get(sp[0], "duration"@) == Some(Json::Int(first + second))
                && json_get(sp[1], "duration"@) == Some(Json::Int(first as int))
                && json_get(sp[2], "duration"@) == Some(Json::Int(second as int))
                && json_get(sp[0], "name"@) == Some(Json::Str("open_chats_to_render"@))
                && json_get(sp[1], "name"@) == Some(Json::Str("chats_tab_created"@))
                && json_get(sp[2], "name"@) == Some(Json::Str("chat_list_render"@))
        }),
{
    reveal_strlit("spans");
    reveal_strlit("properties");
    reveal_strlit("duration");
    reveal_strlit("name");
    assert("spans"@.len() == 5);
    assert("properties"@.len() == 10);
    assert("duration"@.len() == 8);
    assert("name"@.len() == 4);
}

/// A report carries only its events: all of them, in the order given, each
/// in its wire form.
pub proof fn lemma_telemetry_payload_members(events: Seq<TelemetryEvent>)
    ensures
        members_of(telemetry_payload(events)).dom() =~= set!["events"@],
        json_get(telemetry_payload(events), "events"@) matches Some(Json::Array(a)) && a.len() == events.len()
            && forall|i: int| 0 <= i < events.len() ==> a[i] == event_json(event_view(events[i])),
{
    reveal_strlit("events");
}

} // verus!
