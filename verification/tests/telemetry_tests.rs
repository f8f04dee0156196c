use rumax::api::telemetry::{
    build_login_event, build_open_chat_event, draw_chat_pick, draw_render_spans, get_source_params,
    login_event_at, nav_event_at, next_action_id, open_chats_event_at, source_params_at,
    telemetry_request, TelemetryChat, TelemetryMachine, TelemetryPhase, TelemetryWait,
};
use rumax::json::JsonValue;
use rumax::navigation::{NavigationPlanner, Screen};

fn chats() -> Vec<TelemetryChat> {
    vec![
        TelemetryChat { chat_id: 11, chat_type: "DIALOG".into() },
        TelemetryChat { chat_id: 22, chat_type: "CHAT".into() },
        TelemetryChat { chat_id: 33, chat_type: "ChatType.DIALOG".into() },
    ]
}

fn num_of(v: &JsonValue, key: &str) -> Option<i64> {
    v.get(key).and_then(|x| x.as_i64())
}

#[test]
fn action_ids_wrap() {
    assert_eq!(next_action_id(0), 1);
    assert_eq!(next_action_id(0xFFFF_FFFE), 0);
    assert_eq!(next_action_id(u64::MAX), 0);
}

#[test]
fn source_params() {
    let c = chats();
    let p = source_params_at(Screen::Chats, 5, &c, 0);
    assert_eq!((num_of(&p, "source_type"), num_of(&p, "source_id"), num_of(&p, "tab_config")), (Some(5), Some(1), Some(2)));
    assert_eq!(source_params_at(Screen::Settings, 5, &c, 0), JsonValue::object());
    let p = source_params_at(Screen::Chat, 5, &vec![], 0);
    assert_eq!((num_of(&p, "source_type"), num_of(&p, "source_id")), (Some(1), Some(5)));
    let p = source_params_at(Screen::Chat, 5, &c, 1);
    assert_eq!((num_of(&p, "source_type"), num_of(&p, "source_id")), (Some(2), Some(22)));
    let p = source_params_at(Screen::Chat, 5, &c, 2);
    assert_eq!((num_of(&p, "source_type"), num_of(&p, "source_id")), (Some(1), Some(33)));
    let p = get_source_params(Screen::Chat, 5, &c);
    assert!([11, 22, 33].contains(&num_of(&p, "source_id").unwrap()));
    assert_eq!(draw_chat_pick(0), 0);
    assert!(draw_chat_pick(3) < 3);
}

#[test]
fn events_and_their_wire_form() {
    let e = login_event_at(9, 4, 1000);
    let req = telemetry_request(&vec![e]).expect("request");
    assert_eq!(req.opcode, 5);
    let ev = &req.payload.get("events").unwrap().as_array().unwrap()[0];
    assert_eq!(num_of(ev, "time"), Some(1000));
    assert_eq!(num_of(ev, "userId"), Some(9));
    assert_eq!(num_of(ev, "sessionId"), Some(4));
    assert_eq!(ev.get("type").and_then(|t| t.as_str()), Some("PERF"));
    assert_eq!(ev.get("event").and_then(|t| t.as_str()), Some("login"));
    assert_eq!(num_of(ev.get("params").unwrap(), "errorType"), Some(100));
    assert!(telemetry_request(&vec![]).is_none());

    let source = source_params_at(Screen::Chats, 9, &vec![], 0);
    let nav = nav_event_at(9, 4, Screen::Background, Screen::Chats, 500, 17, &source, 1200);
    assert_eq!(nav.event_type, "NAV");
    assert_eq!(nav.event, "GO");
    assert_eq!(num_of(&nav.params, "screen_from"), Some(1));
    assert_eq!(num_of(&nav.params, "screen_to"), Some(150));
    assert_eq!(num_of(&nav.params, "prev_time"), Some(500));
    assert_eq!(num_of(&nav.params, "action_id"), Some(17));
    assert_eq!(num_of(&nav.params, "source_type"), Some(5));

    let oc = open_chats_event_at(9, 4, 100, 200, 7);
    let spans = oc.params.get("spans").unwrap().as_array().unwrap();
    assert_eq!(num_of(&spans[0], "duration"), Some(300));
    assert_eq!(spans[1].get("name").and_then(|n| n.as_str()), Some("chats_tab_created"));

    let e = build_open_chat_event(1, 2);
    let spans = e.params.get("spans").unwrap().as_array().unwrap();
    let m = num_of(&spans[1], "duration").unwrap();
    let r = num_of(&spans[2], "duration").unwrap();
    assert!((60..=240).contains(&m) && (50..=260).contains(&r));
    assert_eq!(num_of(&spans[0], "duration"), Some(m + r));
    let (c, r) = draw_render_spans(false);
    assert!((50..=230).contains(&c) && (180..=650).contains(&r));
    assert_eq!(build_login_event(1, 2).event, "login");
}

#[test]
fn a_whole_session() {
    let mut m = TelemetryMachine::new(NavigationPlanner::new(), 0);
    let a = m.on_poll(false, true);
    assert_eq!(a.wait, TelemetryWait::Seconds { min: 1, max: 1 });
    let a = m.on_poll(true, true);
    assert_eq!(a.wait, TelemetryWait::Seconds { min: 15, max: 90 });
    assert_eq!(m.phase, TelemetryPhase::StartingUp);
    let a = m.on_startup_elapsed(77, 10, 1000);
    assert_eq!(a.events.len(), 1);
    assert_eq!(a.events[0].event, "login");
    assert_eq!(a.events[0].session_id, 10);
    assert_eq!(m.phase, TelemetryPhase::SessionReady);

    let a = m.on_session_begins(2);
    assert_eq!(m.session_id, 11);
    assert_eq!(a.wait, TelemetryWait::Pause);
    // Background -> Chats, the chat list renders
    let c = chats();
    let a = m.on_pause_elapsed(true, false, 0, &c, 0, true, 2000);
    assert_eq!(a.wait, TelemetryWait::Render);
    assert_eq!(m.phase, TelemetryPhase::Rendering { chat: false });
    assert_eq!(m.action_id, 1);
    let a = m.on_render_elapsed(100, 200, 2100);
    assert_eq!(a.wait, TelemetryWait::Pause);
    // Chats -> Chat, the chat renders
    let a = m.on_pause_elapsed(true, false, 0, &c, 1, false, 3000);
    assert_eq!(a.wait, TelemetryWait::Render);
    let a = m.on_render_elapsed(60, 50, 3100);
    assert_eq!(a.wait, TelemetryWait::Nothing);
    assert_eq!(m.phase, TelemetryPhase::SessionEnd);
    assert_eq!(m.events.len(), 4);
    assert_eq!(num_of(&m.events[2].params, "prev_time"), Some(2000));
    assert_eq!(num_of(&m.events[2].params, "source_id"), Some(22));

    let a = m.on_session_ends(true);
    assert_eq!(a.wait, TelemetryWait::Seconds { min: 12, max: 45 });
    assert_eq!(m.phase, TelemetryPhase::Returning);
    let a = m.on_return_elapsed(4000);
    assert_eq!(a.events.len(), 5);
    assert_eq!(num_of(&a.events[4].params, "screen_from"), Some(350));
    assert_eq!(num_of(&a.events[4].params, "screen_to"), Some(1));
    assert_eq!(num_of(&a.events[4].params, "action_id"), Some(3));
    assert_eq!(a.wait, TelemetryWait::Seconds { min: 900, max: 2700 });
    assert_eq!(m.planner.current_screen, Screen::Background);
    assert!(m.events.is_empty());

    m.on_idle_elapsed();
    assert_eq!(m.phase, TelemetryPhase::SessionReady);
    m.on_session_begins(1);
    assert_eq!(m.session_id, 12);
    let a = m.on_pause_elapsed(false, false, 0, &c, 0, false, 5000);
    assert_eq!(a.wait, TelemetryWait::Stop);
    assert_eq!(m.phase, TelemetryPhase::Stopped);
}

#[test]
fn session_without_return() {
    let mut m = TelemetryMachine::new(NavigationPlanner::new(), 5);
    m.on_poll(true, true);
    m.on_startup_elapsed(1, 0, 0);
    m.on_session_begins(1);
    // Background -> Settings, nothing renders
    let a = m.on_pause_elapsed(true, false, 1, &vec![], 0, true, 10);
    assert_eq!(a.wait, TelemetryWait::Nothing);
    let a = m.on_session_ends(false);
    assert_eq!(a.events.len(), 1);
    assert_eq!(m.planner.current_screen, Screen::Background);
    assert_eq!(m.action_id, 6);
    let a = m.on_shutdown();
    assert_eq!(a.wait, TelemetryWait::Stop);
}

#[test]
fn sessions_count_up_and_end_on_the_background() {
    let mut m = TelemetryMachine::new(NavigationPlanner::new(), 0xFFFF_FFFD);
    let a = m.on_poll(false, true);
    assert!(a.events.is_empty());
    let a = m.on_poll(true, true);
    assert!(a.events.is_empty());
    let a = m.on_startup_elapsed(3, 100, 0);
    assert_eq!(a.events.len(), 1);
    assert_eq!((a.events[0].event_type.as_str(), a.events[0].event.as_str()), ("PERF", "login"));
    let c = chats();
    for session in 1..=3i64 {
        m.on_session_begins(2);
        assert_eq!(m.session_id, 100 + session);
        while m.phase == TelemetryPhase::Pausing || matches!(m.phase, TelemetryPhase::Rendering { .. }) {
            if m.phase == TelemetryPhase::Pausing {
                m.on_pause_elapsed(true, false, 0, &c, 0, true, 10);
            } else {
                m.on_render_elapsed(1, 2, 20);
            }
            assert!(m.action_id < 0xFFFF_FFFF);
        }
        m.on_session_ends(session % 2 == 0);
        if m.phase == TelemetryPhase::Returning {
            m.on_return_elapsed(30);
        }
        assert_eq!(m.phase, TelemetryPhase::Idle);
        assert_eq!(m.planner.current_screen, Screen::Background);
        assert_eq!(m.planner.history_len(), 0);
        m.on_idle_elapsed();
    }
}
