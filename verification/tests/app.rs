use pitstop::app::{on_event, App, Effect, Msg, UiEvent, WindowId, WindowState};
use pitstop::components::list::ListMsg;
use pitstop::components::search::{EditAction, EditorCommand, SearchMsg};
use pitstop::ipc::{
    frame, server_cleanup_socket, server_listen_exit_hook, server_listen_ipc, take_line, Broker,
    BrokerAction, BrokerEvent, BrokerState, IpcError, IpcMsg, SignalWatcher, WatchAction,
};

fn ready_app() -> App {
    let mut app = App::new();
    assert_eq!(app.update(Msg::IpcReady), Vec::new());
    assert!(app.ipc_ready);
    app
}

fn started_broker() -> Broker {
    let mut broker = Broker::new();
    server_listen_ipc(&mut broker, BrokerEvent::Announced);
    server_listen_ipc(&mut broker, BrokerEvent::Bound);
    broker
}

fn open(query: Option<&str>) -> Msg {
    Msg::Ipc(IpcMsg::C2SOpenWindow(query.map(|q| q.to_string())))
}

fn count_open(effects: &[Effect]) -> usize {
    effects.iter().filter(|e| matches!(e, Effect::OpenWindow(_))).count()
}

#[test]
fn new_app_has_no_window() {
    let app = App::new();
    assert_eq!(app.win, WindowState::Closed);
    assert!(!app.ipc_ready);
    assert_eq!(app.next_window, 0);
    assert!(app.list.content.is_empty());
}

#[test]
fn open_window_with_query_seeds_the_search() {
    // The server comes up on the free name.
    let mut broker = started_broker();
    let mut app = ready_app();
    assert_eq!(app.win, WindowState::Closed);

    // A client sends its command; the server reads it back from the wire.
    let wire = frame(b"C2SOpenWindow(Some(\"abc\"))").unwrap();
    assert_eq!(take_line(&wire), Some(b"C2SOpenWindow(Some(\"abc\"))".to_vec()));
    assert_eq!(server_listen_ipc(&mut broker, BrokerEvent::Connected), BrokerAction::ReadLine);
    let decoded = IpcMsg::C2SOpenWindow(Some("abc".to_string()));
    let action = server_listen_ipc(&mut broker, BrokerEvent::Decoded(decoded.clone()));
    assert_eq!(action, BrokerAction::Forward(decoded.clone()));

    let effects = app.update(Msg::Ipc(decoded));
    assert_eq!(app.win, WindowState::Open(WindowId(0)));
    assert_eq!(
        effects,
        vec![
            Effect::Ack,
            Effect::OpenWindow(WindowId(0)),
            Effect::RaiseWindow(WindowId(0)),
            Effect::FocusEditor,
            Effect::Edit(EditorCommand::SelectAll),
            Effect::Edit(EditorCommand::Paste("abc".to_string())),
        ]
    );
    assert_eq!(server_listen_ipc(&mut broker, BrokerEvent::Acked), BrokerAction::Accept);
    assert_eq!(broker.state, BrokerState::Idle);
}

#[test]
fn repeated_open_window_raises() {
    let mut app = ready_app();
    let first = app.update(open(None));
    assert_eq!(count_open(&first), 1);
    assert_eq!(app.win, WindowState::Open(WindowId(0)));

    let second = app.update(open(None));
    assert_eq!(app.win, WindowState::Open(WindowId(0)));
    assert_eq!(count_open(&second), 0);
    assert_eq!(
        second,
        vec![
            Effect::Ack,
            Effect::RaiseWindow(WindowId(0)),
            Effect::Edit(EditorCommand::SelectAll),
            Effect::Edit(EditorCommand::Backspace),
        ]
    );
}

#[test]
fn open_window_twice_opens_one_window() {
    let mut app = ready_app();
    let mut opened = 0;
    opened += count_open(&app.update(open(Some("a"))));
    opened += count_open(&app.update(open(Some("b"))));
    assert_eq!(opened, 1);
    assert_eq!(app.win, WindowState::Open(WindowId(0)));
    assert_eq!(app.next_window, 1);
}

#[test]
fn quit_then_start_again() {
    let mut broker = started_broker();
    let mut app = ready_app();
    server_listen_ipc(&mut broker, BrokerEvent::Connected);
    server_listen_ipc(&mut broker, BrokerEvent::Decoded(IpcMsg::C2SQuit));
    let effects = app.update(Msg::Ipc(IpcMsg::C2SQuit));
    assert_eq!(effects, vec![Effect::ReleaseChannel, Effect::Ack, Effect::Exit]);
    // The release takes the name back from this process.
    assert!(server_cleanup_socket(&mut broker));
    assert!(!broker.owns_channel);

    // The next server finds the name free.
    let mut next = Broker::new();
    assert_eq!(server_listen_ipc(&mut next, BrokerEvent::Announced), BrokerAction::Bind);
    assert_eq!(server_listen_ipc(&mut next, BrokerEvent::Bound), BrokerAction::Accept);
    assert_eq!(next.state, BrokerState::Idle);
    assert!(next.owns_channel);
}

#[test]
fn second_start_is_refused() {
    let mut first = started_broker();
    let mut first_app = ready_app();
    first_app.update(open(Some("kept")));
    let window = first_app.win;

    let mut second = Broker::new();
    assert_eq!(server_listen_ipc(&mut second, BrokerEvent::Announced), BrokerAction::Bind);
    assert_eq!(server_listen_ipc(&mut second, BrokerEvent::NameTaken), BrokerAction::Probe);

    // The probe reaches the first server as a connection without a command.
    assert_eq!(server_listen_ipc(&mut first, BrokerEvent::Connected), BrokerAction::ReadLine);
    assert_eq!(take_line(b""), None);
    assert_eq!(server_listen_ipc(&mut first, BrokerEvent::Undecodable), BrokerAction::Accept);

    let action = server_listen_ipc(&mut second, BrokerEvent::OwnerAlive);
    assert_eq!(action, BrokerAction::Halt(IpcError::NameInUse));
    assert_ne!(IpcError::NameInUse.exit_code(), 0);
    assert!(IpcError::NameInUse.message().contains("occupied"));
    assert_eq!(second.state, BrokerState::Stopped);
    // The second server never owned the name, so its cleanup removes nothing.
    assert!(!server_cleanup_socket(&mut second));

    assert_eq!(first.state, BrokerState::Idle);
    assert!(first.owns_channel);
    assert_eq!(first_app.win, window);
}

#[test]
fn quit_before_the_broker_is_ready_sends_no_ack() {
    let mut app = App::new();
    assert_eq!(
        app.update(Msg::Ipc(IpcMsg::C2SQuit)),
        vec![Effect::ReleaseChannel, Effect::Exit]
    );
}

#[test]
fn signal_quits_with_the_window_closed_and_open() {
    for with_window in [false, true] {
        let mut app = ready_app();
        if with_window {
            app.update(open(None));
        }
        let mut watcher = SignalWatcher::install(true).unwrap();
        let action = server_listen_exit_hook(&mut watcher, true);
        let msg = match action {
            WatchAction::Submit(msg) => msg,
            other => panic!("no quit submitted: {:?}", other),
        };
        let effects = app.update(Msg::Ipc(msg));
        assert_eq!(effects, vec![Effect::ReleaseChannel, Effect::Ack, Effect::Exit]);
    }
}

#[test]
fn close_window_closes_the_open_window() {
    let mut app = ready_app();
    assert_eq!(app.update(Msg::CloseWindow), Vec::new());
    app.update(open(None));
    assert_eq!(app.update(Msg::CloseWindow), vec![Effect::CloseWindow(WindowId(0))]);
    assert_eq!(app.win, WindowState::Closed);
}

#[test]
fn reopening_gives_a_new_handle() {
    let mut app = ready_app();
    app.update(open(None));
    app.update(Msg::CloseWindow);
    let effects = app.update(open(None));
    assert_eq!(app.win, WindowState::Open(WindowId(1)));
    assert_eq!(effects[1], Effect::OpenWindow(WindowId(1)));
}

#[test]
fn handles_wrap_around() {
    let mut app = ready_app();
    app.next_window = u64::MAX;
    app.update(open(None));
    assert_eq!(app.win, WindowState::Open(WindowId(u64::MAX)));
    assert_eq!(app.next_window, 0);
}

#[test]
fn external_close_of_the_open_window() {
    let mut app = ready_app();
    app.update(open(None));
    assert_eq!(app.update(Msg::WindowClosedExternally(WindowId(7))), Vec::new());
    assert_eq!(app.win, WindowState::Open(WindowId(0)));
    assert_eq!(app.update(Msg::WindowClosedExternally(WindowId(0))), Vec::new());
    assert_eq!(app.win, WindowState::Closed);
}

#[test]
fn focus_messages() {
    let mut app = ready_app();
    assert_eq!(app.update(Msg::FocusWindow), Vec::new());
    assert_eq!(app.update(Msg::FocusWidget), vec![Effect::FocusEditor]);
    app.update(open(None));
    assert_eq!(app.update(Msg::FocusWindow), vec![Effect::RaiseWindow(WindowId(0))]);
    assert_eq!(app.update(Msg::Dummy), Vec::new());
}

#[test]
fn list_and_search_messages_are_passed_on() {
    let mut app = ready_app();
    app.list.dmenu_set_entries(vec!["a".to_string(), "b".to_string()]);
    app.update(Msg::List(ListMsg::Down));
    assert_eq!(app.list.focused, 1);
    app.update(Msg::List(ListMsg::Up));
    assert_eq!(app.list.focused, 0);
    assert_eq!(
        app.update(Msg::Search(SearchMsg::Action(EditAction::Paste(" x\r\ny ".to_string())))),
        vec![Effect::Edit(EditorCommand::Paste("xy".to_string()))]
    );
    assert_eq!(
        app.update(Msg::Search(SearchMsg::Action(EditAction::Other))),
        vec![Effect::Edit(EditorCommand::Perform)]
    );
}

#[test]
fn ping_acknowledges_only_a_ready_broker() {
    let mut app = App::new();
    assert_eq!(app.ping(), Vec::new());
    app.update(Msg::IpcReady);
    assert_eq!(app.ping(), vec![Effect::Ack]);
}

#[test]
fn window_events_become_messages() {
    assert_eq!(on_event(UiEvent::WindowUnfocused), Msg::FocusWindow);
    assert_eq!(on_event(UiEvent::CursorMoved), Msg::Dummy);
    assert_eq!(on_event(UiEvent::Other), Msg::FocusWidget);
}

#[test]
fn component_messages_convert() {
    assert_eq!(Msg::from(ListMsg::Up), Msg::List(ListMsg::Up));
    let replace = SearchMsg::Replace(Some("q".to_string()));
    assert_eq!(Msg::from(replace.clone()), Msg::Search(replace));
}

#[test]
fn served_messages() {
    assert!(Msg::Ipc(IpcMsg::C2SQuit).is_served());
    assert!(!Msg::Ipc(IpcMsg::InternalPing).is_served());
    assert!(Msg::List(ListMsg::Down).is_served());
    assert!(!Msg::List(ListMsg::Confirm).is_served());
    assert!(Msg::Dummy.is_served());
}

#[test]
fn new_app_lists_in_omni_mode() {
    let app = App::new();
    assert_eq!(app.list.mode, pitstop::components::list::ListMode::Omni);
    assert_eq!(app.list.focused, 0);
    assert_eq!(app.search, pitstop::components::search::Search::new());
}
