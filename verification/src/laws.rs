//! What holds of the broker and the controller together, over every run.

use crate::app::{
    ack_effects, app_after, app_effects, as_edits, open_effects, App, EffectView, Msg,
    WindowState,
};
use crate::components::search::{search_commands, SearchMsg};
use crate::ipc::{
    broker_after, broker_released, broker_step, watch_step, Broker,
    BrokerAction, BrokerEvent, BrokerState, IpcError, IpcMsg, SignalWatcher, WatchAction,
};
use vstd::prelude::*;

verus! {

/// The broker after a sequence of events, and the actions it asked for.
pub open spec fn broker_run(broker: Broker, events: Seq<BrokerEvent>) -> (Broker, Seq<BrokerAction>)
    decreases events.len(),
{
    if events.len() == 0 {
        (broker, seq![])
    } else {
        let action = broker_step(broker.state, events[0]).1;
        let rest = broker_run(broker_after(broker, events[0]), events.drop_first());
        (rest.0, seq![action] + rest.1)
    }
}

/// The messages that a sequence of actions hands to the controller, in order.
pub open spec fn forwarded(actions: Seq<BrokerAction>) -> Seq<IpcMsg>
    decreases actions.len(),
{
    if actions.len() == 0 {
        seq![]
    } else {
        match actions[0] {
            BrokerAction::Forward(msg) => seq![msg] + forwarded(actions.drop_first()),
            _ => forwarded(actions.drop_first()),
        }
    }
}

/// What the caller reports while clients issue `cmds` one at a time: for
/// each command a connection, its decoded line, and the acknowledgment.
pub open spec fn deliveries(cmds: Seq<IpcMsg>) -> Seq<BrokerEvent>
    decreases cmds.len(),
{
    if cmds.len() == 0 {
        seq![]
    } else {
        seq![BrokerEvent::Connected, BrokerEvent::Decoded(cmds[0]), BrokerEvent::Acked] + deliveries(
            cmds.drop_first(),
        )
    }
}

/// The controller after a sequence of messages from the broker, applied in
/// order.
pub open spec fn controller_run(app: App, msgs: Seq<IpcMsg>) -> App
    decreases msgs.len(),
{
    if msgs.len() == 0 {
        app
    } else {
        controller_run(app_after(app, Msg::Ipc(msgs[0])), msgs.drop_first())
    }
}

/// A run over an event followed by others is the step on that event followed
/// by the run over the others.
pub proof fn lemma_run_first(broker: Broker, event: BrokerEvent, rest: Seq<BrokerEvent>)
    ensures
        broker_run(broker, seq![event] + rest).0 == broker_run(broker_after(broker, event), rest).0,
        broker_run(broker, seq![event] + rest).1 == seq![broker_step(broker.state, event).1]
            + broker_run(broker_after(broker, event), rest).1,
{
    let events = seq![event] + rest;
    assert(events[0] == event);
    assert(events.drop_first() =~= rest);
}

/// An action followed by others forwards what it forwards, then what the
/// others forward.
pub proof fn lemma_forwarded_first(action: BrokerAction, rest: Seq<BrokerAction>)
    ensures
        forwarded(seq![action] + rest) == match action {
            BrokerAction::Forward(msg) => seq![msg] + forwarded(rest),
            _ => forwarded(rest),
        },
{
    let actions = seq![action] + rest;
    assert(actions[0] == action);
    assert(actions.drop_first() =~= rest);
}

/// Commands are applied in the order of their connections. When clients
/// issue commands one at a time to an idle broker, the broker forwards
/// exactly these commands, in that order, and is idle again; so the
/// controller ends in the state that these commands give in that order.
pub proof fn lemma_commands_applied_in_order(broker: Broker, app: App, cmds: Seq<IpcMsg>)
    requires
        broker.state == BrokerState::Idle,
        forall|i: int| 0 <= i < cmds.len() ==> (#[trigger] cmds[i]).spec_is_client_command(),
    ensures
        broker_run(broker, deliveries(cmds)).0 == broker,
        forwarded(broker_run(broker, deliveries(cmds)).1) == cmds,
        controller_run(app, forwarded(broker_run(broker, deliveries(cmds)).1)) == controller_run(
            app,
            cmds,
        ),
    decreases cmds.len(),
{
    if cmds.len() == 0 {
        assert(forwarded(seq![]) =~= cmds);
    } else {
        let cmd = cmds[0];
        let tail = cmds.drop_first();
        let later = deliveries(tail);
        let e1 = BrokerEvent::Connected;
        let e2 = BrokerEvent::Decoded(cmd);
        let e3 = BrokerEvent::Acked;
        assert(deliveries(cmds) =~= seq![e1] + (seq![e2] + (seq![e3] + later)));
        let b1 = broker_after(broker, e1);
        let b2 = broker_after(b1, e2);
        let b3 = broker_after(b2, e3);
        assert(b3 == broker);
        lemma_run_first(broker, e1, seq![e2] + (seq![e3] + later));
        lemma_run_first(b1, e2, seq![e3] + later);
        lemma_run_first(b2, e3, later);
        assert forall|i: int| 0 <= i < tail.len() implies (#[trigger] tail[i]).spec_is_client_command() by {
            assert(tail[i] == cmds[i + 1]);
        }
        lemma_commands_applied_in_order(broker, app, tail);
        let r = broker_run(broker, later).1;
        let a3 = seq![BrokerAction::Accept] + r;
        let a2 = seq![BrokerAction::Forward(cmd)] + a3;
        let a1 = seq![BrokerAction::ReadLine] + a2;
        assert(broker_run(broker, deliveries(cmds)).1 == a1);
        lemma_forwarded_first(BrokerAction::Accept, r);
        lemma_forwarded_first(BrokerAction::Forward(cmd), a3);
        lemma_forwarded_first(BrokerAction::ReadLine, a2);
        assert(forwarded(a1) =~= cmds);
    }
}

/// One message in flight: while a forwarded message awaits its acknowledgment, nothing
/// but the acknowledgment moves the broker, and the broker asks for
/// nothing: no connection is accepted and no message forwarded.
pub proof fn lemma_pending_ack_blocks(event: BrokerEvent)
    requires
        !(event is Acked),
    ensures
        broker_step(BrokerState::Dispatched, event) == (BrokerState::Dispatched, BrokerAction::Ignore),
{
}

/// A message is forwarded only on entering the state that awaits its
/// acknowledgment, and only a command that a client may send.
pub proof fn lemma_forward_awaits_ack(state: BrokerState, event: BrokerEvent)
    ensures
        broker_step(state, event).1 matches BrokerAction::Forward(msg) ==> {
            &&& state is Accepting
            &&& event == BrokerEvent::Decoded(msg)
            &&& msg.spec_is_client_command()
            &&& broker_step(state, event).0 is Dispatched
        },
        broker_step(state, event).0 is Dispatched ==> state is Dispatched || broker_step(
            state,
            event,
        ).1 is Forward,
{
}

/// A line that is no command cannot block the broker: the connection is
/// dropped and the broker waits for the next one.
pub proof fn lemma_undecodable_line_is_dropped()
    ensures
        broker_step(BrokerState::Accepting, BrokerEvent::Undecodable) == (
            BrokerState::Idle,
            BrokerAction::Accept,
        ),
        broker_step(BrokerState::Accepting, BrokerEvent::Decoded(IpcMsg::InternalPing)) == (
            BrokerState::Idle,
            BrokerAction::Accept,
        ),
{
}

/// Opening twice opens once. After a request to open the window, a second
/// one, with no close between them, leaves the same window open, creates
/// none, and raises the one that is there.
pub proof fn lemma_open_window_idempotent(app: App, first: Option<String>, second: Option<String>)
    ensures
        ({
            let once = app_after(app, Msg::Ipc(IpcMsg::C2SOpenWindow(first)));
            let twice = app_after(once, Msg::Ipc(IpcMsg::C2SOpenWindow(second)));
            let effects = app_effects(once, Msg::Ipc(IpcMsg::C2SOpenWindow(second)));
            &&& once.win is Open
            &&& twice == once
            &&& forall|i: int| 0 <= i < effects.len() ==> !(#[trigger] effects[i] is OpenWindow)
            &&& once.win matches WindowState::Open(id) && effects.contains(EffectView::RaiseWindow(id))
        }),
{
    let once = app_after(app, Msg::Ipc(IpcMsg::C2SOpenWindow(first)));
    let effects = app_effects(once, Msg::Ipc(IpcMsg::C2SOpenWindow(second)));
    let id = once.win->Open_0;
    let acks = ack_effects(once.ipc_ready);
    let edits = as_edits(search_commands(SearchMsg::Replace(second)));
    assert(open_effects(once) =~= seq![EffectView::RaiseWindow(id)]);
    assert(effects =~= acks + seq![EffectView::RaiseWindow(id)] + edits);
    assert(effects[acks.len() as int] == EffectView::RaiseWindow(id));
}

/// A window is created only where none is open: a request to open the
/// window asks for a new one exactly when the window was closed, and the
/// window is open afterwards.
pub proof fn lemma_at_most_one_window(app: App, query: Option<String>)
    ensures
        ({
            let msg = Msg::Ipc(IpcMsg::C2SOpenWindow(query));
            let effects = app_effects(app, msg);
            &&& app_after(app, msg).win is Open
            &&& (exists|i: int| 0 <= i < effects.len() && #[trigger] effects[i] is OpenWindow)
                <==> app.win is Closed
        }),
{
    let msg = Msg::Ipc(IpcMsg::C2SOpenWindow(query));
    let effects = app_effects(app, msg);
    let acks = ack_effects(app.ipc_ready);
    let edits = as_edits(search_commands(SearchMsg::Replace(query)));
    assert(effects =~= acks + open_effects(app) + edits);
    if app.win is Closed {
        assert(effects[acks.len() as int] is OpenWindow);
    }
}

/// The window changes only on a request to open it, a request to close it,
/// and the notice that it was closed: every other message leaves it as it
/// was.
pub proof fn lemma_window_changes_only_on_request(app: App, msg: Msg)
    requires
        !(msg matches Msg::Ipc(IpcMsg::C2SOpenWindow(_))),
        !(msg is CloseWindow),
        !(msg is WindowClosedExternally),
    ensures
        app_after(app, msg).win == app.win,
        forall|i: int|
            0 <= i < app_effects(app, msg).len() ==> {
                &&& !(#[trigger] app_effects(app, msg)[i] is OpenWindow)
                &&& !(app_effects(app, msg)[i] is CloseWindow)
            },
{
    let effects = app_effects(app, msg);
    match msg {
        Msg::Ipc(IpcMsg::C2SQuit) => {
            lemma_quit_releases_then_exits(app);
            assert forall|i: int| 0 <= i < effects.len() implies !(#[trigger] effects[i] is OpenWindow)
                && !(effects[i] is CloseWindow) by {
                if 0 < i < effects.len() - 1 {
                    assert(effects[i] is Ack);
                }
            }
        },
        _ => {},
    }
}

/// A stale notice closes nothing: the notice that a window was closed
/// changes the state only where it names the window that is open.
pub proof fn lemma_stale_close_is_ignored(app: App, id: crate::app::WindowId)
    requires
        app.win != WindowState::Open(id),
    ensures
        app_after(app, Msg::WindowClosedExternally(id)) == app,
{
}

/// Every command is acknowledged exactly once. Once the broker has handed
/// over its handle, the effects of a client's command hold one
/// acknowledgment, and for a request to open the window it comes first.
pub proof fn lemma_one_ack_per_command(app: App, cmd: IpcMsg)
    requires
        app.ipc_ready,
        cmd.spec_is_client_command(),
    ensures
        ({
            let effects = app_effects(app, Msg::Ipc(cmd));
            &&& exists|i: int| 0 <= i < effects.len() && #[trigger] effects[i] is Ack
            &&& forall|i: int, j: int|
                0 <= i < effects.len() && 0 <= j < effects.len() && #[trigger] effects[i] is Ack
                    && #[trigger] effects[j] is Ack ==> i == j
            &&& cmd is C2SOpenWindow ==> effects[0] is Ack
        }),
{
    let effects = app_effects(app, Msg::Ipc(cmd));
    match cmd {
        IpcMsg::C2SQuit => {
            assert(effects =~= seq![EffectView::ReleaseChannel, EffectView::Ack, EffectView::Exit]);
            assert(effects[1] is Ack);
        },
        IpcMsg::C2SOpenWindow(query) => {
            let edits = as_edits(search_commands(SearchMsg::Replace(query)));
            assert(effects =~= seq![EffectView::Ack] + open_effects(app) + edits);
            assert(effects[0] is Ack);
        },
        IpcMsg::InternalPing => {},
    }
}

/// A quit releases the channel before the process ends, whatever the state
/// of the window and of the broker: the release comes first, the exit last,
/// and nothing is asked of the window.
pub proof fn lemma_quit_releases_then_exits(app: App)
    ensures
        ({
            let effects = app_effects(app, Msg::Ipc(IpcMsg::C2SQuit));
            &&& effects.len() >= 2
            &&& effects[0] is ReleaseChannel
            &&& effects.last() is Exit
            &&& forall|i: int|
                0 < i < effects.len() - 1 ==> #[trigger] effects[i] is Ack
        }),
{
    let effects = app_effects(app, Msg::Ipc(IpcMsg::C2SQuit));
    if app.ipc_ready {
        assert(effects =~= seq![EffectView::ReleaseChannel, EffectView::Ack, EffectView::Exit]);
    } else {
        assert(effects =~= seq![EffectView::ReleaseChannel, EffectView::Exit]);
    }
}

/// A termination signal ends the server as a client's quit does. The first
/// time the watcher sees the signal it submits a quit, once; and the
/// controller answers a quit by releasing the channel and ending the
/// process, with the window closed or open.
pub proof fn lemma_signal_quits_cleanly(watcher: SignalWatcher, app: App)
    requires
        !watcher.submitted,
    ensures
        watch_step(watcher, true).1 == WatchAction::Submit(IpcMsg::C2SQuit),
        watch_step(watch_step(watcher, true).0, true).1 == WatchAction::Finished,
        app_effects(app, Msg::Ipc(IpcMsg::C2SQuit))[0] is ReleaseChannel,
        app_effects(app, Msg::Ipc(IpcMsg::C2SQuit)).last() is Exit,
{
    lemma_quit_releases_then_exits(app);
}

/// Every failure is told from success and from every other failure by its
/// exit code.
pub proof fn lemma_exit_codes_distinguish(a: IpcError, b: IpcError)
    ensures
        a.spec_exit_code() != 0,
        a != b ==> a.spec_exit_code() != b.spec_exit_code(),
{
}

/// What a process finds under the channel name when it starts.
pub enum ChannelName {
    /// Nobody holds the name.
    Free,
    /// A live server holds the name.
    Held,
    /// A server that died left the name behind.
    Stale,
}

/// What the caller reports to a starting broker that finds the channel name
/// in the state `name`.
pub open spec fn startup_events(name: ChannelName) -> Seq<BrokerEvent> {
    match name {
        ChannelName::Free => seq![BrokerEvent::Announced, BrokerEvent::Bound],
        ChannelName::Held => seq![
            BrokerEvent::Announced,
            BrokerEvent::NameTaken,
            BrokerEvent::OwnerAlive,
        ],
        ChannelName::Stale => seq![
            BrokerEvent::Announced,
            BrokerEvent::NameTaken,
            BrokerEvent::OwnerGone,
            BrokerEvent::Bound,
        ],
    }
}

/// The channel name after a process gave up the channel: free where that
/// process owned it, and as it was where it did not.
pub open spec fn name_after_release(name: ChannelName, broker: Broker) -> ChannelName {
    if broker.owns_channel {
        ChannelName::Free
    } else {
        name
    }
}

/// A server that finds the name free, or left behind by a dead owner, comes
/// up: it owns the channel and waits for a connection.
pub proof fn lemma_start_succeeds_on_free_name(name: ChannelName)
    requires
        !(name is Held),
    ensures
        ({
            let run = broker_run(
                Broker { state: BrokerState::Starting, owns_channel: false },
                startup_events(name),
            );
            &&& run.0 == Broker { state: BrokerState::Idle, owns_channel: true }
            &&& run.1.last() == BrokerAction::Accept
            &&& forall|i: int| 0 <= i < run.1.len() ==> !(#[trigger] run.1[i] is Halt)
        }),
{
    let b0 = Broker { state: BrokerState::Starting, owns_channel: false };
    match name {
        ChannelName::Free => {
            let e1 = BrokerEvent::Announced;
            let e2 = BrokerEvent::Bound;
            assert(startup_events(name) =~= seq![e1] + (seq![e2] + seq![]));
            lemma_run_first(b0, e1, seq![e2] + seq![]);
            lemma_run_first(broker_after(b0, e1), e2, seq![]);
            let run = broker_run(b0, startup_events(name));
            assert(run.1 =~= seq![BrokerAction::Bind, BrokerAction::Accept]);
        },
        ChannelName::Stale => {
            let e1 = BrokerEvent::Announced;
            let e2 = BrokerEvent::NameTaken;
            let e3 = BrokerEvent::OwnerGone;
            let e4 = BrokerEvent::Bound;
            assert(startup_events(name) =~= seq![e1] + (seq![e2] + (seq![e3] + (seq![e4] + seq![]))));
            let b1 = broker_after(b0, e1);
            let b2 = broker_after(b1, e2);
            let b3 = broker_after(b2, e3);
            lemma_run_first(b0, e1, seq![e2] + (seq![e3] + (seq![e4] + seq![])));
            lemma_run_first(b1, e2, seq![e3] + (seq![e4] + seq![]));
            lemma_run_first(b2, e3, seq![e4] + seq![]);
            lemma_run_first(b3, e4, seq![]);
            let run = broker_run(b0, startup_events(name));
            assert(run.1 =~= seq![
                BrokerAction::Bind,
                BrokerAction::Probe,
                BrokerAction::ClearStaleAndBind,
                BrokerAction::Accept,
            ]);
        },
        ChannelName::Held => {},
    }
}

/// Start, quit, start. A server that came up on a free name and then gives
/// up the channel, as a quit makes it do, leaves the name free, so that the
/// next server comes up as the first did.
pub proof fn lemma_quit_frees_the_name(app: App)
    ensures
        ({
            let first = broker_run(
                Broker { state: BrokerState::Starting, owns_channel: false },
                startup_events(ChannelName::Free),
            ).0;
            &&& first.owns_channel
            &&& app_effects(app, Msg::Ipc(IpcMsg::C2SQuit))[0] is ReleaseChannel
            &&& name_after_release(ChannelName::Held, first) is Free
            &&& !broker_released(first).owns_channel
        }),
{
    lemma_start_succeeds_on_free_name(ChannelName::Free);
    lemma_quit_releases_then_exits(app);
}

/// Giving up the channel twice is giving it up once: whoever was asked to
/// remove the channel's leftover is not asked again, on a clean exit
/// followed by the teardown of a crash or the other way round.
pub proof fn lemma_release_is_idempotent(broker: Broker)
    ensures
        !broker_released(broker).owns_channel,
        broker_released(broker_released(broker)) == broker_released(broker),
        broker_released(broker).wf(),
{
}

/// A second server fails fast and touches nothing. A server that finds the
/// name held by a live owner stops with `NameInUse` after the probe: it
/// accepts no connection, forwards no message, and does not own the channel,
/// so that giving up the channel on its way out leaves the name with its
/// owner.
pub proof fn lemma_second_start_fails_fast()
    ensures
        ({
            let run = broker_run(
                Broker { state: BrokerState::Starting, owns_channel: false },
                startup_events(ChannelName::Held),
            );
            &&& run.0 == Broker { state: BrokerState::Stopped, owns_channel: false }
            &&& run.1 == seq![
                BrokerAction::Bind,
                BrokerAction::Probe,
                BrokerAction::Halt(IpcError::NameInUse),
            ]
            &&& name_after_release(ChannelName::Held, run.0) is Held
        }),
{
    let b0 = Broker { state: BrokerState::Starting, owns_channel: false };
    let e1 = BrokerEvent::Announced;
    let e2 = BrokerEvent::NameTaken;
    let e3 = BrokerEvent::OwnerAlive;
    assert(startup_events(ChannelName::Held) =~= seq![e1] + (seq![e2] + (seq![e3] + seq![])));
    let b1 = broker_after(b0, e1);
    let b2 = broker_after(b1, e2);
    lemma_run_first(b0, e1, seq![e2] + (seq![e3] + seq![]));
    lemma_run_first(b1, e2, seq![e3] + seq![]);
    lemma_run_first(b2, e3, seq![]);
    let run = broker_run(b0, startup_events(ChannelName::Held));
    assert(run.1 =~= seq![
        BrokerAction::Bind,
        BrokerAction::Probe,
        BrokerAction::Halt(IpcError::NameInUse),
    ]);
}

/// The probe of a second server does not reach the first server's
/// controller. A connection that brings no command takes a listening broker
/// back to where it waits for the next connection, with nothing forwarded;
/// and a broker that awaits an acknowledgment is not moved by it at all.
pub proof fn lemma_probe_leaves_owner_alone(broker: Broker)
    requires
        broker.wf(),
        broker.state is Idle || broker.state is Dispatched,
    ensures
        ({
            let run = broker_run(broker, seq![BrokerEvent::Connected, BrokerEvent::Undecodable]);
            &&& run.0 == broker
            &&& forwarded(run.1) == Seq::<IpcMsg>::empty()
        }),
{
    let e1 = BrokerEvent::Connected;
    let e2 = BrokerEvent::Undecodable;
    let events = seq![BrokerEvent::Connected, BrokerEvent::Undecodable];
    assert(events =~= seq![e1] + (seq![e2] + seq![]));
    let b1 = broker_after(broker, e1);
    lemma_run_first(broker, e1, seq![e2] + seq![]);
    lemma_run_first(b1, e2, seq![]);
    let run = broker_run(broker, events);
    let a1 = broker_step(broker.state, e1).1;
    let a2 = broker_step(b1.state, e2).1;
    assert(run.1 =~= seq![a1] + (seq![a2] + seq![]));
    lemma_forwarded_first(a2, seq![]);
    lemma_forwarded_first(a1, seq![a2] + seq![]);
}

} // verus!
