//! The protocol between the command-line clients and the server, and the
//! state machines of the two parts of the server that do not run in the
//! user-interface scheduler: the broker and the signal watcher.

use vstd::prelude::*;

verus! {

/// The one name under which the server listens. Whoever holds a live
/// listener on this name is the single running instance.
pub const IPC_NAME: &'static str = "/tmp/pitstop_ipc_channel.sock";

/// The byte that ends a record on the wire.
pub const NEWLINE: u8 = 10;

/// A message of the protocol. `C2S` messages travel from a client to the
/// server; `InternalPing` is the acknowledgment that the controller hands
/// back to the broker and is never sent by a client.
#[derive(Clone, Debug, PartialEq, Eq)]
pub enum IpcMsg {
    C2SQuit,
    C2SOpenWindow(Option<String>),
    InternalPing,
}

impl IpcMsg {
    /// True of the messages that a client may send.
    pub open spec fn spec_is_client_command(&self) -> bool {
        !(self is InternalPing)
    }

    /// Tells whether a client may send this message.
    #[verifier::when_used_as_spec(spec_is_client_command)]
    pub fn is_client_command(&self) -> (b: bool)
        ensures
            b == self.spec_is_client_command(),
    {
        match self {
            IpcMsg::InternalPing => false,
            _ => true,
        }
    }
}

/// What can go wrong between a client, the channel and the server.
#[derive(Clone, Copy, Debug, PartialEq, Eq, Structural)]
pub enum IpcError {
    /// Another live server holds the channel name.
    NameInUse,
    /// No server listens on the channel name.
    ChannelUnavailable,
    /// A received line is not one well-formed client command.
    ProtocolDecode,
    /// The termination hook could not be installed.
    SignalHandlerInstall,
    /// The channel failed in some other way.
    Transport,
}

impl IpcError {
    /// The exit code of a process that ends with this error.
    pub open spec fn spec_exit_code(&self) -> u8 {
        match self {
            IpcError::ChannelUnavailable => 2,
            IpcError::NameInUse => 3,
            IpcError::ProtocolDecode => 4,
            IpcError::SignalHandlerInstall => 5,
            IpcError::Transport => 1,
        }
    }

    /// The exit code of a process that ends with this error: never zero, and
    /// a different one for each error.
    #[verifier::when_used_as_spec(spec_exit_code)]
    pub fn exit_code(&self) -> (code: u8)
        ensures
            code == self.spec_exit_code(),
            code != 0,
    {
        match self {
            IpcError::ChannelUnavailable => 2,
            IpcError::NameInUse => 3,
            IpcError::ProtocolDecode => 4,
            IpcError::SignalHandlerInstall => 5,
            IpcError::Transport => 1,
        }
    }

    /// The text shown to the operator for this error.
    pub open spec fn spec_message(&self) -> Seq<char> {
        match self {
            IpcError::NameInUse => "the channel is occupied: another instance is already running"@,
            IpcError::ChannelUnavailable => "no server is running"@,
            IpcError::ProtocolDecode => "the command was rejected: malformed message"@,
            IpcError::SignalHandlerInstall => "the termination hook could not be installed"@,
            IpcError::Transport => "the channel failed"@,
        }
    }

    /// The text shown to the operator for this error.
    pub fn message(&self) -> (text: &'static str)
        ensures
            text@ == self.spec_message(),
    {
        match self {
            IpcError::NameInUse => "the channel is occupied: another instance is already running",
            IpcError::ChannelUnavailable => "no server is running",
            IpcError::ProtocolDecode => "the command was rejected: malformed message",
            IpcError::SignalHandlerInstall => "the termination hook could not be installed",
            IpcError::Transport => "the channel failed",
        }
    }
}

/// A record as it travels: its bytes followed by one newline.
pub open spec fn framed(record: Seq<u8>) -> Seq<u8> {
    record.push(NEWLINE)
}

/// `record` is the first line of `buf`: the bytes of `buf` before its first
/// newline.
pub open spec fn is_first_line(buf: Seq<u8>, record: Seq<u8>) -> bool {
    &&& !record.contains(NEWLINE)
    &&& record.len() < buf.len()
    &&& buf.subrange(0, record.len() as int) == record
    &&& buf[record.len() as int] == NEWLINE
}

/// Frames one encoded message for the wire. A record that holds a newline
/// cannot be framed, since the receiver would read only a part of it.
pub fn frame(record: &[u8]) -> (out: Option<Vec<u8>>)
    ensures
        out is None <==> record@.contains(NEWLINE),
        out matches Some(bytes) ==> bytes@ == framed(record@),
{
    let mut bytes: Vec<u8> = Vec::new();
    let mut i: usize = 0;
    while i < record.len()
        invariant
            i <= record.len(),
            bytes@ == record@.subrange(0, i as int),
            !bytes@.contains(NEWLINE),
        decreases record.len() - i,
    {
        let b: u8 = record[i];
        if b == NEWLINE {
            assert(record@[i as int] == NEWLINE);
            return None;
        }
        let ghost before = bytes@;
        bytes.push(b);
        proof {
            assert(bytes@ =~= record@.subrange(0, i + 1));
            assert forall|k: int| 0 <= k < bytes@.len() implies bytes@[k] != NEWLINE by {
                if k < before.len() {
                    assert(before[k] == bytes@[k]);
                    assert(before.contains(before[k]));
                }
            }
        }
        i = i + 1;
    }
    assert(bytes@ =~= record@);
    bytes.push(NEWLINE);
    Some(bytes)
}

/// Takes the one record out of what was read from a connection: the bytes
/// before the first newline. What follows that newline is not looked at.
/// Bytes without a newline are not a record.
pub fn take_line(buf: &[u8]) -> (out: Option<Vec<u8>>)
    ensures
        out is None <==> !buf@.contains(NEWLINE),
        out matches Some(record) ==> is_first_line(buf@, record@),
{
    let mut record: Vec<u8> = Vec::new();
    let mut i: usize = 0;
    while i < buf.len()
        invariant
            i <= buf.len(),
            record@ == buf@.subrange(0, i as int),
            !record@.contains(NEWLINE),
        decreases buf.len() - i,
    {
        let b: u8 = buf[i];
        if b == NEWLINE {
            assert(buf@[i as int] == NEWLINE);
            return Some(record);
        }
        let ghost before = record@;
        record.push(b);
        proof {
            assert(record@ =~= buf@.subrange(0, i + 1));
            assert forall|k: int| 0 <= k < record@.len() implies record@[k] != NEWLINE by {
                if k < before.len() {
                    assert(before[k] == record@[k]);
                    assert(before.contains(before[k]));
                }
            }
        }
        i = i + 1;
    }
    assert(record@ =~= buf@);
    None
}

/// A buffer has at most one first line.
pub proof fn lemma_first_line_unique(buf: Seq<u8>, a: Seq<u8>, b: Seq<u8>)
    requires
        is_first_line(buf, a),
        is_first_line(buf, b),
    ensures
        a == b,
{
    if a.len() < b.len() {
        assert(b[a.len() as int] == buf.subrange(0, b.len() as int)[a.len() as int]);
        assert(b.contains(NEWLINE));
    } else if b.len() < a.len() {
        assert(a[b.len() as int] == buf.subrange(0, a.len() as int)[b.len() as int]);
        assert(a.contains(NEWLINE));
    }
    assert(a =~= b);
}

/// Framing and reading back give the record again: a record without a
/// newline is the first line of its frame, whatever bytes follow the frame.
pub proof fn lemma_frame_round_trip(record: Seq<u8>, rest: Seq<u8>)
    requires
        !record.contains(NEWLINE),
    ensures
        is_first_line(framed(record) + rest, record),
{
    let buf = framed(record) + rest;
    assert(buf.subrange(0, record.len() as int) =~= record);
    assert(buf[record.len() as int] == NEWLINE);
}

/// Where the broker stands in its life.
#[derive(Clone, Copy, Debug, PartialEq, Eq, Structural)]
pub enum BrokerState {
    /// Created; readiness has not been announced to the controller yet.
    Starting,
    /// Readiness announced; the first attempt to bind the name is under way.
    Binding,
    /// The name was taken; a connection attempt tells a live owner from a
    /// stale leftover.
    Probing,
    /// The leftover of a dead owner is being cleared and the name bound again.
    Rebinding,
    /// Bound, no message in flight, waiting for the next connection.
    Idle,
    /// A connection was accepted; its one line is being read and decoded.
    Accepting,
    /// A message was forwarded; the acknowledgment is awaited.
    Dispatched,
    /// The broker has ended.
    Stopped,
}

/// What the caller reports to the broker after it has done what the broker
/// asked for.
#[derive(Clone, Debug, PartialEq, Eq)]
pub enum BrokerEvent {
    /// The controller was handed the acknowledgment handle.
    Announced,
    /// The name is bound and the listener is live.
    Bound,
    /// The name could not be bound because it is taken.
    NameTaken,
    /// The name could not be bound for another reason.
    BindFailed,
    /// A connection attempt to the taken name was answered.
    OwnerAlive,
    /// A connection attempt to the taken name was refused.
    OwnerGone,
    /// A connection was accepted.
    Connected,
    /// Accepting a connection failed.
    AcceptFailed,
    /// The line of the connection was decoded into this message.
    Decoded(IpcMsg),
    /// The connection gave no line, or one that is no message.
    Undecodable,
    /// The controller acknowledged the forwarded message.
    Acked,
}

/// What the broker asks its caller to do next.
#[derive(Clone, Debug, PartialEq, Eq)]
pub enum BrokerAction {
    /// Bind the channel name exclusively.
    Bind,
    /// Try to connect to the taken name.
    Probe,
    /// Remove the leftover of the dead owner and bind the name.
    ClearStaleAndBind,
    /// Drop the connection at hand, if any, and wait for the next one.
    Accept,
    /// Read the one line of the accepted connection and decode it.
    ReadLine,
    /// Hand the message to the controller and wait for its acknowledgment.
    Forward(IpcMsg),
    /// End the accept loop and report the error.
    Halt(IpcError),
    /// The event does not belong to the present state: do nothing.
    Ignore,
}

/// The accept loop of the server, as a state machine. `owns_channel` is true
/// from the moment this process bound the name until it released it.
#[derive(Clone, Copy, Debug, PartialEq, Eq, Structural)]
pub struct Broker {
    pub state: BrokerState,
    pub owns_channel: bool,
}

/// The state that follows `state` on `event`, and the action owed.
pub open spec fn broker_step(state: BrokerState, event: BrokerEvent) -> (BrokerState, BrokerAction) {
    match (state, event) {
        (BrokerState::Starting, BrokerEvent::Announced) => (BrokerState::Binding, BrokerAction::Bind),
        (BrokerState::Binding, BrokerEvent::Bound) => (BrokerState::Idle, BrokerAction::Accept),
        (BrokerState::Binding, BrokerEvent::NameTaken) => (BrokerState::Probing, BrokerAction::Probe),
        (BrokerState::Binding, BrokerEvent::BindFailed) => (
            BrokerState::Stopped,
            BrokerAction::Halt(IpcError::Transport),
        ),
        (BrokerState::Probing, BrokerEvent::OwnerAlive) => (
            BrokerState::Stopped,
            BrokerAction::Halt(IpcError::NameInUse),
        ),
        (BrokerState::Probing, BrokerEvent::OwnerGone) => (
            BrokerState::Rebinding,
            BrokerAction::ClearStaleAndBind,
        ),
        (BrokerState::Rebinding, BrokerEvent::Bound) => (BrokerState::Idle, BrokerAction::Accept),
        (BrokerState::Rebinding, BrokerEvent::NameTaken) => (
            BrokerState::Stopped,
            BrokerAction::Halt(IpcError::NameInUse),
        ),
        (BrokerState::Rebinding, BrokerEvent::BindFailed) => (
            BrokerState::Stopped,
            BrokerAction::Halt(IpcError::Transport),
        ),
        (BrokerState::Idle, BrokerEvent::Connected) => (BrokerState::Accepting, BrokerAction::ReadLine),
        (BrokerState::Idle, BrokerEvent::AcceptFailed) => (
            BrokerState::Stopped,
            BrokerAction::Halt(IpcError::Transport),
        ),
        (BrokerState::Accepting, BrokerEvent::Decoded(msg)) => if msg.spec_is_client_command() {
            (BrokerState::Dispatched, BrokerAction::Forward(msg))
        } else {
            (BrokerState::Idle, BrokerAction::Accept)
        },
        (BrokerState::Accepting, BrokerEvent::Undecodable) => (BrokerState::Idle, BrokerAction::Accept),
        (BrokerState::Dispatched, BrokerEvent::Acked) => (BrokerState::Idle, BrokerAction::Accept),
        _ => (state, BrokerAction::Ignore),
    }
}

/// True of the states in which the listener is live.
pub open spec fn is_listening(state: BrokerState) -> bool {
    state is Idle || state is Accepting || state is Dispatched
}

/// True of the states before the name was bound.
pub open spec fn is_before_bind(state: BrokerState) -> bool {
    state is Starting || state is Binding || state is Probing || state is Rebinding
}

impl Broker {
    /// A listening broker owns the channel; one that has not bound yet does
    /// not.
    pub open spec fn wf(&self) -> bool {
        &&& is_listening(self.state) ==> self.owns_channel
        &&& is_before_bind(self.state) ==> !self.owns_channel
    }

    /// A broker at the start of its life. Its caller announces readiness to
    /// the controller and reports `Announced`.
    pub fn new() -> (broker: Broker)
        ensures
            broker.state == BrokerState::Starting,
            !broker.owns_channel,
            broker.wf(),
    {
        Broker { state: BrokerState::Starting, owns_channel: false }
    }

    /// Tells whether a forwarded message awaits its acknowledgment.
    pub fn has_pending_ack(&self) -> (pending: bool)
        ensures
            pending == (self.state == BrokerState::Dispatched),
    {
        self.state == BrokerState::Dispatched
    }
}

/// The broker after `event`: it moves as `broker_step` says, and owns the
/// channel from the step on which the name was bound.
pub open spec fn broker_after(broker: Broker, event: BrokerEvent) -> Broker {
    let next = broker_step(broker.state, event).0;
    Broker {
        state: next,
        owns_channel: broker.owns_channel || (is_before_bind(broker.state) && is_listening(next)),
    }
}

/// The broker after its channel was given up.
pub open spec fn broker_released(broker: Broker) -> Broker {
    Broker { state: BrokerState::Stopped, owns_channel: false }
}

/// One step of the accept loop: takes what the caller reports and says what
/// to do next.
pub fn server_listen_ipc(broker: &mut Broker, event: BrokerEvent) -> (action: BrokerAction)
    ensures
        *final(broker) == broker_after(*old(broker), event),
        old(broker).wf() ==> final(broker).wf(),
        action == broker_step(old(broker).state, event).1,
{
    match (broker.state, event) {
        (BrokerState::Starting, BrokerEvent::Announced) => {
            broker.state = BrokerState::Binding;
            BrokerAction::Bind
        },
        (BrokerState::Binding, BrokerEvent::Bound) | (BrokerState::Rebinding, BrokerEvent::Bound) => {
            broker.state = BrokerState::Idle;
            broker.owns_channel = true;
            BrokerAction::Accept
        },
        (BrokerState::Binding, BrokerEvent::NameTaken) => {
            broker.state = BrokerState::Probing;
            BrokerAction::Probe
        },
        (BrokerState::Binding, BrokerEvent::BindFailed)
        | (BrokerState::Rebinding, BrokerEvent::BindFailed)
        | (BrokerState::Idle, BrokerEvent::AcceptFailed) => {
            broker.state = BrokerState::Stopped;
            BrokerAction::Halt(IpcError::Transport)
        },
        (BrokerState::Probing, BrokerEvent::OwnerAlive)
        | (BrokerState::Rebinding, BrokerEvent::NameTaken) => {
            broker.state = BrokerState::Stopped;
            BrokerAction::Halt(IpcError::NameInUse)
        },
        (BrokerState::Probing, BrokerEvent::OwnerGone) => {
            broker.state = BrokerState::Rebinding;
            BrokerAction::ClearStaleAndBind
        },
        (BrokerState::Idle, BrokerEvent::Connected) => {
            broker.state = BrokerState::Accepting;
            BrokerAction::ReadLine
        },
        (BrokerState::Accepting, BrokerEvent::Decoded(msg)) => {
            if msg.is_client_command() {
                broker.state = BrokerState::Dispatched;
                BrokerAction::Forward(msg)
            } else {
                broker.state = BrokerState::Idle;
                BrokerAction::Accept
            }
        },
        (BrokerState::Accepting, BrokerEvent::Undecodable)
        | (BrokerState::Dispatched, BrokerEvent::Acked) => {
            broker.state = BrokerState::Idle;
            BrokerAction::Accept
        },
        _ => BrokerAction::Ignore,
    }
}

/// Gives up the channel at the end of the process, on a clean exit and on a
/// crash alike. Returns whether the caller has to remove the channel's
/// leftover: only where this process bound the name and has not released it
/// yet. A second call asks for nothing.
pub fn server_cleanup_socket(broker: &mut Broker) -> (remove: bool)
    ensures
        remove == old(broker).owns_channel,
        *final(broker) == broker_released(*old(broker)),
        final(broker).wf(),
{
    let remove: bool = broker.owns_channel;
    broker.owns_channel = false;
    broker.state = BrokerState::Stopped;
    remove
}

/// Seconds between two looks at the termination flag.
pub const EXIT_POLL_SECS: u64 = 5;

/// Watches for a request of the operating system to end the process.
/// `submitted` is true once the quit message went out.
#[derive(Clone, Copy, Debug, PartialEq, Eq, Structural)]
pub struct SignalWatcher {
    pub submitted: bool,
}

/// What the watcher asks its caller to do next.
#[derive(Clone, Debug, PartialEq, Eq)]
pub enum WatchAction {
    /// Sleep for this many seconds, then look at the flag again.
    Sleep(u64),
    /// Hand this message to the controller, on the path that client messages
    /// take.
    Submit(IpcMsg),
    /// Nothing is left to do.
    Finished,
}

/// What the watcher does when it sees `requested` on the termination flag.
pub open spec fn watch_step(watcher: SignalWatcher, requested: bool) -> (SignalWatcher, WatchAction) {
    if watcher.submitted {
        (watcher, WatchAction::Finished)
    } else if requested {
        (SignalWatcher { submitted: true }, WatchAction::Submit(IpcMsg::C2SQuit))
    } else {
        (watcher, WatchAction::Sleep(EXIT_POLL_SECS))
    }
}

impl SignalWatcher {
    /// The watcher for a termination hook whose installation ended as
    /// `installed` says. Without the hook the server cannot promise to clean
    /// up, so it does not start.
    pub fn install(installed: bool) -> (out: Result<SignalWatcher, IpcError>)
        ensures
            installed ==> out == Ok::<SignalWatcher, IpcError>(SignalWatcher { submitted: false }),
            !installed ==> out == Err::<SignalWatcher, IpcError>(IpcError::SignalHandlerInstall),
    {
        if installed {
            Ok(SignalWatcher { submitted: false })
        } else {
            Err(IpcError::SignalHandlerInstall)
        }
    }
}

/// One look at the termination flag. The first time the flag is seen set, a
/// quit message is submitted; until then the watcher sleeps; afterwards it
/// has finished.
pub fn server_listen_exit_hook(watcher: &mut SignalWatcher, requested: bool) -> (action: WatchAction)
    ensures
        *final(watcher) == watch_step(*old(watcher), requested).0,
        action == watch_step(*old(watcher), requested).1,
{
    if watcher.submitted {
        WatchAction::Finished
    } else if requested {
        watcher.submitted = true;
        WatchAction::Submit(IpcMsg::C2SQuit)
    } else {
        WatchAction::Sleep(EXIT_POLL_SECS)
    }
}

/// How far a client got with its one command.
#[derive(Clone, Copy, Debug, PartialEq, Eq, Structural)]
pub enum ClientProgress {
    /// No server answered on the channel name.
    NotConnected,
    /// The encoded command cannot be framed.
    NotFramed,
    /// The write on the connection failed.
    NotWritten,
    /// The command went out.
    Sent,
}

/// The result of a client invocation.
pub open spec fn client_result(progress: ClientProgress) -> Result<(), IpcError> {
    match progress {
        ClientProgress::NotConnected => Err(IpcError::ChannelUnavailable),
        ClientProgress::NotFramed => Err(IpcError::ProtocolDecode),
        ClientProgress::NotWritten => Err(IpcError::Transport),
        ClientProgress::Sent => Ok(()),
    }
}

/// The result that a client reports for the point it reached: success only
/// where the command went out, and otherwise the error that tells "no server"
/// from "command rejected" from a failing channel.
pub fn client_outcome(progress: ClientProgress) -> (out: Result<(), IpcError>)
    ensures
        out == client_result(progress),
{
    match progress {
        ClientProgress::NotConnected => Err(IpcError::ChannelUnavailable),
        ClientProgress::NotFramed => Err(IpcError::ProtocolDecode),
        ClientProgress::NotWritten => Err(IpcError::Transport),
        ClientProgress::Sent => Ok(()),
    }
}

} // verus!
