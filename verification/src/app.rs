//! The controller: the one owner of the window and of the process lifetime.

use crate::components::list::{focus_after, List, ListMode, ListMsg};
use crate::components::search::{
    search_commands, EditorCommand, EditorCommandView, Search, SearchMsg,
};
use crate::ipc::IpcMsg;
use vstd::prelude::*;

verus! {

/// The handle by which the controller names a window.
#[derive(Clone, Copy, Debug, PartialEq, Eq, Structural)]
pub struct WindowId(pub u64);

/// Whether the launcher's window exists.
#[derive(Clone, Copy, Debug, PartialEq, Eq, Structural)]
pub enum WindowState {
    Closed,
    Open(WindowId),
}

/// Everything that the controller reacts to.
#[derive(Clone, Debug, PartialEq, Eq)]
pub enum Msg {
    /// The broker is up and has handed over its acknowledgment handle.
    IpcReady,
    /// A message from the broker or from the signal watcher.
    Ipc(IpcMsg),
    /// The user asks to close the window.
    CloseWindow,
    /// The window system reports that a window was closed.
    WindowClosedExternally(WindowId),
    List(ListMsg),
    Search(SearchMsg),
    /// The text field should take the keyboard focus.
    FocusWidget,
    /// The window should take the focus back.
    FocusWindow,
    /// Nothing to do.
    Dummy,
}

impl From<ListMsg> for Msg {
    fn from(x: ListMsg) -> (msg: Msg) {
        Msg::List(x)
    }
}

impl vstd::std_specs::convert::FromSpecImpl<ListMsg> for Msg {
    open spec fn obeys_from_spec() -> bool {
        true
    }

    open spec fn from_spec(x: ListMsg) -> Msg {
        Msg::List(x)
    }
}

impl From<SearchMsg> for Msg {
    fn from(x: SearchMsg) -> (msg: Msg) {
        Msg::Search(x)
    }
}

impl vstd::std_specs::convert::FromSpecImpl<SearchMsg> for Msg {
    open spec fn obeys_from_spec() -> bool {
        true
    }

    open spec fn from_spec(x: SearchMsg) -> Msg {
        Msg::Search(x)
    }
}

/// An event of the window system, as far as the controller looks at it.
#[derive(Clone, Copy, Debug, PartialEq, Eq, Structural)]
pub enum UiEvent {
    /// The window lost the focus.
    WindowUnfocused,
    /// The mouse pointer moved.
    CursorMoved,
    /// Any other event.
    Other,
}

/// What the controller asks its caller to do, in the order given.
#[derive(Clone, Debug, PartialEq, Eq)]
pub enum Effect {
    /// Acknowledge the message at hand to the broker.
    Ack,
    /// Release the channel name.
    ReleaseChannel,
    /// End the process with success.
    Exit,
    /// Create the window and know it by this handle.
    OpenWindow(WindowId),
    /// Raise the window and give it the focus.
    RaiseWindow(WindowId),
    /// Close the window.
    CloseWindow(WindowId),
    /// Give the keyboard focus to the text field.
    FocusEditor,
    /// Pass a command to the text editor of the search field.
    Edit(EditorCommand),
}

/// An `Effect` with its text as a sequence of characters.
pub enum EffectView {
    Ack,
    ReleaseChannel,
    Exit,
    OpenWindow(WindowId),
    RaiseWindow(WindowId),
    CloseWindow(WindowId),
    FocusEditor,
    Edit(EditorCommandView),
}

impl View for Effect {
    type V = EffectView;

    open spec fn view(&self) -> EffectView {
        match self {
            Effect::Ack => EffectView::Ack,
            Effect::ReleaseChannel => EffectView::ReleaseChannel,
            Effect::Exit => EffectView::Exit,
            Effect::OpenWindow(id) => EffectView::OpenWindow(*id),
            Effect::RaiseWindow(id) => EffectView::RaiseWindow(*id),
            Effect::CloseWindow(id) => EffectView::CloseWindow(*id),
            Effect::FocusEditor => EffectView::FocusEditor,
            Effect::Edit(command) => EffectView::Edit(command@),
        }
    }
}

/// The views of a sequence of effects.
pub open spec fn effects_view(effects: Seq<Effect>) -> Seq<EffectView> {
    effects.map_values(|e: Effect| e@)
}

/// Editor commands as effects.
pub open spec fn as_edits(commands: Seq<EditorCommandView>) -> Seq<EffectView> {
    commands.map_values(|c: EditorCommandView| EffectView::Edit(c))
}

/// The acknowledgment, where the broker has handed over its handle.
pub open spec fn ack_effects(ipc_ready: bool) -> Seq<EffectView> {
    if ipc_ready {
        seq![EffectView::Ack]
    } else {
        seq![]
    }
}

/// The handle that follows `handle`.
pub open spec fn next_handle(handle: u64) -> u64 {
    if handle == u64::MAX {
        0
    } else {
        (handle + 1) as u64
    }
}

/// The controller's state.
#[derive(Clone, Debug, PartialEq, Eq)]
pub struct App {
    /// The window, if there is one.
    pub win: WindowState,
    /// Whether the broker has handed over its acknowledgment handle.
    pub ipc_ready: bool,
    /// The handle that the next window gets.
    pub next_window: u64,
    pub list: List,
    pub search: Search,
}

/// True of the messages that the controller serves: all but an
/// acknowledgment that arrives as a command, and those requests to the list
/// that the list does not serve.
pub open spec fn is_served(msg: Msg) -> bool {
    match msg {
        Msg::Ipc(IpcMsg::InternalPing) => false,
        Msg::List(lmsg) => lmsg.spec_moves_focus(),
        _ => true,
    }
}

impl Msg {
    /// Tells whether the controller serves this message.
    pub fn is_served(&self) -> (served: bool)
        ensures
            served == is_served(*self),
    {
        match self {
            Msg::Ipc(IpcMsg::InternalPing) => false,
            Msg::List(lmsg) => lmsg.moves_focus(),
            _ => true,
        }
    }
}

/// The window after a request to open it: the one that is there, or a new
/// one with the next handle.
pub open spec fn opened(pre: App) -> App {
    match pre.win {
        WindowState::Closed => App {
            win: WindowState::Open(WindowId(pre.next_window)),
            next_window: next_handle(pre.next_window),
            ..pre
        },
        WindowState::Open(_) => pre,
    }
}

/// The effects of a request to open the window: a new window is created,
/// raised and its text field focused; one that is there is raised.
pub open spec fn open_effects(pre: App) -> Seq<EffectView> {
    match pre.win {
        WindowState::Closed => seq![
            EffectView::OpenWindow(WindowId(pre.next_window)),
            EffectView::RaiseWindow(WindowId(pre.next_window)),
            EffectView::FocusEditor,
        ],
        WindowState::Open(id) => seq![EffectView::RaiseWindow(id)],
    }
}

/// The controller's state after `msg`.
pub open spec fn app_after(pre: App, msg: Msg) -> App {
    match msg {
        Msg::IpcReady => App { ipc_ready: true, ..pre },
        Msg::Ipc(IpcMsg::C2SOpenWindow(_)) => opened(pre),
        Msg::CloseWindow => App { win: WindowState::Closed, ..pre },
        Msg::WindowClosedExternally(id) => if pre.win == WindowState::Open(id) {
            App { win: WindowState::Closed, ..pre }
        } else {
            pre
        },
        Msg::List(lmsg) => App {
            list: List {
                focused: focus_after(pre.list.focused as int, pre.list.content@.len() as int, lmsg) as usize,
                ..pre.list
            },
            ..pre
        },
        _ => pre,
    }
}

/// What the controller asks for on `msg`, in order.
///
/// A quit releases the channel, acknowledges, and ends the process. A request
/// to open the window is acknowledged at once; then the window is created or
/// raised, and the search field is set to the query.
pub open spec fn app_effects(pre: App, msg: Msg) -> Seq<EffectView> {
    match msg {
        Msg::Ipc(IpcMsg::C2SQuit) => seq![EffectView::ReleaseChannel] + ack_effects(pre.ipc_ready)
            + seq![EffectView::Exit],
        Msg::Ipc(IpcMsg::C2SOpenWindow(query)) => ack_effects(pre.ipc_ready) + open_effects(pre)
            + as_edits(search_commands(SearchMsg::Replace(query))),
        Msg::CloseWindow => match pre.win {
            WindowState::Open(id) => seq![EffectView::CloseWindow(id)],
            WindowState::Closed => seq![],
        },
        Msg::Search(smsg) => as_edits(search_commands(smsg)),
        Msg::FocusWidget => seq![EffectView::FocusEditor],
        Msg::FocusWindow => match pre.win {
            WindowState::Open(id) => seq![EffectView::RaiseWindow(id)],
            WindowState::Closed => seq![],
        },
        _ => seq![],
    }
}

/// The message that an event of the window system becomes.
pub fn on_event(evt: UiEvent) -> (msg: Msg)
    ensures
        evt == UiEvent::WindowUnfocused ==> msg == Msg::FocusWindow,
        evt == UiEvent::CursorMoved ==> msg == Msg::Dummy,
        evt == UiEvent::Other ==> msg == Msg::FocusWidget,
{
    match evt {
        UiEvent::WindowUnfocused => Msg::FocusWindow,
        UiEvent::CursorMoved => Msg::Dummy,
        UiEvent::Other => Msg::FocusWidget,
    }
}

/// Appends editor commands to a list of effects.
fn push_edits(effects: &mut Vec<Effect>, commands: Vec<EditorCommand>)
    ensures
        effects_view(final(effects)@) == effects_view(old(effects)@) + as_edits(
            crate::components::search::commands_view(commands@),
        ),
{
    let ghost before = effects@;
    let mut commands = commands;
    let ghost all = commands@;
    // The commands are moved out from the back, and each is put where the
    // effects ended before: so they end up in their order.
    let at: usize = effects.len();
    while commands.len() > 0
        invariant
            at == before.len(),
            commands@.len() <= all.len(),
            commands@ == all.subrange(0, commands@.len() as int),
            effects@.len() == before.len() + (all.len() - commands@.len()),
            effects@.subrange(0, at as int) == before,
            forall|k: int|
                0 <= k < all.len() - commands@.len() ==> (#[trigger] effects@[at + k])@
                    == EffectView::Edit(all[commands@.len() + k]@),
        decreases commands.len(),
    {
        let ghost old_effects = effects@;
        let command = commands.pop().unwrap();
        effects.insert(at, Effect::Edit(command));
        proof {
            assert(commands@ =~= all.subrange(0, commands@.len() as int));
            assert(effects@.subrange(0, at as int) =~= before);
            assert forall|k: int| 0 <= k < all.len() - commands@.len() implies (
            #[trigger] effects@[at + k])@ == EffectView::Edit(all[commands@.len() + k]@) by {
                if k > 0 {
                    assert(effects@[at + k] == old_effects[at + (k - 1)]);
                }
            }
        }
    }
    proof {
        let lhs = effects_view(effects@);
        let rhs = effects_view(before) + as_edits(crate::components::search::commands_view(all));
        assert(lhs.len() == rhs.len());
        assert forall|j: int| 0 <= j < lhs.len() implies lhs[j] == rhs[j] by {
            if j < at {
                assert(effects@[j] == effects@.subrange(0, at as int)[j]);
            } else {
                assert(effects@[at + (j - at)]@ == EffectView::Edit(all[j - at]@));
            }
        }
        assert(lhs =~= rhs);
    }
}

impl App {
    /// The controller of a server that has just started: no window, no
    /// broker yet, an empty list in the launcher's own mode, focus on top.
    pub fn new() -> (app: App)
        ensures
            app.win == WindowState::Closed,
            !app.ipc_ready,
            app.next_window == 0,
            app.list.mode == ListMode::Omni,
            app.list.content@.len() == 0,
            app.list.focused == 0,
            app.search == (Search {  }),
    {
        App {
            win: WindowState::Closed,
            ipc_ready: false,
            next_window: 0,
            list: List::new(),
            search: Search::new(),
        }
    }

    /// The acknowledgment owed to the broker for the message at hand: one
    /// where the broker has handed over its handle, none before that.
    pub fn ping(&self) -> (effects: Vec<Effect>)
        ensures
            effects_view(effects@) == ack_effects(self.ipc_ready),
    {
        let mut effects: Vec<Effect> = Vec::new();
        if self.ipc_ready {
            effects.push(Effect::Ack);
        }
        assert(effects_view(effects@) =~= ack_effects(self.ipc_ready));
        effects
    }

    /// Opens the window where there is none, and raises the one that is
    /// there: after the call exactly one window is open.
    pub fn open_window(&mut self) -> (effects: Vec<Effect>)
        ensures
            *final(self) == opened(*old(self)),
            effects_view(effects@) == open_effects(*old(self)),
            final(self).win is Open,
    {
        let mut effects: Vec<Effect> = Vec::new();
        match self.win {
            WindowState::Closed => {
                let id = WindowId(self.next_window);
                self.next_window = if self.next_window == u64::MAX {
                    0
                } else {
                    self.next_window + 1
                };
                self.win = WindowState::Open(id);
                effects.push(Effect::OpenWindow(id));
                effects.push(Effect::RaiseWindow(id));
                effects.push(Effect::FocusEditor);
            },
            WindowState::Open(id) => {
                effects.push(Effect::RaiseWindow(id));
            },
        }
        assert(effects_view(effects@) =~= open_effects(*old(self)));
        effects
    }

    /// Closes the window where there is one.
    pub fn close_window(&mut self) -> (effects: Vec<Effect>)
        ensures
            *final(self) == app_after(*old(self), Msg::CloseWindow),
            effects_view(effects@) == app_effects(*old(self), Msg::CloseWindow),
    {
        let mut effects: Vec<Effect> = Vec::new();
        match self.win {
            WindowState::Open(id) => {
                self.on_window_close(id);
                effects.push(Effect::CloseWindow(id));
            },
            WindowState::Closed => {},
        }
        assert(effects_view(effects@) =~= app_effects(*old(self), Msg::CloseWindow));
        effects
    }

    /// Takes note that the window `close_id` is gone. A handle that is not
    /// the open window's changes nothing.
    pub fn on_window_close(&mut self, close_id: WindowId)
        ensures
            *final(self) == app_after(*old(self), Msg::WindowClosedExternally(close_id)),
    {
        match self.win {
            WindowState::Open(id) => {
                if id == close_id {
                    self.win = WindowState::Closed;
                }
            },
            WindowState::Closed => {},
        }
    }

    /// Reacts to one message: the state moves as `app_after` says and the
    /// caller is asked for `app_effects`, in that order.
    pub fn update(&mut self, msg: Msg) -> (effects: Vec<Effect>)
        requires
            is_served(msg),
        ensures
            *final(self) == app_after(*old(self), msg),
            effects_view(effects@) == app_effects(*old(self), msg),
    {
        let mut effects: Vec<Effect> = Vec::new();
        match msg {
            Msg::IpcReady => {
                self.ipc_ready = true;
            },
            Msg::Ipc(imsg) => match imsg {
                IpcMsg::C2SQuit => {
                    effects.push(Effect::ReleaseChannel);
                    let mut ack = self.ping();
                    effects.append(&mut ack);
                    effects.push(Effect::Exit);
                },
                IpcMsg::C2SOpenWindow(query) => {
                    effects = self.ping();
                    let mut opening = self.open_window();
                    effects.append(&mut opening);
                    let commands = self.search.replace(query);
                    push_edits(&mut effects, commands);
                },
                IpcMsg::InternalPing => {},
            },
            Msg::CloseWindow => {
                effects = self.close_window();
            },
            Msg::WindowClosedExternally(id) => {
                self.on_window_close(id);
            },
            Msg::List(lmsg) => {
                self.list.update(lmsg);
            },
            Msg::Search(smsg) => {
                let commands = self.search.update(smsg);
                push_edits(&mut effects, commands);
            },
            Msg::FocusWidget => {
                effects.push(Effect::FocusEditor);
            },
            Msg::FocusWindow => {
                match self.win {
                    WindowState::Open(id) => {
                        effects.push(Effect::RaiseWindow(id));
                    },
                    WindowState::Closed => {},
                }
            },
            Msg::Dummy => {},
        }
        assert(effects_view(effects@) =~= app_effects(*old(self), msg));
        effects
    }
}

} // verus!
