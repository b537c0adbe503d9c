//! The search field: which editing actions reach the text, and which keys
//! are taken for the list and the window.

use crate::app::Msg;
use crate::components::list::ListMsg;
use vstd::prelude::*;

verus! {

/// An action of the text editor, as far as the search field looks at it.
#[derive(Clone, Debug, PartialEq, Eq)]
pub enum EditAction {
    /// A character is typed while the cursor stands at `column` of its line.
    Insert { ch: char, column: usize },
    /// A text is pasted.
    Paste(String),
    /// The content is scrolled.
    Scroll,
    /// Any other action.
    Other,
}

/// A request to the search field.
#[derive(Clone, Debug, PartialEq, Eq)]
pub enum SearchMsg {
    /// The editor reports an action of the user.
    Action(EditAction),
    /// The whole text is replaced, or cleared where there is none.
    Replace(Option<String>),
}

/// What the search field asks the text editor to do.
#[derive(Clone, Debug, PartialEq, Eq)]
pub enum EditorCommand {
    /// Perform the reported action as it came.
    Perform,
    /// Paste this text at the cursor, over the selection.
    Paste(String),
    /// Select the whole text.
    SelectAll,
    /// Delete the selection, or the character before the cursor.
    Backspace,
}

/// An `EditorCommand` with its text as a sequence of characters.
pub enum EditorCommandView {
    Perform,
    Paste(Seq<char>),
    SelectAll,
    Backspace,
}

impl View for EditorCommand {
    type V = EditorCommandView;

    open spec fn view(&self) -> EditorCommandView {
        match self {
            EditorCommand::Perform => EditorCommandView::Perform,
            EditorCommand::Paste(text) => EditorCommandView::Paste(text@),
            EditorCommand::SelectAll => EditorCommandView::SelectAll,
            EditorCommand::Backspace => EditorCommandView::Backspace,
        }
    }
}

/// The views of a sequence of commands.
pub open spec fn commands_view(commands: Seq<EditorCommand>) -> Seq<EditorCommandView> {
    commands.map_values(|c: EditorCommand| c@)
}

/// The characters that count as white space: those with the Unicode
/// property `White_Space`.
pub open spec fn is_white_space(c: char) -> bool {
    let n = c as u32;
    ||| 0x09 <= n <= 0x0d
    ||| n == 0x20
    ||| n == 0x85
    ||| n == 0xa0
    ||| n == 0x1680
    ||| 0x2000 <= n <= 0x200a
    ||| n == 0x2028
    ||| n == 0x2029
    ||| n == 0x202f
    ||| n == 0x205f
    ||| n == 0x3000
}

/// `text` without its leading white space.
pub open spec fn trimmed_start(text: Seq<char>) -> Seq<char>
    decreases text.len(),
{
    if text.len() > 0 && is_white_space(text[0]) {
        trimmed_start(text.drop_first())
    } else {
        text
    }
}

/// `text` without its trailing white space.
pub open spec fn trimmed_end(text: Seq<char>) -> Seq<char>
    decreases text.len(),
{
    if text.len() > 0 && is_white_space(text.last()) {
        trimmed_end(text.drop_last())
    } else {
        text
    }
}

/// `text` without leading and trailing white space.
pub open spec fn trimmed(text: Seq<char>) -> Seq<char> {
    trimmed_end(trimmed_start(text))
}

/// `text` without any occurrence of `a` or `b`.
pub open spec fn without_chars(text: Seq<char>, a: char, b: char) -> Seq<char> {
    text.filter(|c: char| c != a && c != b)
}

/// A pasted text as it reaches the search field: on one line, with no white
/// space around it.
pub open spec fn cleaned(text: Seq<char>) -> Seq<char> {
    trimmed(without_chars(text, '\r', '\n'))
}

/// `str::replace` of std, with a pattern of two characters and the empty
/// replacement: every occurrence of either character is taken out and the
/// other characters stay in their order.
#[verifier::external_body]
fn remove_chars(text: &str, a: char, b: char) -> (out: String)
    ensures
        out@ == without_chars(text@, a, b),
{
    text.replace([a, b], "")
}

/// `str::trim` of std: the slice without the white space at its two ends,
/// white space being the characters of the Unicode property `White_Space`.
#[verifier::external_body]
fn trim(text: &str) -> (out: &str)
    ensures
        out@ == trimmed(text@),
{
    text.trim()
}

/// What `str::parse::<usize>` of std makes of a text: the number that the
/// text denotes, or `None` where it denotes none that fits.
pub uninterp spec fn parsed_index(text: Seq<char>) -> Option<usize>;

/// `str::parse::<usize>` of std, its error dropped.
#[verifier::external_body]
fn parse_index(text: &str) -> (out: Option<usize>)
    ensures
        out == parsed_index(text@),
{
    text.parse::<usize>().ok()
}

/// A key, as far as the search field looks at it.
#[derive(Clone, Debug, PartialEq, Eq)]
pub enum Key {
    Escape,
    Enter,
    ArrowUp,
    ArrowDown,
    PageUp,
    PageDown,
    /// A key that stands for this text.
    Character(String),
    /// Any other key.
    Other,
}

/// The modifier keys that are held down.
#[derive(Clone, Copy, Debug, PartialEq, Eq, Structural)]
pub struct Modifiers {
    /// The platform's command key: control, or command on a Mac.
    pub command: bool,
    pub alt: bool,
}

/// A key press in the search field.
#[derive(Clone, Debug, PartialEq, Eq)]
pub struct KeyPress {
    pub key: Key,
    pub modifiers: Modifiers,
}

/// The message bound to a key whose text parses as `parsed`: with exactly one
/// of command and alt held, the digits 1 to 9 select the entry with that
/// number, counted from 1, and alt confirms it as well.
pub open spec fn digit_message(parsed: Option<usize>, modifiers: Modifiers) -> Option<Msg> {
    match parsed {
        Some(n) => if 1 <= n <= 9 && modifiers.command != modifiers.alt {
            Some(Msg::List(ListMsg::Nth { n: (n - 1) as usize, confirm: modifiers.alt }))
        } else {
            None
        },
        None => None,
    }
}

/// The message bound to a key press, or `None` where the editor's own
/// binding applies.
pub open spec fn key_message(evt: KeyPress) -> Option<Msg> {
    match evt.key {
        Key::Escape => Some(Msg::CloseWindow),
        Key::Enter => Some(Msg::List(ListMsg::Confirm)),
        Key::ArrowUp => Some(Msg::List(ListMsg::Up)),
        Key::ArrowDown => Some(Msg::List(ListMsg::Down)),
        Key::PageUp => Some(Msg::List(ListMsg::PgUp)),
        Key::PageDown => Some(Msg::List(ListMsg::PgDown)),
        Key::Character(text) => digit_message(parsed_index(text@), evt.modifiers),
        Key::Other => None,
    }
}

/// The commands that the editor gets for a request: a space typed at the
/// start of the line is dropped; a pasted text is cleaned first; any other
/// action is performed as it came; a replacement selects everything and then
/// pastes the new text, or deletes the selection where there is none.
pub open spec fn search_commands(msg: SearchMsg) -> Seq<EditorCommandView> {
    match msg {
        SearchMsg::Action(EditAction::Insert { ch, column }) => if ch == ' ' && column == 0 {
            seq![]
        } else {
            seq![EditorCommandView::Perform]
        },
        SearchMsg::Action(EditAction::Paste(text)) => seq![EditorCommandView::Paste(cleaned(text@))],
        SearchMsg::Action(_) => seq![EditorCommandView::Perform],
        SearchMsg::Replace(Some(text)) => seq![
            EditorCommandView::SelectAll,
            EditorCommandView::Paste(text@),
        ],
        SearchMsg::Replace(None) => seq![EditorCommandView::SelectAll, EditorCommandView::Backspace],
    }
}

/// The search field. Its text lives in the editor widget; what is decided
/// here needs none of it.
#[derive(Clone, Copy, Debug, PartialEq, Eq, Structural)]
pub struct Search {}

impl Search {
    pub fn new() -> (search: Search)
        ensures
            search == (Search {  }),
    {
        Search {  }
    }

    /// Cleans a pasted text: takes out carriage returns and line feeds, then
    /// the white space at both ends.
    pub fn clean_paste(text: &str) -> (out: String)
        ensures
            out@ == cleaned(text@),
    {
        let joined: String = remove_chars(text, '\r', '\n');
        let inner: &str = trim(joined.as_str());
        inner.to_owned()
    }

    /// Answers a request with the commands for the editor, in the order in
    /// which they are to be performed.
    pub fn update(&mut self, msg: SearchMsg) -> (commands: Vec<EditorCommand>)
        ensures
            commands_view(commands@) == search_commands(msg),
            *final(self) == *old(self),
    {
        let mut commands: Vec<EditorCommand> = Vec::new();
        match msg {
            SearchMsg::Action(act) => match act {
                EditAction::Insert { ch, column } => {
                    if !(ch == ' ' && column == 0) {
                        commands.push(EditorCommand::Perform);
                    }
                },
                EditAction::Paste(text) => {
                    let clean: String = Search::clean_paste(text.as_str());
                    commands.push(EditorCommand::Paste(clean));
                },
                _ => {
                    commands.push(EditorCommand::Perform);
                },
            },
            SearchMsg::Replace(text) => {
                commands = self.replace(text);
            },
        }
        assert(commands_view(commands@) =~= search_commands(msg));
        commands
    }

    /// Replaces the whole text by `text`, or clears it where there is none.
    pub fn replace(&mut self, text: Option<String>) -> (commands: Vec<EditorCommand>)
        ensures
            commands_view(commands@) == search_commands(SearchMsg::Replace(text)),
            *final(self) == *old(self),
    {
        let mut commands: Vec<EditorCommand> = Vec::new();
        commands.push(EditorCommand::SelectAll);
        match text {
            Some(text) => {
                commands.push(EditorCommand::Paste(text));
            },
            None => {
                commands.push(EditorCommand::Backspace);
            },
        }
        assert(commands_view(commands@) =~= search_commands(SearchMsg::Replace(text)));
        commands
    }

    /// The message for a key whose text was parsed as `parsed`.
    pub fn digit_binding(parsed: Option<usize>, modifiers: Modifiers) -> (out: Option<Msg>)
        ensures
            out == digit_message(parsed, modifiers),
    {
        match parsed {
            Some(n) => {
                if 1 <= n && n <= 9 && modifiers.command != modifiers.alt {
                    Some(Msg::List(ListMsg::Nth { n: n - 1, confirm: modifiers.alt }))
                } else {
                    None
                }
            },
            None => None,
        }
    }

    /// The message bound to a key press in the search field, or `None` where
    /// the editor's own binding applies.
    pub fn on_key(evt: KeyPress) -> (out: Option<Msg>)
        ensures
            out == key_message(evt),
    {
        match evt.key {
            Key::Escape => Some(Msg::CloseWindow),
            Key::Enter => Some(Msg::List(ListMsg::Confirm)),
            Key::ArrowUp => Some(Msg::List(ListMsg::Up)),
            Key::ArrowDown => Some(Msg::List(ListMsg::Down)),
            Key::PageUp => Some(Msg::List(ListMsg::PgUp)),
            Key::PageDown => Some(Msg::List(ListMsg::PgDown)),
            Key::Character(text) => {
                let parsed: Option<usize> = parse_index(text.as_str());
                Search::digit_binding(parsed, evt.modifiers)
            },
            Key::Other => None,
        }
    }

    /// The message for an action that the editor reports: scrolling moves
    /// the list's focus down, anything else goes to the search field.
    pub fn on_action(act: EditAction) -> (msg: Msg)
        ensures
            act is Scroll ==> msg == Msg::List(ListMsg::Down),
            !(act is Scroll) ==> msg == Msg::Search(SearchMsg::Action(act)),
    {
        match act {
            EditAction::Scroll => Msg::List(ListMsg::Down),
            _ => Msg::Search(SearchMsg::Action(act)),
        }
    }
}

} // verus!
