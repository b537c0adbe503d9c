//! The list of entries under the search field: which entry is focused.

pub mod command;
pub mod providers;

use vstd::prelude::*;
use vstd::string::to_string_from_display_ensures;

verus! {

/// What fills the list.
#[derive(Clone, Copy, Debug, PartialEq, Eq, Structural)]
pub enum ListMode {
    /// The launcher's own entries.
    Omni,
    /// Entries handed in by the caller.
    Dmenu,
}

impl Default for ListMode {
    fn default() -> (mode: ListMode)
        ensures
            mode == ListMode::Omni,
    {
        ListMode::Omni
    }
}

/// A request to the list.
#[derive(Clone, Copy, Debug, PartialEq, Eq, Structural)]
pub enum ListMsg {
    /// Activate the focused entry.
    Confirm,
    /// Focus the entry at `n`, and activate it where `confirm` is set.
    Nth { n: usize, confirm: bool },
    /// Focus the entry above.
    Up,
    /// Focus the entry below.
    Down,
    /// Move the focus up by a page.
    PgUp,
    /// Move the focus down by a page.
    PgDown,
}

impl ListMsg {
    /// True of the requests that only move the focus. The list answers these;
    /// activation and paging are not served.
    pub open spec fn spec_moves_focus(&self) -> bool {
        match self {
            ListMsg::Nth { n, confirm } => !*confirm,
            ListMsg::Up => true,
            ListMsg::Down => true,
            _ => false,
        }
    }

    /// Tells whether the request only moves the focus.
    #[verifier::when_used_as_spec(spec_moves_focus)]
    pub fn moves_focus(&self) -> (b: bool)
        ensures
            b == self.spec_moves_focus(),
    {
        match self {
            ListMsg::Nth { n: _, confirm } => !*confirm,
            ListMsg::Up => true,
            ListMsg::Down => true,
            _ => false,
        }
    }
}

/// The number of entries that the launcher's own mode shows until it has
/// real ones.
pub const OMNI_ROWS: u32 = 99;

/// The entries and the focus. The focus may stand one past the last entry.
#[derive(Clone, Debug, PartialEq, Eq)]
pub struct List {
    pub mode: ListMode,
    pub content: Vec<String>,
    pub focused: usize,
}

/// The smaller of two indices.
pub open spec fn min_index(a: int, b: int) -> int {
    if a <= b {
        a
    } else {
        b
    }
}

/// Where the focus stands after `msg`, in a list of `len` entries whose focus
/// stood at `focused`: an index asked for is taken, but not beyond `len`; up
/// stops at the first entry; down stops at `len`.
pub open spec fn focus_after(focused: int, len: int, msg: ListMsg) -> int {
    match msg {
        ListMsg::Nth { n, confirm } => min_index(n as int, len),
        ListMsg::Up => if focused == 0 {
            0
        } else {
            focused - 1
        },
        ListMsg::Down => min_index(min_index(focused + 1, usize::MAX as int), len),
        _ => focused,
    }
}

impl List {
    /// An empty list in the launcher's own mode, with the focus on top.
    pub fn new() -> (list: List)
        ensures
            list.mode == ListMode::Omni,
            list.content@.len() == 0,
            list.focused == 0,
    {
        List { mode: ListMode::Omni, content: Vec::new(), focused: 0 }
    }

    /// Moves the focus as `msg` asks and leaves mode and entries alone.
    pub fn update(&mut self, msg: ListMsg)
        requires
            msg.spec_moves_focus(),
        ensures
            final(self).focused as int == focus_after(
                old(self).focused as int,
                old(self).content@.len() as int,
                msg,
            ),
            final(self).mode == old(self).mode,
            final(self).content == old(self).content,
    {
        let len: usize = self.content.len();
        match msg {
            ListMsg::Nth { n, confirm: _ } => {
                self.focused = if n <= len { n } else { len };
            },
            ListMsg::Up => {
                if self.focused > 0 {
                    self.focused = self.focused - 1;
                }
            },
            ListMsg::Down => {
                let next: usize = if self.focused < usize::MAX {
                    self.focused + 1
                } else {
                    self.focused
                };
                self.focused = if next <= len { next } else { len };
            },
            _ => {},
        }
    }

    /// Switches the mode. The launcher's own mode shows the numbers from 1 to
    /// `OMNI_ROWS`, each as its decimal text; the other mode starts empty.
    /// The focus stays where it was.
    pub fn set_mode(&mut self, mode: ListMode)
        ensures
            final(self).mode == mode,
            final(self).focused == old(self).focused,
            mode == ListMode::Dmenu ==> final(self).content@.len() == 0,
            mode == ListMode::Omni ==> final(self).content@.len() == OMNI_ROWS,
            mode == ListMode::Omni ==> forall|i: int|
                0 <= i < OMNI_ROWS ==> to_string_from_display_ensures::<u32>(
                    &((i + 1) as u32),
                    #[trigger] final(self).content@[i],
                ),
    {
        self.mode = mode;
        match mode {
            ListMode::Omni => {
                let mut rows: Vec<String> = Vec::new();
                let mut x: u32 = 1;
                while x <= OMNI_ROWS
                    invariant
                        1 <= x <= OMNI_ROWS + 1,
                        rows@.len() == x - 1,
                        forall|i: int|
                            0 <= i < rows@.len() ==> to_string_from_display_ensures::<u32>(
                                &((i + 1) as u32),
                                #[trigger] rows@[i],
                            ),
                    decreases OMNI_ROWS + 1 - x,
                {
                    let row: String = x.to_string();
                    rows.push(row);
                    x = x + 1;
                }
                self.content = rows;
            },
            ListMode::Dmenu => {
                self.content = Vec::new();
            },
        }
    }

    /// Replaces the entries by those handed in.
    pub fn dmenu_set_entries(&mut self, entries: Vec<String>)
        ensures
            final(self).content == entries,
            final(self).mode == old(self).mode,
            final(self).focused == old(self).focused,
    {
        self.content = entries;
    }
}

} // verus!
