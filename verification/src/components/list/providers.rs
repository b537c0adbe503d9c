//! Where entries come from. The one provider walks the file tree.

use crate::components::list::command::Entry;
use vstd::prelude::*;

verus! {

/// The kind of an entry that stands for a directory.
pub const ENTRY_DIR: usize = 0;

/// The kind of an entry that stands for a file.
pub const ENTRY_FILE: usize = 1;

/// One item of a directory, as its listing gives it.
#[derive(Clone, Debug, PartialEq, Eq)]
pub struct DirItem {
    pub name: String,
    pub is_dir: bool,
}

/// What the caller has to do after an entry was activated.
#[derive(Clone, Debug, PartialEq, Eq)]
pub enum Activation {
    /// The provider moved to another directory; nothing is left to do.
    Entered,
    /// Open the file `name` of the directory `dir` with the system's
    /// handler for it.
    Open { dir: String, name: String },
}

/// An `Activation` with its texts as sequences of characters.
pub enum ActivationView {
    Entered,
    Open { dir: Seq<char>, name: Seq<char> },
}

impl View for Activation {
    type V = ActivationView;

    open spec fn view(&self) -> ActivationView {
        match self {
            Activation::Entered => ActivationView::Entered,
            Activation::Open { dir, name } => ActivationView::Open { dir: dir@, name: name@ },
        }
    }
}

/// The entry that stands for a directory item: it has the item's name, and
/// its kind tells a directory from a file.
pub open spec fn entry_of(item: DirItem) -> (usize, Seq<char>) {
    (
        if item.is_dir {
            ENTRY_DIR
        } else {
            ENTRY_FILE
        },
        item.name@,
    )
}

/// The views of a sequence of entries.
pub open spec fn entries_view(entries: Seq<Entry>) -> Seq<(usize, Seq<char>)> {
    entries.map_values(|e: Entry| e@)
}

/// Copies a list of entries.
fn duplicate_all(entries: &Vec<Entry>) -> (out: Vec<Entry>)
    ensures
        entries_view(out@) == entries_view(entries@),
{
    let mut out: Vec<Entry> = Vec::new();
    let mut i: usize = 0;
    while i < entries.len()
        invariant
            i <= entries.len(),
            out@.len() == i,
            forall|k: int| 0 <= k < i ==> (#[trigger] out@[k])@ == entries@[k]@,
        decreases entries.len() - i,
    {
        out.push(entries[i].duplicate());
        i = i + 1;
    }
    assert(entries_view(out@) =~= entries_view(entries@));
    out
}

/// Browses the file tree, one directory at a time.
#[derive(Clone, Debug, PartialEq, Eq)]
pub struct FileTreeProvider {
    /// The directory whose items are offered.
    pub dir: String,
}

impl FileTreeProvider {
    /// A provider that stands in the user's home directory `home`.
    pub fn new(home: String) -> (provider: FileTreeProvider)
        ensures
            provider.dir == home,
    {
        FileTreeProvider { dir: home }
    }

    /// The entries for the items of the directory, in the order of the
    /// listing.
    pub fn entries(&self, items: &Vec<DirItem>) -> (out: Vec<Entry>)
        ensures
            entries_view(out@) == items@.map_values(|item: DirItem| entry_of(item)),
    {
        let mut out: Vec<Entry> = Vec::new();
        let mut i: usize = 0;
        while i < items.len()
            invariant
                i <= items.len(),
                out@.len() == i,
                forall|k: int| 0 <= k < i ==> (#[trigger] out@[k])@ == entry_of(items@[k]),
            decreases items.len() - i,
        {
            let item = &items[i];
            let ty: usize = if item.is_dir {
                ENTRY_DIR
            } else {
                ENTRY_FILE
            };
            out.push(Entry::new(ty, item.name.as_str()));
            i = i + 1;
        }
        assert(entries_view(out@) =~= items@.map_values(|item: DirItem| entry_of(item)));
        out
    }

    /// Activates an entry that stands for a directory: it becomes the
    /// provider's directory, by its name alone.
    pub fn activate_dir(&mut self, e: &Entry)
        ensures
            final(self).dir@ == e@.1,
    {
        self.dir = e.to_string();
    }

    /// Activates an entry that stands for a file: the file of that name in
    /// the provider's directory is to be opened.
    pub fn activate_file(&self, e: &Entry) -> (out: Activation)
        ensures
            out@ == (ActivationView::Open { dir: self.dir@, name: e@.1 }),
    {
        Activation::Open { dir: self.dir.clone(), name: e.to_string() }
    }

    /// Activates an entry by its kind.
    pub fn activate(&mut self, e: &Entry) -> (out: Activation)
        requires
            e.ty == ENTRY_DIR || e.ty == ENTRY_FILE,
        ensures
            e.ty == ENTRY_DIR ==> out@ == ActivationView::Entered && final(self).dir@ == e@.1,
            e.ty == ENTRY_FILE ==> out@ == (ActivationView::Open { dir: old(self).dir@, name: e@.1 })
                && final(self).dir == old(self).dir,
    {
        if e.ty == ENTRY_DIR {
            self.activate_dir(e);
            Activation::Entered
        } else {
            self.activate_file(e)
        }
    }
}

/// A provider together with the entries that it gave the first time it was
/// asked.
#[derive(Clone, Debug, PartialEq, Eq)]
pub struct WrappedProvider {
    pub memo: Option<Vec<Entry>>,
    pub inner: FileTreeProvider,
}

impl WrappedProvider {
    pub fn new(inner: FileTreeProvider) -> (provider: WrappedProvider)
        ensures
            provider.memo is None,
            provider.inner == inner,
    {
        WrappedProvider { memo: None, inner }
    }

    /// Tells whether the next call of `entries` looks at the listing that it
    /// is given: only the first one does.
    pub fn needs_listing(&self) -> (needed: bool)
        ensures
            needed == (self.memo is None),
    {
        self.memo.is_none()
    }

    /// The provider's entries. The first call makes them from `items` and
    /// keeps them; every later call gives the kept ones again, whatever
    /// `items` holds.
    pub fn entries(&mut self, items: &Vec<DirItem>) -> (out: Vec<Entry>)
        ensures
            final(self).inner == old(self).inner,
            final(self).memo matches Some(kept) && entries_view(kept@) == entries_view(out@),
            old(self).memo matches Some(kept) ==> entries_view(out@) == entries_view(kept@),
            old(self).memo is None ==> entries_view(out@) == items@.map_values(
                |item: DirItem| entry_of(item),
            ),
    {
        match &self.memo {
            Some(kept) => duplicate_all(kept),
            None => {
                let made = self.inner.entries(items);
                let out = duplicate_all(&made);
                self.memo = Some(made);
                out
            },
        }
    }
}

} // verus!
