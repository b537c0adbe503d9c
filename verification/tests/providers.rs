use pitstop::components::list::command::Entry;
use pitstop::components::list::providers::{
    Activation, DirItem, FileTreeProvider, WrappedProvider, ENTRY_DIR, ENTRY_FILE,
};

fn item(name: &str, is_dir: bool) -> DirItem {
    DirItem { name: name.to_string(), is_dir }
}

#[test]
fn entry_shows_its_name() {
    let entry = Entry::new(1, "notes.txt");
    assert_eq!(entry.ty, 1);
    assert_eq!(entry.name.as_str(), "notes.txt");
    assert_eq!(entry.to_string(), "notes.txt");
    let long = "a name that is longer than what fits inline in a small string";
    assert_eq!(Entry::new(0, long).to_string(), long);
    assert_eq!(Entry::new(0, "").to_string(), "");
}

#[test]
fn entry_copy_is_equal() {
    let entry = Entry::new(0, "src");
    let copy = entry.duplicate();
    assert_eq!(copy, entry);
    assert_eq!(copy.to_string(), "src");
}

#[test]
fn entries_follow_the_listing() {
    let provider = FileTreeProvider::new("/home/me".to_string());
    assert_eq!(provider.dir, "/home/me");
    let items = vec![item("src", true), item("Cargo.toml", false), item("docs", true)];
    let entries = provider.entries(&items);
    assert_eq!(
        entries,
        vec![
            Entry::new(ENTRY_DIR, "src"),
            Entry::new(ENTRY_FILE, "Cargo.toml"),
            Entry::new(ENTRY_DIR, "docs"),
        ]
    );
    assert_eq!(ENTRY_DIR, 0);
    assert_eq!(ENTRY_FILE, 1);
    assert_eq!(provider.entries(&Vec::new()), Vec::new());
}

#[test]
fn activating_a_directory_enters_it() {
    let mut provider = FileTreeProvider::new("/home/me".to_string());
    let out = provider.activate(&Entry::new(ENTRY_DIR, "src"));
    assert_eq!(out, Activation::Entered);
    assert_eq!(provider.dir, "src");
}

#[test]
fn activating_a_file_asks_to_open_it() {
    let mut provider = FileTreeProvider::new("/home/me".to_string());
    let out = provider.activate(&Entry::new(ENTRY_FILE, "a.txt"));
    assert_eq!(
        out,
        Activation::Open { dir: "/home/me".to_string(), name: "a.txt".to_string() }
    );
    assert_eq!(provider.dir, "/home/me");
    assert_eq!(
        provider.activate_file(&Entry::new(ENTRY_FILE, "b")),
        Activation::Open { dir: "/home/me".to_string(), name: "b".to_string() }
    );
    provider.activate_dir(&Entry::new(ENTRY_DIR, "x"));
    assert_eq!(provider.dir, "x");
}

#[test]
fn wrapped_provider_keeps_its_first_entries() {
    let mut wrapped = WrappedProvider::new(FileTreeProvider::new("/".to_string()));
    assert!(wrapped.needs_listing());
    let first = wrapped.entries(&vec![item("etc", true), item("init", false)]);
    assert_eq!(first, vec![Entry::new(0, "etc"), Entry::new(1, "init")]);
    assert!(!wrapped.needs_listing());
    let second = wrapped.entries(&vec![item("other", false)]);
    assert_eq!(second, first);
    assert_eq!(wrapped.memo, Some(first));
}
