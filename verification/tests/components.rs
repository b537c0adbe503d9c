use pitstop::app::Msg;
use pitstop::components::focus::{focus_first, FocusAction};
use pitstop::components::list::{List, ListMode, ListMsg, OMNI_ROWS};
use pitstop::components::search::{
    EditAction, EditorCommand, Key, KeyPress, Modifiers, Search, SearchMsg,
};

fn press(key: Key, command: bool, alt: bool) -> KeyPress {
    KeyPress { key, modifiers: Modifiers { command, alt } }
}

fn digit(text: &str, command: bool, alt: bool) -> Option<Msg> {
    Search::on_key(press(Key::Character(text.to_string()), command, alt))
}

#[test]
fn first_widget_takes_the_focus() {
    assert_eq!(focus_first(None), FocusAction::Focus);
    assert_eq!(focus_first(Some(0)), FocusAction::Focus);
    assert_eq!(focus_first(Some(1)), FocusAction::Unfocus);
    assert_eq!(focus_first(Some(usize::MAX)), FocusAction::Unfocus);
}

#[test]
fn list_starts_empty_in_omni_mode() {
    let list = List::new();
    assert_eq!(list.mode, ListMode::Omni);
    assert_eq!(ListMode::default(), ListMode::Omni);
    assert!(list.content.is_empty());
    assert_eq!(list.focused, 0);
}

#[test]
fn list_focus_moves_within_bounds() {
    let mut list = List::new();
    list.dmenu_set_entries(vec!["a".to_string(), "b".to_string(), "c".to_string()]);
    list.update(ListMsg::Up);
    assert_eq!(list.focused, 0);
    list.update(ListMsg::Down);
    assert_eq!(list.focused, 1);
    list.update(ListMsg::Down);
    list.update(ListMsg::Down);
    assert_eq!(list.focused, 3);
    list.update(ListMsg::Down);
    assert_eq!(list.focused, 3);
    list.update(ListMsg::Up);
    assert_eq!(list.focused, 2);
    list.update(ListMsg::Nth { n: 1, confirm: false });
    assert_eq!(list.focused, 1);
    list.update(ListMsg::Nth { n: 100, confirm: false });
    assert_eq!(list.focused, 3);
}

#[test]
fn list_down_at_the_largest_index() {
    let mut list = List::new();
    list.focused = usize::MAX;
    list.update(ListMsg::Down);
    assert_eq!(list.focused, 0);
}

#[test]
fn list_requests_that_move_the_focus() {
    assert!(ListMsg::Up.moves_focus());
    assert!(ListMsg::Down.moves_focus());
    assert!(ListMsg::Nth { n: 3, confirm: false }.moves_focus());
    assert!(!ListMsg::Nth { n: 3, confirm: true }.moves_focus());
    assert!(!ListMsg::Confirm.moves_focus());
    assert!(!ListMsg::PgUp.moves_focus());
    assert!(!ListMsg::PgDown.moves_focus());
}

#[test]
fn list_modes_fill_the_list() {
    let mut list = List::new();
    list.focused = 4;
    list.set_mode(ListMode::Omni);
    assert_eq!(OMNI_ROWS, 99);
    assert_eq!(list.content.len(), 99);
    assert_eq!(list.content[0], "1");
    assert_eq!(list.content[41], "42");
    assert_eq!(list.content[98], "99");
    assert_eq!(list.focused, 4);
    list.set_mode(ListMode::Dmenu);
    assert_eq!(list.mode, ListMode::Dmenu);
    assert!(list.content.is_empty());
    list.dmenu_set_entries(vec!["x".to_string()]);
    assert_eq!(list.content, vec!["x".to_string()]);
    assert_eq!(list.mode, ListMode::Dmenu);
}

#[test]
fn pasted_text_is_cleaned() {
    assert_eq!(Search::clean_paste("  hello\r\nworld \n"), "helloworld");
    assert_eq!(Search::clean_paste("a b"), "a b");
    assert_eq!(Search::clean_paste("\u{3000}x\u{a0}"), "x");
    assert_eq!(Search::clean_paste(" \r\n "), "");
    assert_eq!(Search::clean_paste("a\rb\nc"), "abc");
}

#[test]
fn space_at_the_start_is_dropped() {
    let mut search = Search::new();
    assert_eq!(
        search.update(SearchMsg::Action(EditAction::Insert { ch: ' ', column: 0 })),
        Vec::new()
    );
    assert_eq!(
        search.update(SearchMsg::Action(EditAction::Insert { ch: ' ', column: 3 })),
        vec![EditorCommand::Perform]
    );
    assert_eq!(
        search.update(SearchMsg::Action(EditAction::Insert { ch: 'a', column: 0 })),
        vec![EditorCommand::Perform]
    );
}

#[test]
fn search_actions_and_replacements() {
    let mut search = Search::new();
    assert_eq!(
        search.update(SearchMsg::Action(EditAction::Paste("\n one two\r\n".to_string()))),
        vec![EditorCommand::Paste("one two".to_string())]
    );
    assert_eq!(
        search.update(SearchMsg::Action(EditAction::Scroll)),
        vec![EditorCommand::Perform]
    );
    assert_eq!(
        search.update(SearchMsg::Replace(Some(" abc\n".to_string()))),
        vec![EditorCommand::SelectAll, EditorCommand::Paste(" abc\n".to_string())]
    );
    assert_eq!(
        search.replace(None),
        vec![EditorCommand::SelectAll, EditorCommand::Backspace]
    );
}

#[test]
fn named_keys_are_bound() {
    assert_eq!(Search::on_key(press(Key::Escape, false, false)), Some(Msg::CloseWindow));
    assert_eq!(Search::on_key(press(Key::Enter, false, false)), Some(Msg::List(ListMsg::Confirm)));
    assert_eq!(Search::on_key(press(Key::ArrowUp, true, true)), Some(Msg::List(ListMsg::Up)));
    assert_eq!(Search::on_key(press(Key::ArrowDown, false, false)), Some(Msg::List(ListMsg::Down)));
    assert_eq!(Search::on_key(press(Key::PageUp, false, false)), Some(Msg::List(ListMsg::PgUp)));
    assert_eq!(Search::on_key(press(Key::PageDown, false, false)), Some(Msg::List(ListMsg::PgDown)));
    assert_eq!(Search::on_key(press(Key::Other, true, false)), None);
}

#[test]
fn digits_select_with_one_modifier() {
    assert_eq!(digit("1", true, false), Some(Msg::List(ListMsg::Nth { n: 0, confirm: false })));
    assert_eq!(digit("9", false, true), Some(Msg::List(ListMsg::Nth { n: 8, confirm: true })));
    assert_eq!(digit("5", true, true), None);
    assert_eq!(digit("5", false, false), None);
    assert_eq!(digit("0", true, false), None);
    assert_eq!(digit("10", true, false), None);
    assert_eq!(digit("a", true, false), None);
    assert_eq!(digit("", false, true), None);
}

#[test]
fn digit_binding_by_parsed_number() {
    let ctrl = Modifiers { command: true, alt: false };
    let alt = Modifiers { command: false, alt: true };
    assert_eq!(Search::digit_binding(None, ctrl), None);
    assert_eq!(Search::digit_binding(Some(0), ctrl), None);
    assert_eq!(
        Search::digit_binding(Some(1), ctrl),
        Some(Msg::List(ListMsg::Nth { n: 0, confirm: false }))
    );
    assert_eq!(
        Search::digit_binding(Some(9), alt),
        Some(Msg::List(ListMsg::Nth { n: 8, confirm: true }))
    );
    assert_eq!(Search::digit_binding(Some(10), alt), None);
}

#[test]
fn editor_actions_become_messages() {
    assert_eq!(Search::on_action(EditAction::Scroll), Msg::List(ListMsg::Down));
    assert_eq!(
        Search::on_action(EditAction::Other),
        Msg::Search(SearchMsg::Action(EditAction::Other))
    );
    assert_eq!(
        Search::on_action(EditAction::Paste("p".to_string())),
        Msg::Search(SearchMsg::Action(EditAction::Paste("p".to_string())))
    );
}
