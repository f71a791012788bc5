use oxide::buffer::buffer::{BufferKind, Mode};
use oxide::keybinding::actions::{
    Action,
    AddCharAction,
    AddTabAction,
    DeleteCharAction,
    DeleteLineAction,
    MoveCursorAction,
    NewLineAction,
    NewLineDirection,
    QuitAction,
    TopOfBufferAction,
    WriteBufferAction,
};
use oxide::keybinding::keybinding::{
    CommandParser,
    Key,
    Keybinding,
    KeybindingManager,
    Modifiers,
};

fn kline(s: &str) -> Vec<char> {
    s.chars().collect()
}

fn press(key: Key) -> Keybinding {
    Keybinding { key, modifiers: Modifiers::Plain }
}

#[test]
fn chord_prefix_waits_then_resolves() {
    // fixture: [g, g] is bound to top-of-buffer in normal mode
    let mut km = KeybindingManager::new();
    let first = km.handle_input(&Mode::Normal, press(Key::Char('g')));
    assert_eq!(first, None);
    assert_eq!(km.current_sequence.keys.len(), 1);
    let second = km.handle_input(&Mode::Normal, press(Key::Char('g')));
    assert_eq!(second, Some(Action::TopOfBuffer(TopOfBufferAction)));
    assert!(km.current_sequence.keys.is_empty());
}

#[test]
fn abandoned_chord_clears_the_sequence() {
    let mut km = KeybindingManager::new();
    assert_eq!(km.handle_input(&Mode::Normal, press(Key::Char('g'))), None);
    assert_eq!(km.current_sequence.keys.len(), 1);
    // an unrelated key after the first g: no action, pending sequence gone
    assert_eq!(km.handle_input(&Mode::Normal, press(Key::Char('q'))), None);
    assert!(km.current_sequence.keys.is_empty());
}

#[test]
fn single_key_bindings_resolve_immediately() {
    let mut km = KeybindingManager::new();
    assert_eq!(
        km.handle_input(&Mode::Normal, press(Key::Char('n'))),
        Some(Action::MoveCursor(MoveCursorAction::new(-1, 0))),
    );
    assert_eq!(
        km.handle_input(&Mode::Normal, press(Key::Char('x'))),
        Some(Action::DeleteChar(DeleteCharAction)),
    );
}

#[test]
fn insert_mode_literal_keys_bypass_the_table() {
    let mut km = KeybindingManager::new();
    assert_eq!(
        km.handle_input(&Mode::Insert, press(Key::Char('g'))),
        Some(Action::AddChar(AddCharAction::new('g'))),
    );
    assert_eq!(
        km.handle_input(&Mode::Insert, press(Key::Tab)),
        Some(Action::AddTab(AddTabAction)),
    );
    assert_eq!(
        km.handle_input(&Mode::Insert, press(Key::Backspace)),
        Some(Action::DeleteChar(DeleteCharAction)),
    );
    assert_eq!(
        km.handle_input(&Mode::Insert, press(Key::Enter)),
        Some(Action::NewLine(NewLineAction::new(NewLineDirection::Under))),
    );
    assert!(km.current_sequence.keys.is_empty());
}

#[test]
fn command_mode_characters_type_while_enter_executes() {
    let mut km = KeybindingManager::new();
    assert_eq!(
        km.handle_input(&Mode::Command, press(Key::Char('w'))),
        Some(Action::AddChar(AddCharAction::new('w'))),
    );
    match km.handle_input(&Mode::Command, press(Key::Enter)) {
        Some(Action::ExecuteCommand(_)) => {},
        other => panic!("unexpected resolution: {:?}", other),
    }
}

#[test]
fn shifted_characters_still_insert_themselves() {
    let mut km = KeybindingManager::new();
    let shifted = Keybinding { key: Key::Char('G'), modifiers: Modifiers::Shift };
    assert_eq!(
        km.handle_input(&Mode::Insert, shifted),
        Some(Action::AddChar(AddCharAction::new('G'))),
    );
}

#[test]
fn buffer_kind_gates_kind_specific_bindings() {
    let mut km = KeybindingManager::new();
    km.set_buffer_kind(BufferKind::BufferList);
    // delete-line is bound only for ordinary buffers
    let first = km.handle_input(&Mode::Normal, press(Key::Char('d')));
    assert_eq!(first, None);
    assert!(km.current_sequence.keys.is_empty());
    km.set_buffer_kind(BufferKind::Normal);
    assert_eq!(km.handle_input(&Mode::Normal, press(Key::Char('d'))), None);
    assert_eq!(km.current_sequence.keys.len(), 1);
    assert_eq!(
        km.handle_input(&Mode::Normal, press(Key::Char('d'))),
        Some(Action::DeleteLine(DeleteLineAction)),
    );
}

#[test]
fn added_binding_overrides_and_resolves() {
    let mut km = KeybindingManager::new();
    km.add_binding(
        Mode::Normal,
        None,
        vec![press(Key::Char('Q'))],
        Action::Quit(QuitAction),
    );
    assert_eq!(
        km.handle_input(&Mode::Normal, press(Key::Char('Q'))),
        Some(Action::Quit(QuitAction)),
    );
    // replacing the same chord keeps exactly one binding for it
    km.add_binding(
        Mode::Normal,
        None,
        vec![press(Key::Char('Q'))],
        Action::WriteBuffer(WriteBufferAction),
    );
    assert_eq!(
        km.handle_input(&Mode::Normal, press(Key::Char('Q'))),
        Some(Action::WriteBuffer(WriteBufferAction)),
    );
}

#[test]
fn parser_reads_write_and_quit_commands() {
    assert_eq!(
        CommandParser::parse(&kline("wq")),
        vec![Action::WriteBuffer(WriteBufferAction), Action::Quit(QuitAction)],
    );
    assert_eq!(CommandParser::parse(&kline("w")), vec![Action::WriteBuffer(WriteBufferAction)]);
    assert_eq!(CommandParser::parse(&kline("q")), vec![Action::Quit(QuitAction)]);
    assert_eq!(CommandParser::parse(&kline("zz")), Vec::<Action>::new());
    assert_eq!(CommandParser::parse(&kline("")), Vec::<Action>::new());
}
