use oxide::buffer::buffer::{Buffer, BufferKind, BufferState, Mode};
use oxide::buffer::minibuffer::{MinibufferKind, PathKind};
use oxide::editor::editor::{BufferManager, Editor};
use oxide::error::OxideError;
use oxide::keybinding::actions::{
    AddCharAction,
    DeleteCharAction,
    EscapeAction,
    ExecuteCommandAction,
    InsertDirection,
    MinibufferAction,
    ModeParams,
    MoveCursorAction,
    OpenBufferAction,
    QuitAction,
    SwitchModeAction,
    WriteBufferAction,
};

fn eline(s: &str) -> Vec<char> {
    s.chars().collect()
}

fn estrings(b: &Buffer) -> Vec<String> {
    b.content.iter().map(|l| l.iter().collect()).collect()
}

#[test]
fn fresh_editor_shows_the_scratch_buffer() {
    let ed = Editor::new(10);
    assert!(ed.is_running);
    assert_eq!(ed.buffer_manager.buffers.len(), 1);
    assert_eq!(
        ed.buffer_manager.buffers[0].title.iter().collect::<String>(),
        "*Scratch*",
    );
}

#[test]
fn buffer_manager_hands_out_the_active_buffer() {
    let mut bm = BufferManager::new(10);
    assert!(bm.get_active_buffer().is_ok());
    bm.active_buffer = 7;
    assert!(matches!(bm.get_active_buffer(), Err(OxideError::IndexError)));
    assert!(matches!(bm.get_active_buffer_mut(), Err(OxideError::IndexError)));
}

#[test]
fn actions_drive_the_active_buffer() {
    let mut ed = Editor::new(10);
    SwitchModeAction::new(ModeParams::Insert { insert_direction: InsertDirection::Before })
        .execute(&mut ed)
        .unwrap();
    assert_eq!(ed.buffer_manager.buffers[0].mode, Mode::Insert);
    AddCharAction::new('x').execute(&mut ed).unwrap();
    assert_eq!(
        estrings(&ed.buffer_manager.buffers[0])[0],
        "xThis is the scratch buffer",
    );
    DeleteCharAction.execute(&mut ed).unwrap();
    assert_eq!(
        estrings(&ed.buffer_manager.buffers[0])[0],
        "This is the scratch buffer",
    );
    MoveCursorAction::new(0, 1).execute(&mut ed).unwrap();
    assert_eq!(ed.buffer_manager.buffers[0].cursor.y, 0);
    // still in insert mode: vertical moves are ignored there
    SwitchModeAction::new(ModeParams::Normal).execute(&mut ed).unwrap();
    MoveCursorAction::new(0, 1).execute(&mut ed).unwrap();
    assert_eq!(ed.buffer_manager.buffers[0].cursor.y, 1);
}

#[test]
fn quit_action_stops_the_loop() {
    let mut ed = Editor::new(10);
    QuitAction.execute(&mut ed).unwrap();
    assert!(!ed.is_running);
}

#[test]
fn write_action_reports_the_save_payload() {
    let mut ed = Editor::new(10);
    let mut b = Buffer::new(
        eline("notes"),
        vec![eline("alpha"), eline("beta")],
        Some(eline("/tmp/notes.txt")),
        BufferKind::Normal,
        10,
        BufferState::default(),
    );
    b.switch_mode(ModeParams::Normal);
    ed.buffer_manager.add_buffer(b);
    ed.buffer_manager.active_buffer = 1;
    let req = WriteBufferAction.execute(&mut ed).unwrap().unwrap();
    assert_eq!(req.path.iter().collect::<String>(), "/tmp/notes.txt");
    assert_eq!(req.content.iter().collect::<String>(), "alpha\nbeta");
}

#[test]
fn write_action_without_a_file_is_a_no_op() {
    let mut ed = Editor::new(10);
    assert_eq!(WriteBufferAction.execute(&mut ed).unwrap(), None);
}

#[test]
fn write_action_on_a_locked_buffer_fails() {
    let mut ed = Editor::new(10);
    ed.buffer_manager.add_buffer(Buffer::buffer_list(10));
    ed.buffer_manager.active_buffer = 1;
    assert!(WriteBufferAction.execute(&mut ed).is_err());
}

#[test]
fn executing_wq_saves_and_quits() {
    let mut ed = Editor::new(10);
    let b = Buffer::new(
        eline("notes"),
        vec![eline("alpha")],
        Some(eline("/tmp/notes.txt")),
        BufferKind::Normal,
        10,
        BufferState::default(),
    );
    ed.buffer_manager.add_buffer(b);
    ed.buffer_manager.active_buffer = 1;
    SwitchModeAction::new(ModeParams::Command { prefix: eline(":"), input: eline("wq") })
        .execute(&mut ed)
        .unwrap();
    let req = ExecuteCommandAction.execute(&mut ed).unwrap();
    assert!(req.is_some());
    assert!(!ed.is_running);
    assert_eq!(ed.buffer_manager.buffers[1].mode, Mode::Normal);
}

#[test]
fn executing_an_unknown_command_does_nothing() {
    let mut ed = Editor::new(10);
    SwitchModeAction::new(ModeParams::Command { prefix: eline(":"), input: eline("zz") })
        .execute(&mut ed)
        .unwrap();
    let req = ExecuteCommandAction.execute(&mut ed).unwrap();
    assert_eq!(req, None);
    assert!(ed.is_running);
    assert_eq!(ed.buffer_manager.buffers[0].mode, Mode::Normal);
}

#[test]
fn open_buffer_action_switches_or_rejects() {
    let mut ed = Editor::new(10);
    ed.buffer_manager.add_buffer(Buffer::buffer_list(10));
    OpenBufferAction::new(1).execute(&mut ed).unwrap();
    assert_eq!(ed.buffer_manager.active_buffer, 1);
    assert_eq!(
        OpenBufferAction::new(9).execute(&mut ed),
        Err(OxideError::IndexError),
    );
    assert_eq!(ed.buffer_manager.active_buffer, 1);
}

#[test]
fn minibuffer_action_gathers_buffer_titles() {
    let mut ed = Editor::new(10);
    ed.buffer_manager.add_buffer(Buffer::buffer_list(10));
    MinibufferAction::new(MinibufferKind::Buffer(Vec::new())).execute(&mut ed).unwrap();
    assert_eq!(ed.buffer_manager.buffers[0].mode, Mode::Minibuffer);
    match &ed.minibuffer.kind {
        MinibufferKind::Buffer(titles) => {
            let titles: Vec<String> = titles.iter().map(|t| t.iter().collect()).collect();
            assert_eq!(titles, vec!["*Scratch*".to_string(), "*Buffers*".to_string()]);
        },
        other => panic!("unexpected kind: {:?}", other),
    }
}

#[test]
fn resolving_the_minibuffer_switches_buffers() {
    let mut ed = Editor::new(10);
    ed.buffer_manager.add_buffer(Buffer::buffer_list(10));
    MinibufferAction::new(MinibufferKind::Buffer(Vec::new())).execute(&mut ed).unwrap();
    ed.minibuffer.input = eline("Buffers");
    ed.minibuffer.cursor.x = 7;
    let follow_up = oxide::keybinding::actions::ExecuteMbCommandAction
        .execute(&mut ed, PathKind::Missing)
        .unwrap();
    assert_eq!(follow_up, None);
    assert_eq!(ed.buffer_manager.active_buffer, 1);
    assert_eq!(ed.minibuffer.kind, MinibufferKind::Nop);
    assert_eq!(ed.buffer_manager.buffers[1].mode, Mode::Normal);
}

#[test]
fn escape_action_abandons_the_minibuffer() {
    let mut ed = Editor::new(10);
    MinibufferAction::new(MinibufferKind::File(Vec::new())).execute(&mut ed).unwrap();
    assert_eq!(ed.buffer_manager.buffers[0].mode, Mode::Minibuffer);
    EscapeAction.execute(&mut ed).unwrap();
    assert_eq!(ed.buffer_manager.buffers[0].mode, Mode::Normal);
    assert_eq!(ed.minibuffer.kind, MinibufferKind::Nop);
}
