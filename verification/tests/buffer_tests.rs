use oxide::buffer::buffer::{Buffer, BufferKind, BufferState, Mode};
use oxide::buffer::error::Error;
use oxide::buffer::viewport::Viewport;
use oxide::keybinding::actions::{InsertDirection, ModeParams, NewLineDirection};

fn bline(s: &str) -> Vec<char> {
    s.chars().collect()
}

fn buffer_with(lines: &[&str]) -> Buffer {
    let content: Vec<Vec<char>> = lines.iter().map(|l| bline(l)).collect();
    Buffer::new(bline("test"), content, None, BufferKind::Normal, 12, BufferState::default())
}

fn as_strings(b: &Buffer) -> Vec<String> {
    b.content.iter().map(|l| l.iter().collect()).collect()
}

#[test]
fn new_buffer_never_empty() {
    let b = Buffer::new(bline("t"), Vec::new(), None, BufferKind::Normal, 2, BufferState::default());
    assert_eq!(b.content.len(), 1);
    assert!(b.content[0].is_empty());
    assert_eq!(b.mode, Mode::Normal);
    assert_eq!(b.cursor.x, 0);
    assert_eq!(b.cursor.y, 0);
}

#[test]
fn scratch_buffer_is_unkillable_but_editable() {
    let b = Buffer::scratch(10);
    assert_eq!(as_strings(&b)[0], "This is the scratch buffer");
    assert_eq!(b.state, BufferState::new(false, true));
    assert_eq!(b.viewport.height, 8);
}

#[test]
fn buffer_list_is_locked() {
    let b = Buffer::buffer_list(10);
    assert_eq!(b.kind, BufferKind::BufferList);
    assert_eq!(b.state, BufferState::locked());
    assert!(!b.state.mutable);
}

#[test]
fn vertical_move_restores_desired_column() {
    let mut b = buffer_with(&["abcdef", "xy"]);
    b.move_cursor(4, 0);
    assert_eq!(b.cursor.x, 4);
    assert_eq!(b.cursor.desired_x, 4);
    b.move_cursor(0, 1);
    assert_eq!(b.cursor.y, 1);
    assert_eq!(b.cursor.x, 2);
    b.move_cursor(0, 0);
    assert_eq!(b.cursor.x, 2);
    b.move_cursor(0, -1);
    assert_eq!(b.cursor.y, 0);
    assert_eq!(b.cursor.x, 4);
}

#[test]
fn move_to_bottom_lands_on_last_line_with_window_inside_content() {
    let mut b = buffer_with(&["a", "b", "c", "d", "e"]);
    // height 12 gives a viewport of 10; shrink it so the content overfills it
    b.viewport = Viewport::new(2);
    b.move_cursor_to_bot();
    assert_eq!(b.cursor.y, 4);
    assert_eq!(b.cursor.x, 0);
    assert!(b.viewport.bottom() <= b.content.len());
    assert_eq!(b.viewport.top, 3);
}

#[test]
fn move_to_top_returns_to_origin() {
    let mut b = buffer_with(&["one", "two", "three"]);
    b.move_cursor(2, 2);
    b.move_cursor_to_top();
    assert_eq!((b.cursor.x, b.cursor.y), (0, 0));
    assert_eq!(b.viewport.top, 0);
}

#[test]
fn viewport_adjust_follows_cursor() {
    let mut vp = Viewport::new(3);
    vp.adjust(5, 10);
    assert_eq!(vp.top, 3);
    vp.adjust(1, 10);
    assert_eq!(vp.top, 1);
    vp.adjust(9, 10);
    assert_eq!(vp.top, 7);
}

#[test]
fn viewport_adjust_short_content_pins_top() {
    let mut vp = Viewport::new(5);
    vp.adjust(1, 2);
    assert_eq!(vp.top, 0);
}

#[test]
fn add_then_remove_char_restores_line() {
    let mut b = buffer_with(&["helo"]);
    b.move_cursor(3, 0);
    b.switch_mode(ModeParams::Insert { insert_direction: InsertDirection::Before });
    assert_eq!(b.mode, Mode::Insert);
    b.add_char('l').unwrap();
    assert_eq!(as_strings(&b), vec!["hello".to_string()]);
    assert_eq!(b.cursor.x, 4);
    b.remove_char().unwrap();
    assert_eq!(as_strings(&b), vec!["helo".to_string()]);
    assert_eq!(b.cursor.x, 3);
}

#[test]
fn split_then_backspace_joins_line_again() {
    let mut b = buffer_with(&["abcdef"]);
    b.move_cursor(2, 0);
    b.switch_mode(ModeParams::Insert { insert_direction: InsertDirection::Before });
    b.new_line(NewLineDirection::Under);
    assert_eq!(as_strings(&b), vec!["ab".to_string(), "cdef".to_string()]);
    assert_eq!((b.cursor.x, b.cursor.y), (0, 1));
    b.remove_char().unwrap();
    assert_eq!(as_strings(&b), vec!["abcdef".to_string()]);
    assert_eq!((b.cursor.x, b.cursor.y), (2, 0));
}

#[test]
fn normal_mode_new_line_under_enters_insert() {
    let mut b = buffer_with(&["top", "bottom"]);
    b.new_line(NewLineDirection::Under);
    assert_eq!(as_strings(&b), vec!["top".to_string(), "".to_string(), "bottom".to_string()]);
    assert_eq!((b.cursor.x, b.cursor.y), (0, 1));
    assert_eq!(b.mode, Mode::Insert);
}

#[test]
fn normal_mode_new_line_over_keeps_cursor_row() {
    let mut b = buffer_with(&["top"]);
    b.new_line(NewLineDirection::Over);
    assert_eq!(as_strings(&b), vec!["".to_string(), "top".to_string()]);
    assert_eq!((b.cursor.x, b.cursor.y), (0, 0));
    assert_eq!(b.mode, Mode::Insert);
}

#[test]
fn locked_buffer_refuses_insert_mode_and_edits() {
    let mut b = Buffer::buffer_list(10);
    b.switch_mode(ModeParams::Insert { insert_direction: InsertDirection::Before });
    assert_eq!(b.mode, Mode::Normal);
    b.new_line(NewLineDirection::Under);
    assert_eq!(b.content.len(), 1);
    b.delete_line();
    assert_eq!(b.content.len(), 1);
}

#[test]
fn refused_insert_switch_changes_nothing_at_all() {
    // a locked buffer in visual mode keeps its anchor across a refused
    // insert switch
    let mut b = Buffer::buffer_list(10);
    b.switch_mode(ModeParams::Visual);
    let anchor = b.visual_start;
    assert!(anchor.is_some());
    b.switch_mode(ModeParams::Insert { insert_direction: InsertDirection::Before });
    assert_eq!(b.mode, Mode::Visual);
    assert_eq!(b.visual_start, anchor);

    // and a typed command line survives one too
    let mut c = Buffer::buffer_list(10);
    c.switch_mode(ModeParams::Command { prefix: bline(":"), input: bline("wq") });
    c.switch_mode(ModeParams::Insert { insert_direction: InsertDirection::After });
    assert_eq!(c.mode, Mode::Command);
    assert_eq!(c.get_command().iter().collect::<String>(), "wq");
}

#[test]
fn insert_entry_directions_place_cursor() {
    let mut b = buffer_with(&["  word"]);
    b.switch_mode(ModeParams::Insert { insert_direction: InsertDirection::Beginning });
    assert_eq!(b.cursor.x, 2);
    b.switch_mode(ModeParams::Normal);
    b.switch_mode(ModeParams::Insert { insert_direction: InsertDirection::End });
    assert_eq!(b.cursor.x, 6);
    b.switch_mode(ModeParams::Normal);
    let mut c = buffer_with(&["ab"]);
    c.switch_mode(ModeParams::Insert { insert_direction: InsertDirection::After });
    assert_eq!(c.cursor.x, 1);
}

#[test]
fn add_char_in_normal_mode_is_refused() {
    let mut b = buffer_with(&["abc"]);
    let r = b.add_char('z');
    assert_eq!(r, Err(Error::WrongModeError { current_mode: Mode::Normal }));
    assert_eq!(as_strings(&b), vec!["abc".to_string()]);
}

#[test]
fn add_tab_advances_to_next_tab_stop() {
    let mut b = buffer_with(&["abcd"]);
    b.move_cursor(2, 0);
    b.switch_mode(ModeParams::Insert { insert_direction: InsertDirection::Before });
    b.add_tab().unwrap();
    assert_eq!(as_strings(&b), vec!["ab  cd".to_string()]);
    assert_eq!(b.cursor.x, 4);
    b.add_tab().unwrap();
    assert_eq!(as_strings(&b), vec!["ab      cd".to_string()]);
    assert_eq!(b.cursor.x, 8);
}

#[test]
fn normal_mode_delete_removes_char_under_cursor() {
    let mut b = buffer_with(&["abc"]);
    b.move_cursor(1, 0);
    b.remove_char().unwrap();
    assert_eq!(as_strings(&b), vec!["ac".to_string()]);
}

#[test]
fn delete_line_removes_and_clamps() {
    let mut b = buffer_with(&["one", "two", "three"]);
    b.move_cursor(0, 2);
    b.delete_line();
    assert_eq!(as_strings(&b), vec!["one".to_string(), "two".to_string()]);
    assert_eq!(b.cursor.y, 1);
    assert_eq!(b.cursor.x, 0);
}

#[test]
fn delete_sole_line_blanks_it() {
    let mut b = buffer_with(&["only"]);
    b.delete_line();
    assert_eq!(as_strings(&b), vec!["".to_string()]);
}

#[test]
fn visual_single_line_delete_matches_repeated_deletes() {
    // fixture: "hello world", selection [0, 4]
    let mut v = buffer_with(&["hello world"]);
    v.switch_mode(ModeParams::Visual);
    v.move_cursor(4, 0);
    v.remove_char().unwrap();
    assert_eq!(as_strings(&v), vec![" world".to_string()]);
    assert_eq!(v.mode, Mode::Normal);

    let mut n = buffer_with(&["hello world"]);
    for _ in 0..5 {
        n.remove_char().unwrap();
    }
    assert_eq!(as_strings(&n), as_strings(&v));
}

#[test]
fn visual_whole_line_selection_drops_the_line() {
    // fixture: ["abc", "def", "ghi"], anchor (0,1), cursor (2,1)
    let mut b = buffer_with(&["abc", "def", "ghi"]);
    b.move_cursor(0, 1);
    b.switch_mode(ModeParams::Visual);
    b.move_cursor(2, 0);
    b.remove_char().unwrap();
    assert_eq!(as_strings(&b), vec!["abc".to_string(), "ghi".to_string()]);
    assert_eq!((b.cursor.x, b.cursor.y), (0, 1));
    assert_eq!(b.mode, Mode::Normal);
    assert_eq!(b.visual_start, None);
}

#[test]
fn visual_multi_line_delete_collapses_to_one_line() {
    let mut b = buffer_with(&["abcde", "middle", "vwxyz"]);
    b.move_cursor(2, 0);
    b.switch_mode(ModeParams::Visual);
    b.move_cursor(0, 2);
    // anchor (2,0), cursor now at column min(desired 2, 5)=2 on row 2
    b.remove_char().unwrap();
    assert_eq!(as_strings(&b), vec!["abyz".to_string()]);
    assert_eq!((b.cursor.x, b.cursor.y), (2, 0));
}

#[test]
fn visual_delete_without_anchor_reports_init_error() {
    let mut b = buffer_with(&["abc"]);
    b.mode = Mode::Visual;
    b.visual_start = None;
    assert_eq!(b.remove_char(), Err(Error::VisualModeInitError));
}

#[test]
fn switch_mode_round_trip_resets_command_line() {
    let mut b = buffer_with(&["abc"]);
    b.switch_mode(ModeParams::Command { prefix: bline(":"), input: bline("wq") });
    assert_eq!(b.mode, Mode::Command);
    assert_eq!(b.command_line.cursor.x, 3);
    assert_eq!(b.get_command().iter().collect::<String>(), "wq");
    b.switch_mode(ModeParams::Normal);
    assert_eq!(b.mode, Mode::Normal);
    assert!(b.command_line.input.is_empty());
    assert!(b.command_line.prefix.is_empty());
}

#[test]
fn command_mode_typing_edits_the_command_line() {
    let mut b = buffer_with(&["abc"]);
    b.switch_mode(ModeParams::Command { prefix: bline(":"), input: Vec::new() });
    b.add_char('w').unwrap();
    b.add_char('q').unwrap();
    assert_eq!(b.get_command().iter().collect::<String>(), "wq");
    b.remove_char().unwrap();
    assert_eq!(b.get_command().iter().collect::<String>(), "w");
}

#[test]
fn load_file_replaces_content_and_resets_cursor() {
    let mut b = buffer_with(&["old"]);
    b.move_cursor(2, 0);
    b.load_file(bline("notes"), vec![bline("x"), bline("y")], bline("/tmp/notes"));
    assert_eq!(as_strings(&b), vec!["x".to_string(), "y".to_string()]);
    assert_eq!((b.cursor.x, b.cursor.y), (0, 0));
    assert_eq!(b.path.as_ref().unwrap().iter().collect::<String>(), "/tmp/notes");
}

#[test]
fn errors_carry_readable_messages() {
    let wrong = Error::WrongModeError { current_mode: Mode::Visual };
    assert_eq!(
        wrong.message().iter().collect::<String>(),
        "WrongModeError: the current mode does not allow this action",
    );
    assert_eq!(
        Error::NoMatchError.message().iter().collect::<String>(),
        "NoMatchError: nothing matches the input",
    );
}
