use oxide::buffer::command_line::{CommandLineManager, CommandLineState, DirEntry};
use oxide::buffer::error::Error;
use oxide::buffer::minibuffer::{FillStep, Minibuffer, MinibufferKind, PathKind};
use oxide::keybinding::actions::Action;
use oxide::text::{contains_chars, join_lines, lex_le_line, lines_equal, sort_lines, split_lines};

fn cline(s: &str) -> Vec<char> {
    s.chars().collect()
}

fn centry(name: &str, is_dir: bool) -> DirEntry {
    DirEntry { name: cline(name), is_dir }
}

fn cstrings(v: &Vec<Vec<char>>) -> Vec<String> {
    v.iter().map(|l| l.iter().collect()).collect()
}

#[test]
fn find_file_typing_filters_candidates() {
    // fixture: input "/tmp/", typing "fi" with an existing child file.txt
    let mut cl = CommandLineManager::default();
    cl.state = CommandLineState::FindFile;
    cl.input = cline("/tmp/");
    cl.cursor.x = 5;
    cl.add_char('f').unwrap();
    cl.add_char('i').unwrap();
    assert_eq!(cl.suffix.iter().collect::<String>(), "fi");
    cl.load_directory(vec![centry("file.txt", false), centry("docs", true)]);
    assert_eq!(cstrings(&cl.content), vec!["file.txt".to_string()]);
}

#[test]
fn find_file_separator_commits_suffix_into_input() {
    let mut cl = CommandLineManager::default();
    cl.state = CommandLineState::FindFile;
    cl.input = cline("/tmp/");
    cl.cursor.x = 5;
    for c in "docs/".chars() {
        cl.add_char(c).unwrap();
    }
    assert!(cl.wants_commit());
    cl.commit_suffix();
    assert_eq!(cl.input.iter().collect::<String>(), "/tmp/docs/");
    assert!(cl.suffix.is_empty());
    assert_eq!(cl.cursor.y, 0);
}

#[test]
fn candidates_sort_dot_and_directory_buckets() {
    let mut cl = CommandLineManager::default();
    cl.state = CommandLineState::FindFile;
    cl.load_directory(vec![
        centry("c", false),
        centry("b", true),
        centry(".z", false),
        centry("a", true),
        centry(".b", true),
    ]);
    assert_eq!(
        cstrings(&cl.content),
        vec![".b".to_string(), "a".to_string(), "b".to_string(), ".z".to_string(), "c".to_string()],
    );
}

#[test]
fn backspace_with_empty_suffix_steps_up_a_directory() {
    let mut cl = CommandLineManager::default();
    cl.state = CommandLineState::FindFile;
    cl.input = cline("/tmp/foo/");
    cl.cursor.x = 9;
    cl.remove_char().unwrap();
    assert_eq!(cl.input.iter().collect::<String>(), "/tmp/");
    assert_eq!(cl.cursor.x, 5);
    cl.remove_char().unwrap();
    assert_eq!(cl.input.iter().collect::<String>(), "/");
    cl.remove_char().unwrap();
    assert_eq!(cl.input.iter().collect::<String>(), "/");
}

#[test]
fn backspace_inside_suffix_removes_one_character() {
    let mut cl = CommandLineManager::default();
    cl.state = CommandLineState::FindFile;
    cl.input = cline("/tmp/");
    cl.cursor.x = 5;
    cl.add_char('f').unwrap();
    cl.add_char('i').unwrap();
    cl.remove_char().unwrap();
    assert_eq!(cl.suffix.iter().collect::<String>(), "f");
    assert_eq!(cl.cursor.x, 6);
}

#[test]
fn clear_and_display_error_reset_the_command_line() {
    let mut cl = CommandLineManager::default();
    cl.input = cline("abc");
    cl.cursor.x = 3;
    cl.clear();
    assert!(cl.input.is_empty());
    assert_eq!(cl.state, CommandLineState::Default);
    cl.display_error(cline("boom"));
    assert_eq!(cl.state, CommandLineState::Error);
    assert_eq!(cl.prefix.iter().collect::<String>(), "boom");
    assert_eq!(cl.cursor.x, 0);
    // moving on an error banner still just clamps the cursor
    cl.move_cursor(2, 0);
    assert_eq!(cl.cursor.x, 4);
}

#[test]
fn command_line_cursor_clamps_to_text() {
    let mut cl = CommandLineManager::default();
    cl.prefix = cline(":");
    cl.input = cline("wq");
    cl.cursor.x = 3;
    cl.move_cursor(-10, 0);
    assert_eq!(cl.cursor.x, 1);
    cl.move_cursor(10, 0);
    assert_eq!(cl.cursor.x, 3);
}

#[test]
fn minibuffer_fill_lists_directories_before_files() {
    let mut mb = Minibuffer::default();
    mb.kind = MinibufferKind::File(vec![cline("/")]);
    let step = mb.fill(vec![
        centry("zeta", false),
        centry("beta", true),
        centry("alpha", false),
    ]);
    assert_eq!(step, FillStep::Done);
    assert_eq!(
        cstrings(&mb.content),
        vec!["beta".to_string(), "alpha".to_string(), "zeta".to_string()],
    );
}

#[test]
fn minibuffer_fill_exact_directory_descends() {
    let mut mb = Minibuffer::default();
    mb.seed_path(vec![cline("/")]);
    mb.input = cline("docs");
    mb.cursor.x = 1 + 4;
    let step = mb.fill(vec![centry("docs", true), centry("other", true)]);
    assert_eq!(step, FillStep::Descend);
    assert!(mb.input.is_empty());
    assert_eq!(cstrings(&mb.matched_input), vec!["/".to_string(), "docs".to_string()]);
    match &mb.kind {
        MinibufferKind::File(p) => {
            assert_eq!(cstrings(p), vec!["/".to_string(), "docs".to_string()])
        },
        _ => panic!("expected a path kind"),
    }
}

#[test]
fn minibuffer_fill_exact_file_becomes_sole_candidate() {
    let mut mb = Minibuffer::default();
    mb.seed_path(vec![cline("/")]);
    mb.input = cline("file.txt");
    mb.cursor.x = 1 + 8;
    let step = mb.fill(vec![centry("file.txt", false)]);
    assert_eq!(step, FillStep::Done);
    assert_eq!(cstrings(&mb.content), vec!["file.txt".to_string()]);
    match &mb.kind {
        MinibufferKind::File(p) => {
            assert_eq!(cstrings(p), vec!["/".to_string(), "file.txt".to_string()])
        },
        _ => panic!("expected a path kind"),
    }
}

#[test]
fn minibuffer_fill_filters_buffer_titles() {
    let mut mb = Minibuffer::default();
    mb.kind = MinibufferKind::Buffer(vec![cline("notes"), cline("*Scratch*"), cline("todo")]);
    mb.input = cline("o");
    mb.cursor.x = 1;
    let step = mb.fill(Vec::new());
    assert_eq!(step, FillStep::Done);
    assert_eq!(cstrings(&mb.content), vec!["notes".to_string(), "todo".to_string()]);
    assert_eq!(mb.prefix.iter().collect::<String>(), "Find Buffer:");
}

#[test]
fn minibuffer_append_copies_candidate() {
    let mut mb = Minibuffer::default();
    mb.kind = MinibufferKind::Buffer(vec![cline("notes")]);
    mb.input = cline("no");
    mb.cursor.x = 2;
    mb.content = vec![cline("notes")];
    mb.append(PathKind::IsDirectory).unwrap();
    assert_eq!(mb.input.iter().collect::<String>(), "notes");
    assert_eq!(mb.cursor.x, 5);
    assert_eq!(mb.cursor.y, 0);
}

#[test]
fn minibuffer_append_refuses_a_dangling_path_candidate() {
    let mut mb = Minibuffer::default();
    mb.seed_path(vec![cline("/")]);
    mb.content = vec![cline("gone.txt")];
    let r = mb.append(PathKind::Missing);
    assert_eq!(r, Err(Error::InvalidPathError));
    assert!(mb.input.is_empty());
    // a candidate the file system confirms is taken
    mb.append(PathKind::IsFile).unwrap();
    assert_eq!(mb.input.iter().collect::<String>(), "gone.txt");
}

#[test]
fn minibuffer_backspace_pops_confirmed_component() {
    let mut mb = Minibuffer::default();
    mb.seed_path(vec![cline("/"), cline("tmp")]);
    assert_eq!(mb.cursor.x, 2);
    mb.remove_char().unwrap();
    assert_eq!(cstrings(&mb.matched_input), vec!["/".to_string()]);
    match &mb.kind {
        MinibufferKind::File(p) => assert_eq!(cstrings(p), vec!["/".to_string()]),
        _ => panic!("expected a path kind"),
    }
    assert_eq!(mb.cursor.x, 1);
}

#[test]
fn minibuffer_execute_file_opens_or_rejects() {
    let mut mb = Minibuffer::default();
    mb.seed_path(vec![cline("/"), cline("tmp"), cline("file.txt")]);
    match mb.execute(PathKind::IsFile) {
        Ok(Some(Action::OpenFile(a))) => {
            assert_eq!(cstrings(&a.path), vec![
                "/".to_string(),
                "tmp".to_string(),
                "file.txt".to_string(),
            ]);
        },
        other => panic!("unexpected outcome: {:?}", other),
    }
    assert_eq!(mb.execute(PathKind::IsDirectory), Ok(None));
    assert_eq!(mb.execute(PathKind::Missing), Err(Error::InvalidPathError));
}

#[test]
fn minibuffer_execute_buffer_finds_first_match() {
    let mut mb = Minibuffer::default();
    mb.kind = MinibufferKind::Buffer(vec![cline("alpha"), cline("notes"), cline("note2")]);
    mb.input = cline("note");
    mb.cursor.x = 4;
    match mb.execute(PathKind::Missing) {
        Ok(Some(Action::OpenBuffer(a))) => assert_eq!(a.index, 1),
        other => panic!("unexpected outcome: {:?}", other),
    }
}

#[test]
fn minibuffer_execute_buffer_without_match_errors() {
    let mut mb = Minibuffer::default();
    mb.kind = MinibufferKind::Buffer(vec![cline("alpha")]);
    mb.input = cline("zz");
    mb.cursor.x = 2;
    assert_eq!(mb.execute(PathKind::Missing), Err(Error::NoMatchError));
}

#[test]
fn substring_search_finds_and_rejects() {
    assert!(contains_chars(&cline("file.txt"), &cline("fi")));
    assert!(contains_chars(&cline("file.txt"), &cline("")));
    assert!(!contains_chars(&cline("file.txt"), &cline("xy")));
    assert!(contains_chars(&cline("abc"), &cline("abc")));
}

#[test]
fn line_comparison_orders_lexicographically() {
    assert!(lex_le_line(&cline("abc"), &cline("abd")));
    assert!(lex_le_line(&cline("ab"), &cline("abc")));
    assert!(!lex_le_line(&cline("b"), &cline("ab")));
    assert!(lines_equal(&cline("same"), &cline("same")));
    assert!(!lines_equal(&cline("same"), &cline("sane")));
}

#[test]
fn sorting_lines_orders_them() {
    let sorted = sort_lines(vec![cline("pear"), cline("apple"), cline("fig")]);
    assert_eq!(cstrings(&sorted), vec!["apple".to_string(), "fig".to_string(), "pear".to_string()]);
}

#[test]
fn split_and_join_lines_are_inverse() {
    let text = cline("one\ntwo\n\nthree");
    let lines = split_lines(&text);
    assert_eq!(cstrings(&lines), vec![
        "one".to_string(),
        "two".to_string(),
        "".to_string(),
        "three".to_string(),
    ]);
    let back = join_lines(&lines);
    assert_eq!(back.iter().collect::<String>(), "one\ntwo\n\nthree");
}

#[test]
fn split_lines_of_empty_text_is_one_empty_line() {
    let lines = split_lines(&Vec::new());
    assert_eq!(lines.len(), 1);
    assert!(lines[0].is_empty());
    let trailing = split_lines(&cline("a\n"));
    assert_eq!(cstrings(&trailing), vec!["a".to_string(), "".to_string()]);
}
