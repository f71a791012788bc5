//! The buffer itself: content, cursor, mode machine and the embedded
//! command line.

use vstd::prelude::*;

verus! {

use crate::buffer::viewport::Viewport;
use crate::keybinding::actions::{InsertDirection, ModeParams};
use crate::text::lines_view;

/// What a buffer shows: an ordinary file buffer or the list of open
/// buffers.
#[derive(PartialEq, Eq, Hash, Clone, Copy, Debug, Structural)]
pub enum BufferKind {
    Normal,
    BufferList,
}

/// The modal editing state: it gates which operations are legal and how
/// keys are read.
#[derive(Debug, Eq, Hash, PartialEq, Clone, Copy, Structural)]
pub enum Mode {
    Normal,
    Insert,
    Visual,
    Command,
    Minibuffer,
}

/// A position in the buffer: `y` indexes a line, `x` a character offset
/// within it.  `desired_x` remembers the last deliberately chosen column
/// so vertical moves across shorter lines can restore it.
#[derive(Debug, Clone, Copy, Eq, PartialEq, Hash, Structural)]
pub struct Cursor {
    pub x: usize,
    pub y: usize,
    pub desired_x: usize,
}

impl Default for Cursor {
    fn default() -> (r: Cursor)
        ensures
            r == (Cursor { x: 0, y: 0, desired_x: 0 }),
    {
        Cursor { x: 0, y: 0, desired_x: 0 }
    }
}

/// Per-buffer policy flags, fixed at creation: whether the buffer may be
/// closed and whether its content may change.
#[derive(Debug, Eq, PartialEq, Hash, Clone, Copy, Structural)]
pub struct BufferState {
    pub killable: bool,
    pub mutable: bool,
}

impl BufferState {
    pub fn new(killable: bool, mutable: bool) -> (r: BufferState)
        ensures
            r.killable == killable,
            r.mutable == mutable,
    {
        BufferState { killable, mutable }
    }

    /// The scratch buffer can be edited but never closed.
    pub fn scratch() -> (r: BufferState)
        ensures
            r == (BufferState { killable: false, mutable: true }),
    {
        BufferState { killable: false, mutable: true }
    }

    /// A locked buffer can neither be edited nor closed.
    pub fn locked() -> (r: BufferState)
        ensures
            r == (BufferState { killable: false, mutable: false }),
    {
        BufferState { killable: false, mutable: false }
    }
}

impl Default for BufferState {
    fn default() -> (r: BufferState)
        ensures
            r == (BufferState { killable: true, mutable: true }),
    {
        BufferState { killable: true, mutable: true }
    }
}

/// The single-line editor shown while a `:` command is typed.
#[derive(Debug, Eq, PartialEq, Hash, Clone)]
pub struct CommandLine {
    pub input: Vec<char>,
    pub prefix: Vec<char>,
    pub cursor: Cursor,
}

impl CommandLine {
    /// The command-line cursor stays between the end of the prefix and
    /// the end of the input.
    pub open spec fn wf(self) -> bool {
        &&& self.prefix@.len() + self.input@.len() <= usize::MAX
        &&& self.prefix@.len() <= self.cursor.x
        &&& self.cursor.x <= self.prefix@.len() + self.input@.len()
    }
}

impl Default for CommandLine {
    fn default() -> (r: CommandLine)
        ensures
            r.input@ == Seq::<char>::empty(),
            r.prefix@ == Seq::<char>::empty(),
            r.cursor == (Cursor { x: 0, y: 0, desired_x: 0 }),
            r.wf(),
    {
        CommandLine { input: Vec::new(), prefix: Vec::new(), cursor: Cursor::default() }
    }
}

/// A text buffer: the content lines together with everything the editor
/// tracks about them.
#[derive(Debug, Clone)]
pub struct Buffer {
    pub title: Vec<char>,
    pub content: Vec<Vec<char>>,
    pub path: Option<Vec<char>>,
    pub kind: BufferKind,
    pub cursor: Cursor,
    pub viewport: Viewport,
    pub mode: Mode,
    pub state: BufferState,
    pub command_line: CommandLine,
    pub visual_start: Option<Cursor>,
}

/// A character counts as blank for the purposes of jumping to the
/// first word of a line: the characters with the Unicode White_Space
/// property.
pub open spec fn is_blank(c: char) -> bool {
    ||| ('\u{0009}' <= c && c <= '\u{000D}')
    ||| c == ' '
    ||| c == '\u{0085}'
    ||| c == '\u{00A0}'
    ||| c == '\u{1680}'
    ||| ('\u{2000}' <= c && c <= '\u{200A}')
    ||| c == '\u{2028}'
    ||| c == '\u{2029}'
    ||| c == '\u{202F}'
    ||| c == '\u{205F}'
    ||| c == '\u{3000}'
}

/// Decides `is_blank`.
pub fn is_blank_char(c: char) -> (r: bool)
    ensures
        r == is_blank(c),
{
    ('\u{0009}' <= c && c <= '\u{000D}') || c == ' ' || c == '\u{0085}' || c == '\u{00A0}' || c
        == '\u{1680}' || ('\u{2000}' <= c && c <= '\u{200A}') || c == '\u{2028}' || c
        == '\u{2029}' || c == '\u{202F}' || c == '\u{205F}' || c == '\u{3000}'
}

/// Index of the first non-blank character of `s` at or after `i`, or
/// `s.len()` if all of them are blank.
pub open spec fn first_non_blank_from(s: Seq<char>, i: int) -> int
    decreases s.len() - i,
{
    if i < 0 || i >= s.len() {
        s.len() as int
    } else if !is_blank(s[i]) {
        i
    } else {
        first_non_blank_from(s, i + 1)
    }
}

/// Finds the first non-blank character of `line` at or after `i`.
pub fn first_non_blank(line: &Vec<char>, i: usize) -> (r: usize)
    ensures
        r == first_non_blank_from(line@, i as int),
        i <= r <= line@.len() || r == line@.len(),
    decreases line.len() - i,
{
    if i >= line.len() {
        line.len()
    } else if !is_blank_char(line[i]) {
        i
    } else {
        first_non_blank(line, i + 1)
    }
}

/// What `Buffer::switch_mode` leaves behind: leaving visual mode
/// discards the anchor, leaving command mode resets the command line;
/// entering a mode seeds whatever it needs, and entering insert mode on
/// a locked buffer is refused, leaving only the leave-mode cleanup.
pub open spec fn mode_switched(pre: Buffer, post: Buffer, mode: ModeParams) -> bool {
    // entering insert mode on a locked buffer is refused outright
    let refused = (mode matches ModeParams::Insert { .. }) && !pre.state.mutable;
    &&& (post.title == pre.title)
    &&& (post.content == pre.content)
    &&& (post.path == pre.path)
    &&& (post.kind == pre.kind)
    &&& (post.state == pre.state)
    &&& (post.viewport == pre.viewport)
    &&& (refused ==> post == pre)
    &&& (// the anchor: set on entering visual mode, cleared on leaving it
            !refused ==> (mode matches ModeParams::Visual ==> post.visual_start == Some(
                pre.cursor,
            )))
    &&& (!refused ==> (!(mode matches ModeParams::Visual) ==> post.visual_start == (
            if pre.mode == Mode::Visual {
                None
            } else {
                pre.visual_start
            })))
    &&& (// the command line: seeded on entering command mode, reset on leaving it
            mode matches ModeParams::Command { prefix, input } ==> {
                &&& post.command_line.prefix == prefix
                &&& post.command_line.input == input
                &&& post.command_line.cursor.x == prefix@.len() + input@.len()
                &&& post.command_line.cursor.y == 0
                &&& post.command_line.cursor.desired_x == 0
            })
    &&& (!refused ==> (!(mode matches ModeParams::Command { .. }) && pre.mode == Mode::Command
                ==> {
                &&& post.command_line.prefix@ == Seq::<char>::empty()
                &&& post.command_line.input@ == Seq::<char>::empty()
                &&& post.command_line.cursor == (Cursor { x: 0, y: 0, desired_x: 0 })
            }))
    &&& (!(mode matches ModeParams::Command { .. }) && pre.mode != Mode::Command
                ==> post.command_line == pre.command_line)
    &&& (// the mode itself
            mode matches ModeParams::Normal ==> post.mode == Mode::Normal)
    &&& (mode matches ModeParams::Minibuffer ==> post.mode == Mode::Minibuffer)
    &&& (mode matches ModeParams::Visual ==> post.mode == Mode::Visual)
    &&& (mode matches ModeParams::Command { .. } ==> post.mode == Mode::Command)
    &&& (mode matches ModeParams::Insert { .. } ==> post.mode == (
            if pre.state.mutable {
                Mode::Insert
            } else {
                pre.mode
            }))
    &&& (// the cursor: only entering insert mode on an editable buffer moves it
            !(mode matches ModeParams::Insert { .. }) || refused ==> post.cursor == pre.cursor)
    &&& (!refused ==> (mode matches ModeParams::Insert { insert_direction } ==> {
                &&& post.cursor.y == pre.cursor.y
                &&& post.cursor.desired_x == pre.cursor.desired_x
                &&& insert_direction == InsertDirection::Beginning ==> post.cursor.x == (
                if first_non_blank_from(pre.lines()[pre.cursor.y as int], 0)
                    < pre.cur_line_len() {
                    first_non_blank_from(pre.lines()[pre.cursor.y as int], 0)
                } else {
                    pre.cursor.x as int
                })
                &&& insert_direction == InsertDirection::Before
                    ==> post.cursor.x == pre.cursor.x
                &&& insert_direction == InsertDirection::After ==> post.cursor.x == (
                if pre.cur_line_len() > pre.cursor.x {
                    pre.cursor.x + 1
                } else {
                    pre.cursor.x as int
                })
                &&& insert_direction == InsertDirection::End
                    ==> post.cursor.x == pre.cur_line_len()
            }))
}

impl Buffer {
    /// The content as a sequence of character sequences.
    pub open spec fn lines(self) -> Seq<Seq<char>> {
        lines_view(self.content@)
    }

    /// Length of the line the cursor is on.
    pub open spec fn cur_line_len(self) -> int {
        self.lines()[self.cursor.y as int].len() as int
    }

    /// The buffer invariant: content is never empty and the cursor stays
    /// on a line, at or before its end; the command-line cursor stays
    /// within its text.
    pub open spec fn wf(self) -> bool {
        &&& self.content@.len() >= 1
        &&& self.cursor.y < self.content@.len()
        &&& self.cursor.x <= self.cur_line_len()
        &&& self.command_line.wf()
    }

    pub fn new(
        title: Vec<char>,
        content: Vec<Vec<char>>,
        path: Option<Vec<char>>,
        kind: BufferKind,
        height: usize,
        state: BufferState,
    ) -> (r: Buffer)
        requires
            height >= 2,
        ensures
            r.title == title,
            r.path == path,
            r.kind == kind,
            r.state == state,
            r.mode == Mode::Normal,
            r.cursor == (Cursor { x: 0, y: 0, desired_x: 0 }),
            r.viewport.top == 0,
            r.viewport.height == height - 2,
            r.command_line.input@ == Seq::<char>::empty(),
            r.command_line.prefix@ == Seq::<char>::empty(),
            r.visual_start is None,
            content@.len() == 0 ==> r.lines() == seq![Seq::<char>::empty()],
            content@.len() > 0 ==> r.content == content,
            r.wf(),
    {
        let content = if content.is_empty() {
            let mut one: Vec<Vec<char>> = Vec::new();
            one.push(Vec::new());
            proof {
                assert(lines_view(one@) =~= seq![Seq::<char>::empty()]);
            }
            one
        } else {
            content
        };

        Buffer {
            title,
            content,
            path,
            kind,
            cursor: Cursor::default(),
            viewport: Viewport::new(height - 2),
            mode: Mode::Normal,
            state,
            command_line: CommandLine::default(),
            visual_start: None,
        }
    }

    /// The scratch buffer: free-standing, editable, never saved.
    pub fn scratch(height: usize) -> (r: Buffer)
        requires
            height >= 2,
        ensures
            r.title@ == "*Scratch*"@,
            r.path is None,
            r.kind == BufferKind::Normal,
            r.state == (BufferState { killable: false, mutable: true }),
            r.mode == Mode::Normal,
            r.cursor == (Cursor { x: 0, y: 0, desired_x: 0 }),
            r.viewport.top == 0,
            r.viewport.height == height - 2,
            r.visual_start is None,
            r.lines() == seq![
                "This is the scratch buffer"@,
                "This buffer isn't connected to a file, so nothing in here is saved."@,
                "It's meant to be used to play around, sketch, and try new plugins."@,
                Seq::<char>::empty(),
            ],
            r.wf(),
    {
        let mut content: Vec<Vec<char>> = Vec::new();
        content.push(crate::text::str_to_line("This is the scratch buffer"));
        content.push(
            crate::text::str_to_line(
                "This buffer isn't connected to a file, so nothing in here is saved.",
            ),
        );
        content.push(
            crate::text::str_to_line(
                "It's meant to be used to play around, sketch, and try new plugins.",
            ),
        );
        content.push(Vec::new());
        proof {
            assert(lines_view(content@) =~= seq![
                "This is the scratch buffer"@,
                "This buffer isn't connected to a file, so nothing in here is saved."@,
                "It's meant to be used to play around, sketch, and try new plugins."@,
                Seq::<char>::empty(),
            ]);
        }

        Buffer {
            title: crate::text::str_to_line("*Scratch*"),
            content,
            path: None,
            kind: BufferKind::Normal,
            cursor: Cursor::default(),
            viewport: Viewport::new(height - 2),
            mode: Mode::Normal,
            state: BufferState::scratch(),
            command_line: CommandLine::default(),
            visual_start: None,
        }
    }

    /// The buffer list: a locked buffer whose lines name the open
    /// buffers; choosing one switches to it.
    pub fn buffer_list(height: usize) -> (r: Buffer)
        requires
            height >= 2,
        ensures
            r.title@ == "*Buffers*"@,
            r.path is None,
            r.kind == BufferKind::BufferList,
            r.state == (BufferState { killable: false, mutable: false }),
            r.mode == Mode::Normal,
            r.cursor == (Cursor { x: 0, y: 0, desired_x: 0 }),
            r.viewport.top == 0,
            r.viewport.height == height - 2,
            r.visual_start is None,
            r.lines() == seq![Seq::<char>::empty()],
            r.wf(),
    {
        let mut content: Vec<Vec<char>> = Vec::new();
        content.push(Vec::new());
        proof {
            assert(lines_view(content@) =~= seq![Seq::<char>::empty()]);
        }

        Buffer {
            title: crate::text::str_to_line("*Buffers*"),
            content,
            path: None,
            kind: BufferKind::BufferList,
            cursor: Cursor::default(),
            viewport: Viewport::new(height - 2),
            mode: Mode::Normal,
            state: BufferState::locked(),
            command_line: CommandLine::default(),
            visual_start: None,
        }
    }

    /// Replaces the whole content with freshly loaded lines, as after
    /// reading a file; the cursor returns to the top.
    pub fn load_file(&mut self, title: Vec<char>, lines: Vec<Vec<char>>, path: Vec<char>)
        ensures
            final(self).title == title,
            final(self).path == Some(path),
            lines@.len() == 0 ==> final(self).lines() == seq![Seq::<char>::empty()],
            lines@.len() > 0 ==> final(self).content == lines,
            final(self).cursor == (Cursor { x: 0, y: 0, desired_x: 0 }),
            final(self).mode == old(self).mode,
            final(self).state == old(self).state,
            final(self).kind == old(self).kind,
            final(self).viewport == old(self).viewport,
            final(self).command_line == old(self).command_line,
            final(self).visual_start == old(self).visual_start,
            old(self).command_line.wf() ==> final(self).wf(),
    {
        let lines = if lines.is_empty() {
            let mut one: Vec<Vec<char>> = Vec::new();
            one.push(Vec::new());
            proof {
                assert(lines_view(one@) =~= seq![Seq::<char>::empty()]);
            }
            one
        } else {
            lines
        };
        self.title = title;
        self.content = lines;
        self.path = Some(path);
        self.cursor = Cursor::default();
    }

    /// Switches the modal state.  Leaving visual mode discards the
    /// anchor and leaving command mode resets the command line; entering
    /// a mode seeds whatever it needs.  Entering insert mode on a locked
    /// buffer is refused and changes nothing at all.
    pub fn switch_mode(&mut self, mode: ModeParams)
        requires
            old(self).wf(),
            mode matches ModeParams::Command { prefix, input } ==> prefix@.len() + input@.len()
                <= usize::MAX,
        ensures
            final(self).wf(),
            mode_switched(*old(self), *final(self), mode),
    {
        // a rejected insert entry is a complete no-op: not even the
        // leave-mode cleanup below may run
        match &mode {
            ModeParams::Insert { .. } => {
                if !self.state.mutable {
                    return ;
                }
            },
            _ => {},
        }

        match self.mode {
            Mode::Visual => {
                self.visual_start = None;
            },
            Mode::Command => {
                self.command_line.prefix = Vec::new();
                self.command_line.input = Vec::new();
                self.command_line.cursor = Cursor::default();
            },
            _ => {},
        }

        match mode {
            ModeParams::Visual => {
                self.visual_start = Some(self.cursor);
                self.mode = Mode::Visual;
            },
            ModeParams::Command { prefix, input } => {
                let end: usize = prefix.len() + input.len();
                self.command_line.prefix = prefix;
                self.command_line.input = input;
                self.command_line.cursor = Cursor { x: end, y: 0, desired_x: 0 };
                self.mode = Mode::Command;
            },
            ModeParams::Insert { insert_direction } => {
                match insert_direction {
                    InsertDirection::Beginning => {
                        let idx = first_non_blank(&self.content[self.cursor.y], 0);
                        if idx < self.content[self.cursor.y].len() {
                            self.cursor.x = idx;
                        }
                    },
                    InsertDirection::Before => {},
                    InsertDirection::After => {
                        if self.content[self.cursor.y].len() > self.cursor.x {
                            self.cursor.x = self.cursor.x + 1;
                        }
                    },
                    InsertDirection::End => {
                        self.cursor.x = self.content[self.cursor.y].len();
                    },
                }

                self.mode = Mode::Insert;
            },
            ModeParams::Normal => {
                self.mode = Mode::Normal;
            },
            ModeParams::Minibuffer => {
                self.mode = Mode::Minibuffer;
            },
        }
    }

    /// The command currently typed in the command line.
    pub fn get_command(&self) -> (r: &Vec<char>)
        ensures
            r@ == self.command_line.input@,
    {
        &self.command_line.input
    }
}

} // verus!
