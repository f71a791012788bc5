//! The closed set of editor actions and the parameter types they carry.
//!
//! Key handling resolves every key press to one of these values; the
//! dispatcher routes each to the component it concerns.

use vstd::prelude::*;

verus! {

use crate::buffer::buffer::{mode_switched, Mode};
use crate::buffer::manipulation::{
    char_added,
    char_removed,
    line_deleted,
    line_opened,
    mb_char_added,
    mb_char_removed,
    tab_added,
};
use crate::buffer::minibuffer::candidate_appended;
use crate::buffer::navigation::mb_cursor_moved;
use crate::buffer::minibuffer::{MinibufferKind, PathKind};
use crate::buffer::navigation::{cursor_at_bottom, cursor_at_top, cursor_moved};
use crate::editor::editor::Editor;
use crate::error::OxideError;
use crate::text::{clone_line, clone_lines, join_lines, join_lines_spec, lines_view};

/// The target of a mode switch, with the data the new mode needs.
#[derive(Debug, PartialEq, Eq, Hash, Clone)]
pub enum ModeParams {
    Normal,
    Insert { insert_direction: InsertDirection },
    Visual,
    Command { prefix: Vec<char>, input: Vec<char> },
    Minibuffer,
}

/// Where a fresh line goes relative to the current one.
#[derive(Debug, PartialEq, Eq, Hash, Clone, Copy, Structural)]
pub enum NewLineDirection {
    Under,
    Over,
}

/// Where the cursor lands when entering insert mode.
#[derive(Debug, PartialEq, Eq, Hash, Clone, Copy, Structural)]
pub enum InsertDirection {
    Beginning,
    Before,
    After,
    End,
}

#[derive(Debug, PartialEq, Eq, Clone, Copy)]
pub struct MoveCursorAction {
    pub x: i32,
    pub y: i32,
}

impl MoveCursorAction {
    pub fn new(x: i32, y: i32) -> (r: MoveCursorAction)
        ensures
            r.x == x,
            r.y == y,
    {
        MoveCursorAction { x, y }
    }
}

#[derive(Debug, PartialEq, Eq, Clone)]
pub struct SwitchModeAction {
    pub params: ModeParams,
}

impl SwitchModeAction {
    pub fn new(params: ModeParams) -> (r: SwitchModeAction)
        ensures
            r.params == params,
    {
        SwitchModeAction { params }
    }
}

#[derive(Debug, PartialEq, Eq, Clone, Copy)]
pub struct AddCharAction {
    pub character: char,
}

impl AddCharAction {
    pub fn new(character: char) -> (r: AddCharAction)
        ensures
            r.character == character,
    {
        AddCharAction { character }
    }
}

#[derive(Debug, PartialEq, Eq, Clone, Copy)]
pub struct AddTabAction;

#[derive(Debug, PartialEq, Eq, Clone, Copy)]
pub struct NewLineAction {
    pub direction: NewLineDirection,
}

impl NewLineAction {
    pub fn new(direction: NewLineDirection) -> (r: NewLineAction)
        ensures
            r.direction == direction,
    {
        NewLineAction { direction }
    }
}

#[derive(Debug, PartialEq, Eq, Clone, Copy)]
pub struct DeleteLineAction;

#[derive(Debug, PartialEq, Eq, Clone, Copy)]
pub struct TopOfBufferAction;

#[derive(Debug, PartialEq, Eq, Clone, Copy)]
pub struct BotOfBufferAction;

#[derive(Debug, PartialEq, Eq, Clone, Copy)]
pub struct QuitAction;

#[derive(Debug, PartialEq, Eq, Clone, Copy)]
pub struct DeleteCharAction;

#[derive(Debug, PartialEq, Eq, Clone, Copy)]
pub struct WriteBufferAction;

#[derive(Debug, PartialEq, Eq, Clone, Copy)]
pub struct ExecuteCommandAction;

#[derive(Debug, PartialEq, Eq, Clone)]
pub struct OpenFileAction {
    pub path: Vec<Vec<char>>,
}

impl OpenFileAction {
    /// The path is a list of components, the root directory written `/`.
    pub fn new(path: Vec<Vec<char>>) -> (r: OpenFileAction)
        ensures
            r.path == path,
    {
        OpenFileAction { path }
    }
}

#[derive(Debug, PartialEq, Eq, Clone)]
pub struct MinibufferAction {
    pub kind: crate::buffer::minibuffer::MinibufferKind,
}

impl MinibufferAction {
    pub fn new(kind: crate::buffer::minibuffer::MinibufferKind) -> (r: MinibufferAction)
        ensures
            r.kind == kind,
    {
        MinibufferAction { kind }
    }
}

#[derive(Debug, PartialEq, Eq, Clone, Copy)]
pub struct AppendAction;

#[derive(Debug, PartialEq, Eq, Clone, Copy)]
pub struct OpenBufferAction {
    pub index: usize,
}

impl OpenBufferAction {
    pub fn new(index: usize) -> (r: OpenBufferAction)
        ensures
            r.index == index,
    {
        OpenBufferAction { index }
    }
}

#[derive(Debug, PartialEq, Eq, Clone, Copy)]
pub struct EscapeAction;

#[derive(Debug, PartialEq, Eq, Clone, Copy)]
pub struct AddMbCharAction {
    pub character: char,
}

impl AddMbCharAction {
    pub fn new(character: char) -> (r: AddMbCharAction)
        ensures
            r.character == character,
    {
        AddMbCharAction { character }
    }
}

#[derive(Debug, PartialEq, Eq, Clone, Copy)]
pub struct DeleteMbCharAction;

#[derive(Debug, PartialEq, Eq, Clone, Copy)]
pub struct ExecuteMbCommandAction;

#[derive(Debug, PartialEq, Eq, Clone, Copy)]
pub struct MoveMbCursorAction {
    pub x: i32,
    pub y: i32,
}

impl MoveMbCursorAction {
    pub fn new(x: i32, y: i32) -> (r: MoveMbCursorAction)
        ensures
            r.x == x,
            r.y == y,
    {
        MoveMbCursorAction { x, y }
    }
}

/// Every action the editor can perform, as one closed sum: the binding
/// table stores these and the dispatcher matches on them.
#[derive(Debug, PartialEq, Eq, Clone)]
pub enum Action {
    MoveCursor(MoveCursorAction),
    SwitchMode(SwitchModeAction),
    AddChar(AddCharAction),
    AddTab(AddTabAction),
    NewLine(NewLineAction),
    DeleteLine(DeleteLineAction),
    TopOfBuffer(TopOfBufferAction),
    BotOfBuffer(BotOfBufferAction),
    Quit(QuitAction),
    DeleteChar(DeleteCharAction),
    WriteBuffer(WriteBufferAction),
    ExecuteCommand(ExecuteCommandAction),
    OpenFile(OpenFileAction),
    Minibuffer(MinibufferAction),
    Append(AppendAction),
    OpenBuffer(OpenBufferAction),
    Escape(EscapeAction),
    AddMbChar(AddMbCharAction),
    DeleteMbChar(DeleteMbCharAction),
    ExecuteMbCommand(ExecuteMbCommandAction),
    MoveMbCursor(MoveMbCursorAction),
}


/// What the surrounding program must write to disk on the editor's
/// behalf: the file the buffer came from and its joined content.
#[derive(Debug, PartialEq, Eq, Clone)]
pub struct SaveRequest {
    pub path: Vec<char>,
    pub content: Vec<char>,
}

/// A copy of a mode-switch parameter, equal up to the identity of the
/// heap buffers its payloads live in.
fn clone_mode_params(p: &ModeParams) -> (r: ModeParams)
    ensures
        p matches ModeParams::Normal ==> r == ModeParams::Normal,
        p matches ModeParams::Visual ==> r == ModeParams::Visual,
        p matches ModeParams::Minibuffer ==> r == ModeParams::Minibuffer,
        p matches ModeParams::Insert { insert_direction: d } ==> (r matches ModeParams::Insert {
            insert_direction: d2,
        } && d2 == d),
        p matches ModeParams::Command { prefix, input } ==> (r matches ModeParams::Command {
            prefix: p2,
            input: i2,
        } && p2@ == prefix@ && i2@ == input@),
{
    match p {
        ModeParams::Normal => ModeParams::Normal,
        ModeParams::Visual => ModeParams::Visual,
        ModeParams::Minibuffer => ModeParams::Minibuffer,
        ModeParams::Insert { insert_direction } => ModeParams::Insert {
            insert_direction: *insert_direction,
        },
        ModeParams::Command { prefix, input } => ModeParams::Command {
            prefix: clone_line(prefix),
            input: clone_line(input),
        },
    }
}

impl MoveCursorAction {
    /// Moves the cursor of the active buffer.
    pub fn execute(&self, editor: &mut Editor) -> (r: Result<(), OxideError>)
        requires
            old(editor).wf(),
        ensures
            final(editor).wf(),
            final(editor).is_running == old(editor).is_running,
            final(editor).minibuffer == old(editor).minibuffer,
            final(editor).buffer_manager.active_buffer == old(editor).buffer_manager.active_buffer,
            final(editor).buffer_manager.buffers@.len() == old(editor).buffer_manager.buffers@.len(),
            forall|j: int|
                0 <= j < old(editor).buffer_manager.buffers@.len() && j != old(editor).buffer_manager.active_buffer ==> final(editor).buffer_manager.buffers@[j] == old(editor).buffer_manager.buffers@[j],
            r is Ok,
            ({
                let at = old(editor).buffer_manager.active_buffer as int;
                let oldb = old(editor).buffer_manager.buffers@[at];
                let newb = final(editor).buffer_manager.buffers@[at];
                cursor_moved(oldb, newb, self.x, self.y)
            }),
    {
        match editor.buffer_manager.get_active_buffer_mut() {
            Ok(buffer) => {
                buffer.move_cursor(self.x, self.y);
                Ok(())
            },
            Err(e) => Err(e),
        }
    }
}

impl SwitchModeAction {
    /// Switches the mode of the active buffer.
    pub fn execute(&self, editor: &mut Editor) -> (r: Result<(), OxideError>)
        requires
            old(editor).wf(),
            self.params matches ModeParams::Command { prefix, input } ==> prefix@.len()
                + input@.len() <= usize::MAX,
        ensures
            final(editor).wf(),
            final(editor).is_running == old(editor).is_running,
            final(editor).minibuffer == old(editor).minibuffer,
            final(editor).buffer_manager.active_buffer == old(editor).buffer_manager.active_buffer,
            final(editor).buffer_manager.buffers@.len() == old(editor).buffer_manager.buffers@.len(),
            forall|j: int|
                0 <= j < old(editor).buffer_manager.buffers@.len() && j != old(editor).buffer_manager.active_buffer ==> final(editor).buffer_manager.buffers@[j] == old(editor).buffer_manager.buffers@[j],
            r is Ok,
            ({
                let at = old(editor).buffer_manager.active_buffer as int;
                let oldb = old(editor).buffer_manager.buffers@[at];
                let newb = final(editor).buffer_manager.buffers@[at];
                !(self.params matches ModeParams::Command { .. }) ==> mode_switched(
                    oldb,
                    newb,
                    self.params,
                )
            }),
            ({
                let at = old(editor).buffer_manager.active_buffer as int;
                let oldb = old(editor).buffer_manager.buffers@[at];
                let newb = final(editor).buffer_manager.buffers@[at];
                self.params matches ModeParams::Command { prefix, input } ==> (newb.mode
                    == Mode::Command && newb.command_line.prefix@ == prefix@
                    && newb.command_line.input@ == input@ && newb.command_line.cursor.x
                    == prefix@.len() + input@.len() as int)
            }),
    {
        let params = clone_mode_params(&self.params);
        match editor.buffer_manager.get_active_buffer_mut() {
            Ok(buffer) => {
                buffer.switch_mode(params);
                Ok(())
            },
            Err(e) => Err(e),
        }
    }
}

impl AddCharAction {
    /// Types one character into the active buffer.
    pub fn execute(&self, editor: &mut Editor) -> (r: Result<(), OxideError>)
        requires
            old(editor).wf(),
            ({
                let bm = old(editor).buffer_manager;
                bm.buffers@[bm.active_buffer as int].mode == Mode::Insert
                    ==> bm.buffers@[bm.active_buffer as int].cur_line_len() < usize::MAX
            }),
            ({
                let bm = old(editor).buffer_manager;
                let b = bm.buffers@[bm.active_buffer as int];
                b.mode == Mode::Command ==> b.command_line.prefix@.len()
                    + b.command_line.input@.len() < usize::MAX
            }),
        ensures
            final(editor).wf(),
            final(editor).is_running == old(editor).is_running,
            final(editor).minibuffer == old(editor).minibuffer,
            final(editor).buffer_manager.active_buffer == old(editor).buffer_manager.active_buffer,
            final(editor).buffer_manager.buffers@.len() == old(editor).buffer_manager.buffers@.len(),
            forall|j: int|
                0 <= j < old(editor).buffer_manager.buffers@.len() && j != old(editor).buffer_manager.active_buffer ==> final(editor).buffer_manager.buffers@[j] == old(editor).buffer_manager.buffers@[j],
            ({
                let at = old(editor).buffer_manager.active_buffer as int;
                let oldb = old(editor).buffer_manager.buffers@[at];
                let newb = final(editor).buffer_manager.buffers@[at];
                match r {
                    Ok(u) => char_added(oldb, newb, self.character, Ok(u)),
                    Err(OxideError::BufferError(e)) => char_added(
                        oldb,
                        newb,
                        self.character,
                        Err(e),
                    ),
                    Err(OxideError::IndexError) => false,
                }
            }),
    {
        match editor.buffer_manager.get_active_buffer_mut() {
            Ok(buffer) => {
                match buffer.add_char(self.character) {
                    Ok(()) => Ok(()),
                    Err(e) => Err(OxideError::BufferError(e)),
                }
            },
            Err(e) => Err(e),
        }
    }
}

impl AddTabAction {
    /// Inserts spaces up to the next tab stop in the active buffer.
    pub fn execute(&self, editor: &mut Editor) -> (r: Result<(), OxideError>)
        requires
            old(editor).wf(),
            ({
                let bm = old(editor).buffer_manager;
                bm.buffers@[bm.active_buffer as int].mode == Mode::Insert
                    ==> bm.buffers@[bm.active_buffer as int].cur_line_len() <= usize::MAX - 4
            }),
            ({
                let bm = old(editor).buffer_manager;
                let b = bm.buffers@[bm.active_buffer as int];
                b.mode == Mode::Command ==> b.command_line.prefix@.len()
                    + b.command_line.input@.len() <= usize::MAX - 4
            }),
        ensures
            final(editor).wf(),
            final(editor).is_running == old(editor).is_running,
            final(editor).minibuffer == old(editor).minibuffer,
            final(editor).buffer_manager.active_buffer == old(editor).buffer_manager.active_buffer,
            final(editor).buffer_manager.buffers@.len() == old(editor).buffer_manager.buffers@.len(),
            ({
                let at = old(editor).buffer_manager.active_buffer as int;
                let oldb = old(editor).buffer_manager.buffers@[at];
                let newb = final(editor).buffer_manager.buffers@[at];
                match r {
                    Ok(u) => tab_added(oldb, newb, Ok(u)),
                    Err(OxideError::BufferError(e)) => tab_added(oldb, newb, Err(e)),
                    Err(OxideError::IndexError) => false,
                }
            }),
    {
        match editor.buffer_manager.get_active_buffer_mut() {
            Ok(buffer) => {
                match buffer.add_tab() {
                    Ok(()) => Ok(()),
                    Err(e) => Err(OxideError::BufferError(e)),
                }
            },
            Err(e) => Err(e),
        }
    }
}

impl NewLineAction {
    /// Breaks or opens a line in the active buffer.
    pub fn execute(&self, editor: &mut Editor) -> (r: Result<(), OxideError>)
        requires
            old(editor).wf(),
        ensures
            final(editor).wf(),
            final(editor).is_running == old(editor).is_running,
            final(editor).minibuffer == old(editor).minibuffer,
            final(editor).buffer_manager.active_buffer == old(editor).buffer_manager.active_buffer,
            final(editor).buffer_manager.buffers@.len() == old(editor).buffer_manager.buffers@.len(),
            r is Ok,
            ({
                let at = old(editor).buffer_manager.active_buffer as int;
                let oldb = old(editor).buffer_manager.buffers@[at];
                let newb = final(editor).buffer_manager.buffers@[at];
                line_opened(oldb, newb, self.direction)
            }),
    {
        match editor.buffer_manager.get_active_buffer_mut() {
            Ok(buffer) => {
                buffer.new_line(self.direction);
                Ok(())
            },
            Err(e) => Err(e),
        }
    }
}

impl DeleteLineAction {
    /// Deletes the active buffer's current line.
    pub fn execute(&self, editor: &mut Editor) -> (r: Result<(), OxideError>)
        requires
            old(editor).wf(),
        ensures
            final(editor).wf(),
            final(editor).is_running == old(editor).is_running,
            final(editor).minibuffer == old(editor).minibuffer,
            final(editor).buffer_manager.active_buffer == old(editor).buffer_manager.active_buffer,
            final(editor).buffer_manager.buffers@.len() == old(editor).buffer_manager.buffers@.len(),
            r is Ok,
            ({
                let at = old(editor).buffer_manager.active_buffer as int;
                let oldb = old(editor).buffer_manager.buffers@[at];
                let newb = final(editor).buffer_manager.buffers@[at];
                line_deleted(oldb, newb)
            }),
    {
        match editor.buffer_manager.get_active_buffer_mut() {
            Ok(buffer) => {
                buffer.delete_line();
                Ok(())
            },
            Err(e) => Err(e),
        }
    }
}

impl TopOfBufferAction {
    /// Jumps to the top of the active buffer.
    pub fn execute(&self, editor: &mut Editor) -> (r: Result<(), OxideError>)
        requires
            old(editor).wf(),
        ensures
            final(editor).wf(),
            final(editor).is_running == old(editor).is_running,
            final(editor).minibuffer == old(editor).minibuffer,
            final(editor).buffer_manager.active_buffer == old(editor).buffer_manager.active_buffer,
            final(editor).buffer_manager.buffers@.len() == old(editor).buffer_manager.buffers@.len(),
            r is Ok,
            ({
                let at = old(editor).buffer_manager.active_buffer as int;
                let oldb = old(editor).buffer_manager.buffers@[at];
                let newb = final(editor).buffer_manager.buffers@[at];
                cursor_at_top(oldb, newb)
            }),
    {
        match editor.buffer_manager.get_active_buffer_mut() {
            Ok(buffer) => {
                buffer.move_cursor_to_top();
                Ok(())
            },
            Err(e) => Err(e),
        }
    }
}

impl BotOfBufferAction {
    /// Jumps to the bottom of the active buffer.
    pub fn execute(&self, editor: &mut Editor) -> (r: Result<(), OxideError>)
        requires
            old(editor).wf(),
        ensures
            final(editor).wf(),
            final(editor).is_running == old(editor).is_running,
            final(editor).minibuffer == old(editor).minibuffer,
            final(editor).buffer_manager.active_buffer == old(editor).buffer_manager.active_buffer,
            final(editor).buffer_manager.buffers@.len() == old(editor).buffer_manager.buffers@.len(),
            r is Ok,
            ({
                let at = old(editor).buffer_manager.active_buffer as int;
                let oldb = old(editor).buffer_manager.buffers@[at];
                let newb = final(editor).buffer_manager.buffers@[at];
                cursor_at_bottom(oldb, newb)
            }),
    {
        match editor.buffer_manager.get_active_buffer_mut() {
            Ok(buffer) => {
                buffer.move_cursor_to_bot();
                Ok(())
            },
            Err(e) => Err(e),
        }
    }
}

impl QuitAction {
    /// Stops the editor loop.
    pub fn execute(&self, editor: &mut Editor) -> (r: Result<(), OxideError>)
        ensures
            final(editor).buffer_manager == old(editor).buffer_manager,
            final(editor).minibuffer == old(editor).minibuffer,
            !final(editor).is_running,
            r is Ok,
    {
        editor.is_running = false;
        Ok(())
    }
}

impl DeleteCharAction {
    /// Removes a character (or the visual selection) in the active
    /// buffer.
    pub fn execute(&self, editor: &mut Editor) -> (r: Result<(), OxideError>)
        requires
            old(editor).wf(),
        ensures
            final(editor).wf(),
            final(editor).is_running == old(editor).is_running,
            final(editor).minibuffer == old(editor).minibuffer,
            final(editor).buffer_manager.active_buffer == old(editor).buffer_manager.active_buffer,
            final(editor).buffer_manager.buffers@.len() == old(editor).buffer_manager.buffers@.len(),
            ({
                let at = old(editor).buffer_manager.active_buffer as int;
                let oldb = old(editor).buffer_manager.buffers@[at];
                let newb = final(editor).buffer_manager.buffers@[at];
                match r {
                    Ok(u) => char_removed(oldb, newb, Ok(u)),
                    Err(OxideError::BufferError(e)) => char_removed(oldb, newb, Err(e)),
                    Err(OxideError::IndexError) => false,
                }
            }),
    {
        match editor.buffer_manager.get_active_buffer_mut() {
            Ok(buffer) => {
                match buffer.remove_char() {
                    Ok(()) => Ok(()),
                    Err(e) => Err(OxideError::BufferError(e)),
                }
            },
            Err(e) => Err(e),
        }
    }
}

impl WriteBufferAction {
    /// Prepares the active buffer for saving: the caller performs the
    /// write.  A locked buffer refuses; a buffer with no file is a
    /// silent no-op.
    pub fn execute(&self, editor: &mut Editor) -> (r: Result<
        Option<SaveRequest>,
        OxideError,
    >)
        requires
            old(editor).wf(),
        ensures
            final(editor).wf(),
            *final(editor) == *old(editor),
            ({
                let bm = old(editor).buffer_manager;
                let b = bm.buffers@[bm.active_buffer as int];
                &&& !b.state.mutable ==> r == Err::<Option<SaveRequest>, OxideError>(
                    OxideError::BufferError(crate::buffer::error::Error::FileNotFoundError),
                )
                &&& b.state.mutable && b.path is None ==> r == Ok::<
                    Option<SaveRequest>,
                    OxideError,
                >(None)
                &&& b.path matches Some(p) ==> (b.state.mutable ==> (r matches Ok(Some(req))
                    && req.path@ == p@ && req.content@ == join_lines_spec(b.lines())))
            }),
    {
        let bm = &editor.buffer_manager;
        let b = &bm.buffers[bm.active_buffer];
        if !b.state.mutable {
            return Err(OxideError::BufferError(crate::buffer::error::Error::FileNotFoundError));
        }
        match &b.path {
            Some(path) => {
                let content = join_lines(&b.content);
                Ok(Some(SaveRequest { path: clone_line(path), content }))
            },
            None => Ok(None),
        }
    }
}

impl ExecuteCommandAction {
    /// Runs the typed command: `w` asks the caller to save, `q` stops
    /// the loop, `wq` does both; the buffer then returns to normal
    /// mode.  A failing write aborts the command.
    pub fn execute(&self, editor: &mut Editor) -> (r: Result<
        Option<SaveRequest>,
        OxideError,
    >)
        requires
            old(editor).wf(),
        ensures
            final(editor).wf(),
            final(editor).minibuffer == old(editor).minibuffer,
            final(editor).buffer_manager.active_buffer == old(editor).buffer_manager.active_buffer,
            final(editor).buffer_manager.buffers@.len() == old(editor).buffer_manager.buffers@.len(),
            ({
                let bm = old(editor).buffer_manager;
                let b = bm.buffers@[bm.active_buffer as int];
                let inp = b.command_line.input@;
                let wants_write = inp == "wq"@ || inp == "w"@;
                let wants_quit = inp == "wq"@ || inp == "q"@;
                &&& r is Ok <==> (!wants_write || b.state.mutable)
                &&& r is Ok ==> final(editor).buffer_manager.buffers@[bm.active_buffer as int].mode
                    == Mode::Normal
                &&& r is Ok ==> final(editor).is_running == (old(editor).is_running && !wants_quit)
                &&& !wants_write ==> !(r matches Ok(Some(_)))
                &&& wants_write && b.state.mutable && b.path is None ==> r == Ok::<
                    Option<SaveRequest>,
                    OxideError,
                >(None)
                &&& b.path matches Some(p) ==> (wants_write && b.state.mutable ==> (r matches Ok(
                    Some(req),
                ) && req.path@ == p@ && req.content@ == join_lines_spec(b.lines())))
            }),
    {
        let commands = crate::keybinding::keybinding::CommandParser::parse(
            &editor.buffer_manager.buffers[editor.buffer_manager.active_buffer].command_line.input,
        );
        let mut pending: Option<SaveRequest> = None;
        if commands.len() >= 1 {
            match &commands[0] {
                Action::WriteBuffer(a) => {
                    match a.execute(editor) {
                        Ok(req) => {
                            pending = req;
                        },
                        Err(e) => {
                            return Err(e);
                        },
                    }
                },
                Action::Quit(a) => {
                    match a.execute(editor) {
                        Ok(()) => {},
                        Err(e) => {
                            return Err(e);
                        },
                    }
                },
                _ => {},
            }
        }
        if commands.len() >= 2 {
            match &commands[1] {
                Action::WriteBuffer(a) => {
                    match a.execute(editor) {
                        Ok(req) => {
                            pending = req;
                        },
                        Err(e) => {
                            return Err(e);
                        },
                    }
                },
                Action::Quit(a) => {
                    match a.execute(editor) {
                        Ok(()) => {},
                        Err(e) => {
                            return Err(e);
                        },
                    }
                },
                _ => {},
            }
        }
        match editor.buffer_manager.get_active_buffer_mut() {
            Ok(buffer) => {
                buffer.switch_mode(ModeParams::Normal);
            },
            Err(e) => {
                return Err(e);
            },
        }
        Ok(pending)
    }
}


impl MinibufferAction {
    /// Puts the active buffer into minibuffer mode and aims the
    /// minibuffer at this action's kind; for a buffer search the open
    /// buffers' titles are gathered as the candidates' source.  The
    /// caller then lists the directory (for a path) and fills.
    #[verifier::loop_isolation(false)]
    pub fn execute(&self, editor: &mut Editor) -> (r: Result<(), OxideError>)
        requires
            old(editor).wf(),
        ensures
            final(editor).wf(),
            final(editor).is_running == old(editor).is_running,
            final(editor).buffer_manager.active_buffer == old(editor).buffer_manager.active_buffer,
            final(editor).buffer_manager.buffers@.len() == old(editor).buffer_manager.buffers@.len(),
            final(editor).buffer_manager.buffers@[old(editor).buffer_manager.active_buffer as int].mode
                == Mode::Minibuffer,
            r is Ok,
            self.kind matches MinibufferKind::Buffer(_) ==> (final(editor).minibuffer.kind matches
                MinibufferKind::Buffer(ts) && lines_view(ts@) == Seq::new(
                old(editor).buffer_manager.buffers@.len(),
                |i: int| old(editor).buffer_manager.buffers@[i].title@,
            )),
            self.kind matches MinibufferKind::File(p) ==> (final(editor).minibuffer.kind matches
                MinibufferKind::File(q) && lines_view(q@) == lines_view(p@)),
            self.kind matches MinibufferKind::Nop ==> final(editor).minibuffer.kind
                == MinibufferKind::Nop,
    {
        match editor.buffer_manager.get_active_buffer_mut() {
            Ok(buffer) => {
                buffer.switch_mode(ModeParams::Minibuffer);
            },
            Err(e) => {
                return Err(e);
            },
        }

        match &self.kind {
            MinibufferKind::Buffer(_) => {
                let mut titles: Vec<Vec<char>> = Vec::new();
                let mut i: usize = 0;
                while i < editor.buffer_manager.buffers.len()
                    invariant
                        i <= editor.buffer_manager.buffers@.len(),
                        titles@.len() == i,
                        forall|j: int|
                            0 <= j < i ==> titles@[j]@ == editor.buffer_manager.buffers@[j].title@,
                    decreases editor.buffer_manager.buffers@.len() - i,
                {
                    titles.push(clone_line(&editor.buffer_manager.buffers[i].title));
                    i += 1;
                }
                proof {
                    assert forall|j: int|
                        0 <= j < editor.buffer_manager.buffers@.len() implies (
                    #[trigger] editor.buffer_manager.buffers@[j]).title@ == old(
                        editor,
                    ).buffer_manager.buffers@[j].title@ by {}
                    assert(lines_view(titles@) =~= Seq::new(
                        old(editor).buffer_manager.buffers@.len(),
                        |i: int| old(editor).buffer_manager.buffers@[i].title@,
                    ));
                }
                editor.minibuffer.kind = MinibufferKind::Buffer(titles);
            },
            MinibufferKind::File(p) => {
                editor.minibuffer.kind = MinibufferKind::File(clone_lines(p));
            },
            MinibufferKind::Nop => {
                editor.minibuffer.kind = MinibufferKind::Nop;
            },
        }

        Ok(())
    }
}

impl AppendAction {
    /// Copies the highlighted minibuffer candidate into its input,
    /// given what the file system says of that candidate; the caller
    /// refills the candidates afterwards.
    pub fn execute(&self, editor: &mut Editor, candidate: PathKind) -> (r: Result<(), OxideError>)
        requires
            old(editor).wf(),
        ensures
            final(editor).wf(),
            final(editor).is_running == old(editor).is_running,
            final(editor).buffer_manager == old(editor).buffer_manager,
            ({
                match r {
                    Ok(u) => candidate_appended(
                        old(editor).minibuffer,
                        final(editor).minibuffer,
                        candidate,
                        Ok(u),
                    ),
                    Err(OxideError::BufferError(e)) => candidate_appended(
                        old(editor).minibuffer,
                        final(editor).minibuffer,
                        candidate,
                        Err(e),
                    ),
                    Err(OxideError::IndexError) => false,
                }
            }),
    {
        match editor.minibuffer.append(candidate) {
            Ok(()) => Ok(()),
            Err(e) => Err(OxideError::BufferError(e)),
        }
    }
}

impl OpenBufferAction {
    /// Shows the buffer at this action's index, if there is one.
    pub fn execute(&self, editor: &mut Editor) -> (r: Result<(), OxideError>)
        requires
            old(editor).wf(),
        ensures
            final(editor).wf(),
            final(editor).is_running == old(editor).is_running,
            final(editor).minibuffer == old(editor).minibuffer,
            final(editor).buffer_manager.buffers == old(editor).buffer_manager.buffers,
            self.index < old(editor).buffer_manager.buffers@.len() ==> r is Ok && final(editor).buffer_manager.active_buffer == self.index,
            self.index >= old(editor).buffer_manager.buffers@.len() ==> r == Err::<(), OxideError>(
                OxideError::IndexError,
            ) && *final(editor) == *old(editor),
    {
        if self.index < editor.buffer_manager.buffers.len() {
            editor.buffer_manager.active_buffer = self.index;
            Ok(())
        } else {
            Err(OxideError::IndexError)
        }
    }
}

impl EscapeAction {
    /// Abandons the minibuffer and returns the active buffer to normal
    /// mode.
    pub fn execute(&self, editor: &mut Editor) -> (r: Result<(), OxideError>)
        requires
            old(editor).wf(),
        ensures
            final(editor).wf(),
            final(editor).is_running == old(editor).is_running,
            final(editor).minibuffer.kind == MinibufferKind::Nop,
            final(editor).minibuffer.input@ == Seq::<char>::empty(),
            final(editor).minibuffer.matched_input@ == Seq::<Vec<char>>::empty(),
            final(editor).buffer_manager.active_buffer == old(editor).buffer_manager.active_buffer,
            final(editor).buffer_manager.buffers@.len() == old(editor).buffer_manager.buffers@.len(),
            final(editor).buffer_manager.buffers@[old(editor).buffer_manager.active_buffer as int].mode
                == Mode::Normal,
            r is Ok,
    {
        editor.minibuffer = crate::buffer::minibuffer::Minibuffer::default();
        match editor.buffer_manager.get_active_buffer_mut() {
            Ok(buffer) => {
                buffer.switch_mode(ModeParams::Normal);
                Ok(())
            },
            Err(e) => Err(e),
        }
    }
}

impl AddMbCharAction {
    /// Types one character into the minibuffer; the caller refills the
    /// candidates afterwards.
    pub fn execute(&self, editor: &mut Editor) -> (r: Result<(), OxideError>)
        requires
            old(editor).wf(),
            old(editor).minibuffer.matched_input@.len() + old(editor).minibuffer.input@.len()
                < usize::MAX,
        ensures
            final(editor).wf(),
            final(editor).is_running == old(editor).is_running,
            final(editor).buffer_manager == old(editor).buffer_manager,
            r is Ok,
            mb_char_added(
                old(editor).minibuffer,
                final(editor).minibuffer,
                self.character,
                Ok(()),
            ),
    {
        match editor.minibuffer.add_char(self.character) {
            Ok(()) => Ok(()),
            Err(e) => Err(OxideError::BufferError(e)),
        }
    }
}

impl DeleteMbCharAction {
    /// Removes a character (or steps up a directory) in the minibuffer;
    /// the caller refills the candidates afterwards.
    pub fn execute(&self, editor: &mut Editor) -> (r: Result<(), OxideError>)
        requires
            old(editor).wf(),
        ensures
            final(editor).wf(),
            final(editor).is_running == old(editor).is_running,
            final(editor).buffer_manager == old(editor).buffer_manager,
            r is Ok,
            mb_char_removed(old(editor).minibuffer, final(editor).minibuffer, Ok(())),
    {
        match editor.minibuffer.remove_char() {
            Ok(()) => Ok(()),
            Err(e) => Err(OxideError::BufferError(e)),
        }
    }
}

impl MoveMbCursorAction {
    /// Moves the minibuffer cursor; the caller refills the candidates
    /// afterwards.
    pub fn execute(&self, editor: &mut Editor) -> (r: Result<(), OxideError>)
        requires
            old(editor).wf(),
        ensures
            final(editor).wf(),
            final(editor).is_running == old(editor).is_running,
            final(editor).buffer_manager == old(editor).buffer_manager,
            r is Ok,
            mb_cursor_moved(old(editor).minibuffer, final(editor).minibuffer, self.x, self.y),
    {
        editor.minibuffer.move_cursor(self.x, self.y);
        Ok(())
    }
}

impl ExecuteMbCommandAction {
    /// Resolves the minibuffer, given what the file system says about
    /// its accumulated path.  Choosing an open buffer switches to it at
    /// once; choosing a file is handed back for the caller to load.
    /// Either way the minibuffer closes and the buffer returns to
    /// normal mode; a failed resolution leaves everything as it was.
    pub fn execute(&self, editor: &mut Editor, path_kind: PathKind) -> (r: Result<
        Option<OpenFileAction>,
        OxideError,
    >)
        requires
            old(editor).wf(),
        ensures
            final(editor).wf(),
            final(editor).is_running == old(editor).is_running,
            final(editor).buffer_manager.buffers@.len() == old(editor).buffer_manager.buffers@.len(),
            r is Err ==> *final(editor) == *old(editor),
            r is Ok ==> final(editor).minibuffer.kind == MinibufferKind::Nop || final(editor).minibuffer == old(editor).minibuffer,
            old(editor).minibuffer.kind matches MinibufferKind::File(p) ==> {
                &&& path_kind == PathKind::IsFile ==> (r matches Ok(Some(a)) && lines_view(a.path@)
                    == lines_view(p@))
                &&& path_kind == PathKind::IsDirectory ==> r == Ok::<
                    Option<OpenFileAction>,
                    OxideError,
                >(None) && *final(editor) == *old(editor)
                &&& path_kind == PathKind::Missing ==> r == Err::<
                    Option<OpenFileAction>,
                    OxideError,
                >(OxideError::BufferError(crate::buffer::error::Error::InvalidPathError))
            },
            old(editor).minibuffer.kind matches MinibufferKind::Buffer(titles) ==> ({
                let mb = old(editor).minibuffer;
                let item = if mb.content@.len() > 1 {
                    if mb.cursor.y < mb.content@.len() {
                        mb.content@[mb.cursor.y as int]@
                    } else {
                        Seq::<char>::empty()
                    }
                } else {
                    mb.input@
                };
                let idx = crate::buffer::minibuffer::first_title_containing(titles@, item, 0);
                &&& idx == titles@.len() ==> r == Err::<Option<OpenFileAction>, OxideError>(
                    OxideError::BufferError(crate::buffer::error::Error::NoMatchError),
                )
                &&& idx < titles@.len() && idx < old(editor).buffer_manager.buffers@.len() ==> {
                    &&& r == Ok::<Option<OpenFileAction>, OxideError>(None)
                    &&& final(editor).buffer_manager.active_buffer == idx
                    &&& final(editor).minibuffer.kind == MinibufferKind::Nop
                    &&& final(editor).minibuffer.input@ == Seq::<char>::empty()
                    &&& final(editor).minibuffer.matched_input@ == Seq::<Vec<char>>::empty()
                    &&& final(editor).buffer_manager.buffers@[idx].mode == Mode::Normal
                    &&& forall|j: int|
                        0 <= j < old(editor).buffer_manager.buffers@.len() && j != idx
                            ==> final(editor).buffer_manager.buffers@[j] == old(
                            editor,
                        ).buffer_manager.buffers@[j]
                }
                &&& idx < titles@.len() && idx >= old(editor).buffer_manager.buffers@.len() ==> r
                    == Err::<Option<OpenFileAction>, OxideError>(OxideError::IndexError)
            }),
    {
        proof {
            let mb = old(editor).minibuffer;
            if mb.kind is Buffer {
                let titles = mb.kind->Buffer_0;
                let item = if mb.content@.len() > 1 {
                    if mb.cursor.y < mb.content@.len() {
                        mb.content@[mb.cursor.y as int]@
                    } else {
                        Seq::<char>::empty()
                    }
                } else {
                    mb.input@
                };
                crate::buffer::minibuffer::lemma_first_title_bounds(titles@, item, 0);
                vstd::std_specs::vec::axiom_spec_len(&titles);
            }
        }
        let outcome = editor.minibuffer.execute(path_kind);
        match outcome {
            Err(e) => Err(OxideError::BufferError(e)),
            Ok(None) => Ok(None),
            Ok(Some(action)) => {
                match action {
                    Action::OpenBuffer(ob) => {
                        match ob.execute(editor) {
                            Ok(()) => {},
                            Err(e) => {
                                return Err(e);
                            },
                        }
                        editor.minibuffer = crate::buffer::minibuffer::Minibuffer::default();
                        match editor.buffer_manager.get_active_buffer_mut() {
                            Ok(buffer) => {
                                buffer.switch_mode(ModeParams::Normal);
                            },
                            Err(e) => {
                                return Err(e);
                            },
                        }
                        Ok(None)
                    },
                    Action::OpenFile(of) => {
                        editor.minibuffer = crate::buffer::minibuffer::Minibuffer::default();
                        match editor.buffer_manager.get_active_buffer_mut() {
                            Ok(buffer) => {
                                buffer.switch_mode(ModeParams::Normal);
                            },
                            Err(e) => {
                                return Err(e);
                            },
                        }
                        Ok(Some(of))
                    },
                    _ => Ok(None),
                }
            },
        }
    }
}

} // verus!
