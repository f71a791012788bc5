//! The editing operations: inserting and removing characters, splitting
//! and joining lines, deleting lines and visual selections.

use vstd::prelude::*;

verus! {

use crate::buffer::buffer::{Buffer, CommandLine, Cursor, Mode};
use crate::buffer::error::Error;
use crate::buffer::minibuffer::{Minibuffer, MinibufferKind};
use crate::keybinding::actions::{ModeParams, NewLineDirection};

/// `n` spaces.
pub open spec fn spaces_seq(n: int) -> Seq<char> {
    Seq::new(n as nat, |i: int| ' ')
}

/// The number of spaces a tab inserts at column `x`: up to the next
/// multiple of four, at least one.
pub open spec fn tab_spaces(x: int) -> int {
    4 - (x % 4)
}

/// The earlier end of a visual selection, ordered by row and then
/// column.
pub open spec fn sel_top(anchor: Cursor, cursor: Cursor) -> Cursor {
    if anchor.y < cursor.y || (anchor.y == cursor.y && anchor.x <= cursor.x) {
        anchor
    } else {
        cursor
    }
}

/// The later end of a visual selection.
pub open spec fn sel_bottom(anchor: Cursor, cursor: Cursor) -> Cursor {
    if anchor.y < cursor.y || (anchor.y == cursor.y && anchor.x <= cursor.x) {
        cursor
    } else {
        anchor
    }
}

/// The content after deleting the inclusive visual selection from `top`
/// to `bottom`.
///
/// A selection within one line removes the columns `[top.x, bottom.x]`;
/// if that consumes the whole line, the line itself goes (unless it is
/// the only one, which is instead blanked).  A selection across lines
/// collapses the selected range to a single line: the untouched prefix
/// of the first line followed by the untouched suffix of the last.
pub open spec fn visual_lines_after(lines: Seq<Seq<char>>, top: Cursor, bottom: Cursor) -> Seq<
    Seq<char>,
> {
    if top.y == bottom.y {
        let line = lines[top.y as int];
        let n = line.len() as int;
        if top.x == 0 && bottom.x + 1 >= n {
            if lines.len() > 1 {
                lines.remove(top.y as int)
            } else {
                seq![Seq::<char>::empty()]
            }
        } else {
            let tx = if top.x <= n {
                top.x as int
            } else {
                n
            };
            let sx = if bottom.x + 1 <= n {
                bottom.x + 1
            } else {
                n
            };
            lines.update(top.y as int, line.take(tx) + line.skip(sx))
        }
    } else {
        let first = lines[top.y as int];
        let last = lines[bottom.y as int];
        let tx = if top.x <= first.len() {
            top.x as int
        } else {
            first.len() as int
        };
        let sx = if bottom.x + 1 <= last.len() {
            bottom.x + 1
        } else {
            last.len() as int
        };
        lines.take(top.y as int).push(first.take(tx) + last.skip(sx)) + lines.skip(
            bottom.y as int + 1,
        )
    }
}

/// What `Buffer::add_char` leaves behind: the character lands at the
/// cursor in insert mode, in the command line in command mode; any
/// other mode refuses and changes nothing.
pub open spec fn char_added(pre: Buffer, post: Buffer, character: char, r: Result<(), Error>) -> bool {
    &&& (post.title == pre.title)
    &&& (post.path == pre.path)
    &&& (post.kind == pre.kind)
    &&& (post.state == pre.state)
    &&& (post.mode == pre.mode)
    &&& (post.viewport == pre.viewport)
    &&& (post.visual_start == pre.visual_start)
    &&& (pre.mode == Mode::Insert ==> {
                &&& r is Ok
                &&& post.lines() == pre.lines().update(
                    pre.cursor.y as int,
                    pre.lines()[pre.cursor.y as int].insert(
                        pre.cursor.x as int,
                        character,
                    ),
                )
                &&& post.cursor.x == pre.cursor.x + 1
                &&& post.cursor.y == pre.cursor.y
                &&& post.cursor.desired_x == pre.cursor.desired_x
                &&& post.command_line == pre.command_line
            })
    &&& (pre.mode == Mode::Command ==> {
                &&& r is Ok
                &&& post.content == pre.content
                &&& post.cursor == pre.cursor
                &&& post.command_line.prefix == pre.command_line.prefix
                &&& post.command_line.input@ == pre.command_line.input@.insert(
                    pre.command_line.cursor.x - pre.command_line.prefix@.len(),
                    character,
                )
                &&& post.command_line.cursor.x == pre.command_line.cursor.x + 1
                &&& post.command_line.cursor.y == pre.command_line.cursor.y
                &&& post.command_line.cursor.desired_x == pre.command_line.cursor.desired_x
            })
    &&& (pre.mode == Mode::Normal || pre.mode == Mode::Visual || pre.mode
                == Mode::Minibuffer ==> post == pre && r == Err::<(), Error>(
                Error::WrongModeError { current_mode: pre.mode },
            ))
}

/// What `Buffer::add_tab` leaves behind: spaces up to the next
/// multiple of four columns, at least one, wherever `add_char` would
/// insert; any other mode refuses and changes nothing.
pub open spec fn tab_added(pre: Buffer, post: Buffer, r: Result<(), Error>) -> bool {
    &&& (post.title == pre.title)
    &&& (post.path == pre.path)
    &&& (post.kind == pre.kind)
    &&& (post.state == pre.state)
    &&& (post.mode == pre.mode)
    &&& (post.viewport == pre.viewport)
    &&& (post.visual_start == pre.visual_start)
    &&& (pre.mode == Mode::Insert ==> {
                let sp = tab_spaces(pre.cursor.x as int);
                let line = pre.lines()[pre.cursor.y as int];
                &&& r is Ok
                &&& post.lines() == pre.lines().update(
                    pre.cursor.y as int,
                    line.take(pre.cursor.x as int) + spaces_seq(sp) + line.skip(
                        pre.cursor.x as int,
                    ),
                )
                &&& post.cursor.x == pre.cursor.x + sp
                &&& post.cursor.y == pre.cursor.y
                &&& post.command_line == pre.command_line
            })
    &&& (pre.mode == Mode::Command ==> {
                let sp = tab_spaces(pre.cursor.x as int);
                let pos = pre.command_line.cursor.x - pre.command_line.prefix@.len();
                &&& r is Ok
                &&& post.content == pre.content
                &&& post.cursor == pre.cursor
                &&& post.command_line.prefix == pre.command_line.prefix
                &&& post.command_line.input@ == pre.command_line.input@.take(pos)
                    + spaces_seq(sp) + pre.command_line.input@.skip(pos)
                &&& post.command_line.cursor.x == pre.command_line.cursor.x + sp
            })
    &&& (pre.mode == Mode::Normal || pre.mode == Mode::Visual || pre.mode
                == Mode::Minibuffer ==> post == pre && r == Err::<(), Error>(
                Error::WrongModeError { current_mode: pre.mode },
            ))
}

/// What `Buffer::new_line` leaves behind: in insert mode the line is
/// broken at the cursor; in normal mode on an editable buffer a fresh
/// empty line opens under or over the current one and insert mode
/// begins.  The viewport follows the cursor in every case.
pub open spec fn line_opened(pre: Buffer, post: Buffer, direction: NewLineDirection) -> bool {
    &&& (post.title == pre.title)
    &&& (post.path == pre.path)
    &&& (post.kind == pre.kind)
    &&& (post.state == pre.state)
    &&& (post.command_line == pre.command_line)
    &&& (post.visual_start == pre.visual_start)
    &&& (post.viewport.height == pre.viewport.height)
    &&& (post.viewport.top == pre.viewport.spec_adjusted_top(
                post.cursor.y as int,
                post.content@.len() as int,
            ))
    &&& (post.cursor.desired_x == pre.cursor.desired_x)
    &&& (pre.mode == Mode::Insert ==> {
                let y = pre.cursor.y as int;
                let x = pre.cursor.x as int;
                let line = pre.lines()[y];
                &&& post.lines() == pre.lines().update(y, line.take(x)).insert(
                    y + 1,
                    line.skip(x),
                )
                &&& post.cursor.y == y + 1
                &&& post.cursor.x == 0
                &&& post.mode == Mode::Insert
            })
    &&& (pre.mode == Mode::Normal && pre.state.mutable ==> {
                let y = pre.cursor.y as int;
                &&& direction == NewLineDirection::Under ==> post.lines() == pre.lines().insert(y + 1, Seq::<char>::empty()) && post.cursor.y == y + 1
                &&& direction == NewLineDirection::Over ==> post.lines() == pre.lines().insert(y, Seq::<char>::empty()) && post.cursor.y == y
                &&& post.cursor.x == 0
                &&& post.mode == Mode::Insert
            })
    &&& (pre.mode == Mode::Normal && !pre.state.mutable || pre.mode
                != Mode::Insert && pre.mode != Mode::Normal ==> post.content == pre.content && post.cursor == pre.cursor && post.mode == pre.mode)
}

/// What `Buffer::remove_char` leaves behind, mode by mode: backspace
/// in insert mode (joining lines at a line start), delete under the
/// cursor in normal mode, the whole selection in visual mode, backspace
/// in the command line in command mode.
pub open spec fn char_removed(pre: Buffer, post: Buffer, r: Result<(), Error>) -> bool {
    &&& (post.title == pre.title)
    &&& (post.path == pre.path)
    &&& (post.kind == pre.kind)
    &&& (post.state == pre.state)
    &&& (post.viewport == pre.viewport)
    &&& (pre.mode == Mode::Insert ==> {
                let y = pre.cursor.y as int;
                let x = pre.cursor.x as int;
                &&& r is Ok
                &&& post.mode == Mode::Insert
                &&& post.command_line == pre.command_line
                &&& post.visual_start == pre.visual_start
                &&& post.cursor.desired_x == pre.cursor.desired_x
                &&& x > 0 ==> post.lines() == pre.lines().update(
                    y,
                    pre.lines()[y].remove(x - 1),
                ) && post.cursor.y == y && post.cursor.x == x - 1
                &&& x == 0 && y > 0 ==> post.lines() == pre.lines().remove(y).update(
                    y - 1,
                    pre.lines()[y - 1] + pre.lines()[y],
                ) && post.cursor.y == y - 1 && post.cursor.x == pre.lines()[y
                    - 1].len()
                &&& x == 0 && y == 0 ==> post.content == pre.content && post.cursor == pre.cursor
            })
    &&& (pre.mode == Mode::Normal ==> {
                let y = pre.cursor.y as int;
                let x = pre.cursor.x as int;
                let n = pre.cur_line_len();
                &&& r is Ok
                &&& post.mode == Mode::Normal
                &&& post.command_line == pre.command_line
                &&& post.visual_start == pre.visual_start
                &&& post.cursor.y == y
                &&& !pre.state.mutable ==> post.content == pre.content && post.cursor == pre.cursor
                &&& pre.state.mutable && x < n ==> post.lines() == pre.lines().update(y, pre.lines()[y].remove(x)) && post.cursor.x == (
                if n - 1 > 0 && x >= n - 2 && x > 0 {
                    x - 1
                } else {
                    x
                })
                &&& pre.state.mutable && x == n && n > 0 ==> post.content == pre.content && post.cursor.x == x - 1
                &&& pre.state.mutable && x == n && n == 0 ==> post.content == pre.content && post.cursor == pre.cursor
            })
    &&& (pre.mode == Mode::Command ==> {
                let pl = pre.command_line.prefix@.len() as int;
                let cx = pre.command_line.cursor.x as int;
                &&& r is Ok
                &&& post.content == pre.content
                &&& post.cursor == pre.cursor
                &&& post.mode == Mode::Command
                &&& post.visual_start == pre.visual_start
                &&& post.command_line.prefix == pre.command_line.prefix
                &&& pre.command_line.input@.len() > 0 && cx > pl ==> post.command_line.input@ == pre.command_line.input@.remove(cx - pl - 1) && post.command_line.cursor.x == cx - 1
                &&& pre.command_line.input@.len() == 0 || cx == pl ==> post.command_line == pre.command_line
            })
    &&& (pre.mode == Mode::Minibuffer ==> post == pre && r == Err::<(), Error>(
        Error::WrongModeError { current_mode: Mode::Minibuffer },
    ))
    &&& (pre.mode == Mode::Visual ==> {
                &&& pre.visual_start is None ==> post == pre && r == Err::<
                    (),
                    Error,
                >(Error::VisualModeInitError)
                &&& pre.visual_start matches Some(anchor) ==> {
                    &&& !pre.state.mutable ==> post == pre && r is Ok
                    &&& pre.state.mutable && sel_bottom(anchor, pre.cursor).y >= pre.content@.len() ==> post == pre && r is Ok
                    &&& pre.state.mutable && sel_bottom(anchor, pre.cursor).y < pre.content@.len() ==> {
                        let top = sel_top(anchor, pre.cursor);
                        let bottom = sel_bottom(anchor, pre.cursor);
                        let after = visual_lines_after(pre.lines(), top, bottom);
                        &&& r is Ok
                        &&& post.lines() == after
                        &&& post.mode == Mode::Normal
                        &&& post.visual_start is None
                        &&& post.command_line == pre.command_line
                        &&& post.cursor.y == (if top.y < after.len() {
                            top.y as int
                        } else {
                            after.len() - 1
                        })
                        &&& post.cursor.x == vstd::math::min(
                            top.x as int,
                            after[post.cursor.y as int].len() as int,
                        )
                        &&& post.cursor.desired_x == pre.cursor.desired_x
                    }
                }
            })
}

/// What `Buffer::delete_line` leaves behind: the current line goes
/// (the sole remaining line is blanked instead), the cursor returns to
/// column zero and its row is clamped into the content.
pub open spec fn line_deleted(pre: Buffer, post: Buffer) -> bool {
    &&& (post.title == pre.title)
    &&& (post.path == pre.path)
    &&& (post.kind == pre.kind)
    &&& (post.state == pre.state)
    &&& (post.viewport == pre.viewport)
    &&& (post.mode == pre.mode)
    &&& (post.command_line == pre.command_line)
    &&& (post.visual_start == pre.visual_start)
    &&& (post.cursor.desired_x == pre.cursor.desired_x)
    &&& (!pre.state.mutable ==> post.content == pre.content && post.cursor == pre.cursor)
    &&& (pre.state.mutable && pre.content@.len() > 1 ==> {
                &&& post.lines() == pre.lines().remove(pre.cursor.y as int)
                &&& post.cursor.x == 0
                &&& post.cursor.y == vstd::math::min(
                    pre.cursor.y as int,
                    pre.content@.len() - 2,
                )
            })
    &&& (pre.state.mutable && pre.content@.len() == 1 ==> {
                &&& post.lines() == seq![Seq::<char>::empty()]
                &&& post.cursor.x == 0
                &&& post.cursor.y == 0
            })
}

impl Buffer {
    /// Inserts a character at the cursor in insert mode, or into the
    /// command line in command mode; any other mode refuses.
    pub fn add_char(&mut self, character: char) -> (r: Result<(), Error>)
        requires
            old(self).wf(),
            old(self).mode == Mode::Insert ==> old(self).cur_line_len() < usize::MAX,
            old(self).mode == Mode::Command ==> old(self).command_line.prefix@.len() + old(self).command_line.input@.len() < usize::MAX,
        ensures
            final(self).wf(),
            char_added(*old(self), *final(self), character, r),
    {
        match self.mode {
            Mode::Insert => {
                let ghost prev = self.content@;
                self.content[self.cursor.y].insert(self.cursor.x, character);
                self.cursor.x = self.cursor.x + 1;
                proof {
                    assert(final(self).lines() =~= old(self).lines().update(
                        old(self).cursor.y as int,
                        old(self).lines()[old(self).cursor.y as int].insert(
                            old(self).cursor.x as int,
                            character,
                        ),
                    ));
                }
                Ok(())
            },
            Mode::Command => {
                match self.command_line.add_char(character) {
                    Ok(()) => Ok(()),
                    Err(e) => Err(e),
                }
            },
            _ => {
                Err(
                    Error::WrongModeError { current_mode: self.mode },
                )
            },
        }
    }

    /// Inserts spaces up to the next multiple of four columns, at least
    /// one, by repeated insertion; legal exactly where `add_char` is.
    pub fn add_tab(&mut self) -> (r: Result<(), Error>)
        requires
            old(self).wf(),
            old(self).mode == Mode::Insert ==> old(self).cur_line_len() <= usize::MAX - 4,
            old(self).mode == Mode::Command ==> old(self).command_line.prefix@.len() + old(self).command_line.input@.len() <= usize::MAX - 4,
        ensures
            final(self).wf(),
            tab_added(*old(self), *final(self), r),
    {
        let spaces: usize = 4 - self.cursor.x % 4;
        let ghost start = *self;
        proof {
            if start.mode == Mode::Insert {
                let line = start.lines()[start.cursor.y as int];
                let tx = start.cursor.x as int;
                assert(line.take(tx) + spaces_seq(0) + line.skip(tx) =~= line);
                assert(start.lines().update(start.cursor.y as int, line) =~= start.lines());
            }
            if start.mode == Mode::Command {
                let pos = start.command_line.cursor.x - start.command_line.prefix@.len();
                assert(start.command_line.input@.take(pos) + spaces_seq(0)
                    + start.command_line.input@.skip(pos) =~= start.command_line.input@);
            }
        }
        let mut i: usize = 0;
        while i < spaces
            invariant
                start == *old(self),
                self.wf(),
                start.wf(),
                i <= spaces,
                spaces == tab_spaces(start.cursor.x as int),
                self.title == start.title,
                self.path == start.path,
                self.kind == start.kind,
                self.state == start.state,
                self.mode == start.mode,
                self.viewport == start.viewport,
                self.visual_start == start.visual_start,
                start.mode == Mode::Insert ==> {
                    let line = start.lines()[start.cursor.y as int];
                    &&& start.cur_line_len() <= usize::MAX - 4
                    &&& self.lines() == start.lines().update(
                        start.cursor.y as int,
                        line.take(start.cursor.x as int) + spaces_seq(i as int) + line.skip(
                            start.cursor.x as int,
                        ),
                    )
                    &&& self.cursor.x == start.cursor.x + i
                    &&& self.cursor.y == start.cursor.y
                    &&& self.cursor.desired_x == start.cursor.desired_x
                    &&& self.command_line == start.command_line
                },
                start.mode == Mode::Command ==> {
                    let pos = start.command_line.cursor.x - start.command_line.prefix@.len();
                    &&& start.command_line.prefix@.len() + start.command_line.input@.len()
                        <= usize::MAX - 4
                    &&& self.content == start.content
                    &&& self.cursor == start.cursor
                    &&& self.command_line.prefix == start.command_line.prefix
                    &&& self.command_line.input@ == start.command_line.input@.take(pos)
                        + spaces_seq(i as int) + start.command_line.input@.skip(pos)
                    &&& self.command_line.cursor.x == start.command_line.cursor.x + i
                    &&& self.command_line.cursor.y == start.command_line.cursor.y
                    &&& self.command_line.cursor.desired_x == start.command_line.cursor.desired_x
                },
                start.mode != Mode::Insert && start.mode != Mode::Command ==> *self == start && i
                    == 0,
            decreases spaces - i,
        {
            let ghost before = *self;
            match self.add_char(' ') {
                Ok(()) => {},
                Err(e) => {
                    return Err(e);
                },
            }
            proof {
                if start.mode == Mode::Insert {
                    let line = start.lines()[start.cursor.y as int];
                    let tx = start.cursor.x as int;
                    assert(self.lines()[start.cursor.y as int] =~= line.take(tx) + spaces_seq(
                        i + 1,
                    ) + line.skip(tx));
                    assert(self.lines() =~= start.lines().update(
                        start.cursor.y as int,
                        line.take(tx) + spaces_seq(i + 1) + line.skip(tx),
                    ));
                }
                if start.mode == Mode::Command {
                    let pos = start.command_line.cursor.x - start.command_line.prefix@.len();
                    assert(self.command_line.input@ =~= start.command_line.input@.take(pos)
                        + spaces_seq(i + 1) + start.command_line.input@.skip(pos));
                }
            }
            i = i + 1;
        }
        proof {
            if start.mode == Mode::Insert {
                assert(final(self).lines() == start.lines().update(
                    start.cursor.y as int,
                    start.lines()[start.cursor.y as int].take(start.cursor.x as int) + spaces_seq(
                        spaces as int,
                    ) + start.lines()[start.cursor.y as int].skip(start.cursor.x as int),
                ));
            }
        }
        Ok(())
    }

    /// Breaks the current line at the cursor in insert mode; in normal
    /// mode on an editable buffer, opens a fresh empty line under or
    /// over the current one and enters insert mode.  The viewport
    /// follows the cursor in every case.
    pub fn new_line(&mut self, direction: NewLineDirection)
        requires
            old(self).wf(),
        ensures
            final(self).wf(),
            line_opened(*old(self), *final(self), direction),
    {
        match self.mode {
            Mode::Insert => {
                let here = self.cursor.y;
                let line_count = self.content.len();
                proof {
                    assert(here < line_count);
                }
                let remaining_text = self.content[here].split_off(self.cursor.x);
                self.content.insert(here + 1, remaining_text);
                self.cursor.y = self.cursor.y + 1;
                self.cursor.x = 0;
                proof {
                    let y = old(self).cursor.y as int;
                    let x = old(self).cursor.x as int;
                    let line = old(self).lines()[y];
                    assert(self.lines() =~= old(self).lines().update(y, line.take(x)).insert(
                        y + 1,
                        line.skip(x),
                    ));
                }
            },
            Mode::Normal => {
                if self.state.mutable {
                    match direction {
                        NewLineDirection::Under => {
                            let line_count = self.content.len();
                            proof {
                                assert(self.cursor.y < line_count);
                            }
                            self.content.insert(self.cursor.y + 1, Vec::new());
                            self.cursor.y = self.cursor.y + 1;
                            self.cursor.x = 0;
                            proof {
                                assert(self.lines() =~= old(self).lines().insert(
                                    old(self).cursor.y + 1,
                                    Seq::<char>::empty(),
                                ));
                            }
                        },
                        NewLineDirection::Over => {
                            self.content.insert(self.cursor.y, Vec::new());
                            self.cursor.x = 0;
                            proof {
                                assert(self.lines() =~= old(self).lines().insert(
                                    old(self).cursor.y as int,
                                    Seq::<char>::empty(),
                                ));
                            }
                        },
                    }

                    self.mode = Mode::Insert;
                }
            },
            _ => {},
        }

        self.viewport.adjust(self.cursor.y, self.content.len());
    }

    /// Removes one character, with the meaning of the current mode:
    /// backspace in insert mode (joining lines at a line start), delete
    /// under the cursor in normal mode, the whole selection in visual
    /// mode, backspace in the command line in command mode.
    pub fn remove_char(&mut self) -> (r: Result<(), Error>)
        requires
            old(self).wf(),
        ensures
            final(self).wf(),
            char_removed(*old(self), *final(self), r),
    {
        match self.mode {
            Mode::Insert => {
                if self.cursor.x > 0 {
                    self.content[self.cursor.y].remove(self.cursor.x - 1);
                    self.cursor.x = self.cursor.x - 1;
                    proof {
                        assert(self.lines() =~= old(self).lines().update(
                            old(self).cursor.y as int,
                            old(self).lines()[old(self).cursor.y as int].remove(
                                old(self).cursor.x - 1,
                            ),
                        ));
                    }
                } else if self.cursor.y > 0 {
                    let current_line = self.content.remove(self.cursor.y);
                    self.cursor.y = self.cursor.y - 1;
                    self.cursor.x = self.content[self.cursor.y].len();
                    proof {
                        assert(self.lines() =~~= old(self).lines().remove(
                            old(self).cursor.y as int,
                        ).update(
                            old(self).cursor.y - 1,
                            old(self).lines()[old(self).cursor.y - 1] + current_line@.take(0),
                        ));
                    }
                    let mut k: usize = 0;
                    while k < current_line.len()
                        invariant
                            k <= current_line@.len(),
                            old(self).wf(),
                            old(self).cursor.x == 0,
                            0 < old(self).cursor.y < old(self).content@.len(),
                            current_line@ == old(self).lines()[old(self).cursor.y as int],
                            self.cursor.y == old(self).cursor.y - 1,
                            self.cursor.x == old(self).lines()[old(self).cursor.y - 1].len(),
                            self.cursor.desired_x == old(self).cursor.desired_x,
                            self.content@.len() == old(self).content@.len() - 1,
                            self.lines() == old(self).lines().remove(
                                old(self).cursor.y as int,
                            ).update(
                                old(self).cursor.y - 1,
                                old(self).lines()[old(self).cursor.y - 1] + current_line@.take(
                                    k as int,
                                ),
                            ),
                            self.title == old(self).title,
                            self.path == old(self).path,
                            self.kind == old(self).kind,
                            self.state == old(self).state,
                            self.mode == old(self).mode,
                            self.viewport == old(self).viewport,
                            self.command_line == old(self).command_line,
                            self.visual_start == old(self).visual_start,
                        decreases current_line@.len() - k,
                    {
                        let ghost pre = self.lines();
                        self.content[self.cursor.y].push(current_line[k]);
                        proof {
                            let yy = old(self).cursor.y as int;
                            let a = old(self).lines()[yy - 1];
                            assert(self.lines() =~= pre.update(
                                yy - 1,
                                pre[yy - 1].push(current_line@[k as int]),
                            ));
                            assert(pre[yy - 1] == a + current_line@.take(k as int));
                            assert((a + current_line@.take(k as int)).push(current_line@[k as int])
                                =~= a + current_line@.take(k + 1));
                            assert(self.lines() =~~= old(self).lines().remove(yy).update(
                                yy - 1,
                                a + current_line@.take(k + 1),
                            ));
                        }
                        k = k + 1;
                    }
                    proof {
                        assert(current_line@.take(current_line@.len() as int) =~= current_line@);
                    }
                }
            },
            Mode::Normal => {
                if self.state.mutable {
                    let line_len = self.content[self.cursor.y].len();
                    if self.cursor.x < line_len {
                        self.content[self.cursor.y].remove(self.cursor.x);
                        proof {
                            assert(self.lines() =~= old(self).lines().update(
                                old(self).cursor.y as int,
                                old(self).lines()[old(self).cursor.y as int].remove(
                                    old(self).cursor.x as int,
                                ),
                            ));
                        }

                        let new_len = line_len - 1;
                        if new_len > 0 && self.cursor.x + 1 >= new_len && self.cursor.x > 0 {
                            self.cursor.x = self.cursor.x - 1;
                        }
                    } else if self.cursor.x == line_len && line_len > 0 {
                        self.cursor.x = self.cursor.x - 1;
                    }
                }
            },
            Mode::Visual => {
                match self.visual_start {
                    None => {
                        return Err(Error::VisualModeInitError);
                    },
                    Some(start) => {
                        if self.state.mutable {
                            self.visual_delete(start);
                        }
                    },
                }
            },
            Mode::Command => {
                match self.command_line.remove_char() {
                    Ok(()) => {},
                    Err(e) => {
                        return Err(e);
                    },
                }
            },
            Mode::Minibuffer => {
                return Err(Error::WrongModeError { current_mode: Mode::Minibuffer });
            },
        }

        Ok(())
    }

    /// Removes the selection between the anchor and the cursor, puts the
    /// cursor at its start and returns to normal mode.
    #[verifier::loop_isolation(false)]
    #[verifier::rlimit(80)]
    fn visual_delete(&mut self, start: Cursor)
        requires
            old(self).wf(),
            old(self).mode == Mode::Visual,
            old(self).state.mutable,
        ensures
            final(self).wf(),
            final(self).title == old(self).title,
            final(self).path == old(self).path,
            final(self).kind == old(self).kind,
            final(self).state == old(self).state,
            final(self).viewport == old(self).viewport,
            sel_bottom(start, old(self).cursor).y >= old(self).content@.len() ==> *final(self)
                == *old(self),
            sel_bottom(start, old(self).cursor).y < old(self).content@.len() ==> {
                let top = sel_top(start, old(self).cursor);
                let bottom = sel_bottom(start, old(self).cursor);
                let after = visual_lines_after(old(self).lines(), top, bottom);
                &&& final(self).lines() == after
                &&& final(self).mode == Mode::Normal
                &&& final(self).visual_start is None
                &&& final(self).command_line == old(self).command_line
                &&& final(self).cursor.y == (if top.y < after.len() {
                    top.y as int
                } else {
                    after.len() - 1
                })
                &&& final(self).cursor.x == vstd::math::min(
                    top.x as int,
                    after[final(self).cursor.y as int].len() as int,
                )
                &&& final(self).cursor.desired_x == old(self).cursor.desired_x
            },
    {
        let (top, bottom) = if start.y < self.cursor.y || (start.y == self.cursor.y && start.x
            <= self.cursor.x) {
            (start, self.cursor)
        } else {
            (self.cursor, start)
        };

        if bottom.y >= self.content.len() {
            return ;
        }

        if top.y == bottom.y {
            let line_len = self.content[top.y].len();
            let whole = top.x == 0 && (line_len == 0 || bottom.x >= line_len - 1);
            if whole {
                if self.content.len() > 1 {
                    self.content.remove(top.y);
                    proof {
                        assert(self.lines() =~= old(self).lines().remove(top.y as int));
                    }
                } else {
                    self.content.set(0, Vec::new());
                    proof {
                        assert(self.lines() =~= seq![Seq::<char>::empty()]);
                    }
                }
            } else {
                let tx = if top.x <= line_len {
                    top.x
                } else {
                    line_len
                };
                let sx = if bottom.x >= line_len {
                    line_len
                } else {
                    bottom.x + 1
                };
                let merged = splice_line(&self.content[top.y], tx, &self.content[top.y], sx);
                self.content.set(top.y, merged);
                proof {
                    let line = old(self).lines()[top.y as int];
                    let n = line.len() as int;
                    let txs = if top.x <= n {
                        top.x as int
                    } else {
                        n
                    };
                    let sxs = if bottom.x + 1 <= n {
                        bottom.x + 1
                    } else {
                        n
                    };
                    assert(self.lines() =~= old(self).lines().update(
                        top.y as int,
                        line.take(txs) + line.skip(sxs),
                    ));
                }
            }
        } else {
            let first_len = self.content[top.y].len();
            let tx = if top.x <= first_len {
                top.x
            } else {
                first_len
            };
            let last_len = self.content[bottom.y].len();
            let sx = if bottom.x >= last_len {
                last_len
            } else {
                bottom.x + 1
            };
            let merged = splice_line(&self.content[top.y], tx, &self.content[bottom.y], sx);
            self.content.set(top.y, merged);

            let ghost base = self.content@;
            let count = bottom.y - top.y;
            let mut k: usize = 0;
            while k < count
                invariant
                    k <= count,
                    self.content@.len() == base.len() - k,
                    self.content@ == base.take(top.y + 1) + base.skip(top.y + 1 + k),
                    self.title == old(self).title,
                    self.path == old(self).path,
                    self.kind == old(self).kind,
                    self.state == old(self).state,
                    self.mode == old(self).mode,
                    self.viewport == old(self).viewport,
                    self.command_line == old(self).command_line,
                    self.visual_start == old(self).visual_start,
                    self.cursor == old(self).cursor,
                decreases count - k,
            {
                self.content.remove(top.y + 1);
                k = k + 1;
                proof {
                    assert(self.content@ =~= base.take(top.y + 1) + base.skip(top.y + 1 + k));
                }
            }
            proof {
                let top_s = sel_top(start, old(self).cursor);
                let bottom_s = sel_bottom(start, old(self).cursor);
                assert(self.lines() =~= visual_lines_after(old(self).lines(), top_s, bottom_s));
            }
        }

        let after_len = self.content.len();
        self.cursor.y = if top.y < after_len {
            top.y
        } else {
            after_len - 1
        };
        let cur_len = self.content[self.cursor.y].len();
        self.cursor.x = if top.x <= cur_len {
            top.x
        } else {
            cur_len
        };
        self.switch_mode(ModeParams::Normal);
    }

    /// Removes the current line, or blanks it if it is the only one; the
    /// cursor column returns to the start of the line.
    pub fn delete_line(&mut self)
        requires
            old(self).wf(),
        ensures
            final(self).wf(),
            line_deleted(*old(self), *final(self)),
    {
        if self.state.mutable {
            if self.content.len() > 1 {
                self.content.remove(self.cursor.y);
                proof {
                    assert(self.lines() =~= old(self).lines().remove(old(self).cursor.y as int));
                }

                if self.cursor.y > self.content.len() - 1 {
                    self.cursor.y = self.cursor.y - 1;
                }
            } else {
                self.content.set(self.cursor.y, Vec::new());
                proof {
                    assert(self.lines() =~= seq![Seq::<char>::empty()]);
                }
            }

            self.cursor.x = 0;
        }
    }
}

/// Builds the line `a[..ax] + b[bx..]`.
fn splice_line(a: &Vec<char>, ax: usize, b: &Vec<char>, bx: usize) -> (r: Vec<char>)
    requires
        ax <= a@.len(),
        bx <= b@.len(),
    ensures
        r@ == a@.take(ax as int) + b@.skip(bx as int),
{
    let mut r: Vec<char> = Vec::new();
    let mut i: usize = 0;
    while i < ax
        invariant
            i <= ax <= a@.len(),
            r@ == a@.take(i as int),
        decreases ax - i,
    {
        r.push(a[i]);
        i = i + 1;
        proof {
            assert(r@ =~= a@.take(i as int));
        }
    }
    let mut j: usize = bx;
    while j < b.len()
        invariant
            bx <= j <= b@.len(),
            ax <= a@.len(),
            r@ == a@.take(ax as int) + b@.skip(bx as int).take(j - bx),
        decreases b@.len() - j,
    {
        r.push(b[j]);
        j = j + 1;
        proof {
            assert(r@ =~= a@.take(ax as int) + b@.skip(bx as int).take(j - bx));
        }
    }
    proof {
        assert(b@.skip(bx as int).take(b@.len() - bx) =~= b@.skip(bx as int));
        assert(r@ =~= a@.take(ax as int) + b@.skip(bx as int));
    }
    r
}

impl CommandLine {
    /// Inserts a character at the command-line cursor.
    pub fn add_char(&mut self, character: char) -> (r: Result<(), Error>)
        requires
            old(self).wf(),
            old(self).prefix@.len() + old(self).input@.len() < usize::MAX,
        ensures
            final(self).wf(),
            r is Ok,
            final(self).prefix == old(self).prefix,
            final(self).input@ == old(self).input@.insert(
                old(self).cursor.x - old(self).prefix@.len(),
                character,
            ),
            final(self).cursor.x == old(self).cursor.x + 1,
            final(self).cursor.y == old(self).cursor.y,
            final(self).cursor.desired_x == old(self).cursor.desired_x,
    {
        let prefix_len = self.prefix.len();
        self.input.insert(self.cursor.x - prefix_len, character);
        self.cursor.x = self.cursor.x + 1;
        Ok(())
    }

    /// Removes the character left of the command-line cursor, if there
    /// is one inside the input.
    pub fn remove_char(&mut self) -> (r: Result<(), Error>)
        requires
            old(self).wf(),
        ensures
            final(self).wf(),
            r is Ok,
            final(self).prefix == old(self).prefix,
            final(self).cursor.y == old(self).cursor.y,
            final(self).cursor.desired_x == old(self).cursor.desired_x,
            old(self).input@.len() > 0 && old(self).cursor.x > old(self).prefix@.len() ==> final(self).input@ == old(self).input@.remove(
                old(self).cursor.x - old(self).prefix@.len() - 1,
            ) && final(self).cursor.x == old(self).cursor.x - 1,
            old(self).input@.len() == 0 || old(self).cursor.x == old(self).prefix@.len() ==> *final(self) == *old(self),
    {
        let prefix_len = self.prefix.len();
        if !self.input.is_empty() && self.cursor.x > prefix_len {
            self.input.remove(self.cursor.x - prefix_len - 1);
            self.cursor.x = self.cursor.x - 1;
        }
        Ok(())
    }
}

/// What `Minibuffer::add_char` leaves behind: the character lands in
/// the input at the cursor; a cursor inside the confirmed components
/// refuses the insertion.
pub open spec fn mb_char_added(pre: Minibuffer, post: Minibuffer, character: char, r: Result<(), Error>) -> bool {
    &&& (r is Ok)
    &&& (post.matched_input == pre.matched_input)
    &&& (post.prefix == pre.prefix)
    &&& (post.content == pre.content)
    &&& (post.kind == pre.kind)
    &&& (pre.cursor.x >= pre.matched_input@.len() ==> post.input@ == pre.input@.insert(pre.cursor.x - pre.matched_input@.len(), character)
                && post.cursor.x == pre.cursor.x + 1 && post.cursor.y == pre.cursor.y)
    &&& (pre.cursor.x < pre.matched_input@.len() ==> post == pre)
}

/// What `Minibuffer::remove_char` leaves behind: the character left
/// of the cursor goes; with an empty input the last confirmed
/// component goes instead (for a path, stepping up one directory).
pub open spec fn mb_char_removed(pre: Minibuffer, post: Minibuffer, r: Result<(), Error>) -> bool {
    &&& (r is Ok)
    &&& (post.prefix == pre.prefix)
    &&& (post.content == pre.content)
    &&& (post.cursor.desired_x == pre.cursor.desired_x)
    &&& (pre.input@.len() == 0 ==> {
                &&& post.input == pre.input
                &&& post.matched_input@ == (if pre.matched_input@.len() > 0 {
                    pre.matched_input@.drop_last()
                } else {
                    pre.matched_input@
                })
                &&& pre.kind matches MinibufferKind::File(p) ==> (pre.matched_input@.len() > 0 ==> (post.kind matches MinibufferKind::File(q)
                    && q@ == (if p@.len() > 0 {
                    p@.drop_last()
                } else {
                    p@
                })))
                &&& pre.matched_input@.len() > 0 ==> post.cursor.y == (
                if pre.kind matches MinibufferKind::File(_) {
                    0int
                } else {
                    pre.cursor.y as int
                })
                &&& pre.matched_input@.len() == 0 ==> post.cursor.y == pre.cursor.y && post.kind == pre.kind
                &&& post.cursor.x == (if pre.cursor.x > 0 {
                    pre.cursor.x - 1
                } else {
                    0int
                })
            })
    &&& (pre.input@.len() > 0 ==> {
                &&& post.matched_input == pre.matched_input
                &&& post.kind == pre.kind
                &&& post.cursor.y == pre.cursor.y
                &&& pre.cursor.x > pre.matched_input@.len() && pre.cursor.x - pre.matched_input@.len() <= pre.input@.len() ==> post.input@ == pre.input@.remove(pre.cursor.x - pre.matched_input@.len() - 1)
                &&& !(pre.cursor.x > pre.matched_input@.len() && pre.cursor.x
                    - pre.matched_input@.len() <= pre.input@.len()) ==> post.input == pre.input
                &&& post.cursor.x == (if pre.cursor.x > 0 {
                    pre.cursor.x - 1
                } else {
                    0int
                })
            })
}

impl Minibuffer {
    /// Inserts a character into the minibuffer input at the cursor; a
    /// cursor inside the confirmed components refuses the insertion.
    pub fn add_char(&mut self, character: char) -> (r: Result<(), Error>)
        requires
            old(self).wf(),
            old(self).matched_input@.len() + old(self).input@.len() < usize::MAX,
        ensures
            final(self).wf(),
            mb_char_added(*old(self), *final(self), character, r),
    {
        let matched_len = self.matched_input.len();
        if self.cursor.x >= matched_len {
            self.input.insert(self.cursor.x - matched_len, character);
            self.cursor.x = self.cursor.x + 1;
        }
        Ok(())
    }

    /// Removes the character left of the cursor; with an empty input it
    /// instead drops the last confirmed component (for a path, stepping
    /// up one directory).
    pub fn remove_char(&mut self) -> (r: Result<(), Error>)
        requires
            old(self).wf(),
        ensures
            final(self).wf(),
            mb_char_removed(*old(self), *final(self), r),
    {
        let matched_len = self.matched_input.len();

        if self.input.is_empty() {
            match self.matched_input.pop() {
                Some(_) => {
                    match &mut self.kind {
                        MinibufferKind::File(path) => {
                            path.pop();
                            self.cursor.y = 0;
                        },
                        _ => {},
                    }
                },
                None => {},
            }
        } else {
            if self.cursor.x > matched_len && self.cursor.x - matched_len <= self.input.len() {
                self.input.remove(self.cursor.x - matched_len - 1);
            }
        }

        if self.cursor.x > 0 {
            self.cursor.x = self.cursor.x - 1;
        }
        Ok(())
    }
}

} // verus!
