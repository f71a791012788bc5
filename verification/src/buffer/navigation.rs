//! Cursor movement for the buffer, the command line and the minibuffer.

use vstd::prelude::*;

verus! {

use crate::buffer::buffer::{Buffer, CommandLine, Mode};
use crate::buffer::minibuffer::Minibuffer;

/// `v` clamped into `[lo, hi]`.
pub open spec fn clamp_int(v: int, lo: int, hi: int) -> int {
    if v < lo {
        lo
    } else if v > hi {
        hi
    } else {
        v
    }
}

/// Adds a signed delta to a position and clamps the result into
/// `[lo, hi]`, with no overflow anywhere.
pub fn clamp_add(base: usize, delta: i32, lo: usize, hi: usize) -> (r: usize)
    requires
        lo <= hi,
    ensures
        r == clamp_int(base + delta, lo as int, hi as int),
{
    let v: i128 = base as i128 + delta as i128;
    let lo_i: i128 = lo as i128;
    let hi_i: i128 = hi as i128;
    let c: i128 = if v < lo_i {
        lo_i
    } else if v > hi_i {
        hi_i
    } else {
        v
    };
    c as usize
}

/// What `Buffer::move_cursor` leaves behind: in normal and visual mode
/// the row is clamped to the content, the viewport follows, and the
/// column is clamped to the line — a horizontal move remembers the
/// chosen column in `desired_x`, a purely vertical one restores
/// `min(desired_x, line length)`.  In command mode the command-line
/// cursor moves instead; other modes ignore the request.
pub open spec fn cursor_moved(pre: Buffer, post: Buffer, x: i32, y: i32) -> bool {
    &&& post.title == pre.title
    &&& post.content == pre.content
    &&& post.path == pre.path
    &&& post.kind == pre.kind
    &&& post.state == pre.state
    &&& post.mode == pre.mode
    &&& post.visual_start == pre.visual_start
    &&& post.viewport.height == pre.viewport.height
    &&& pre.mode == Mode::Normal || pre.mode == Mode::Visual ==> {
        let new_y = clamp_int(pre.cursor.y + y, 0, pre.content@.len() - 1);
        let line_len = pre.lines()[new_y].len() as int;
        &&& post.cursor.y == new_y
        &&& post.viewport.top == pre.viewport.spec_adjusted_top(
            new_y,
            pre.content@.len() as int,
        )
        &&& x != 0 ==> post.cursor.x == clamp_int(pre.cursor.x + x, 0, line_len)
            && post.cursor.desired_x == post.cursor.x
        &&& x == 0 ==> post.cursor.x == vstd::math::min(pre.cursor.desired_x as int, line_len)
            && post.cursor.desired_x == pre.cursor.desired_x
        &&& post.command_line == pre.command_line
    }
    &&& pre.mode == Mode::Command ==> {
        let pl = pre.command_line.prefix@.len() as int;
        let il = pre.command_line.input@.len() as int;
        &&& post.cursor == pre.cursor
        &&& post.viewport == pre.viewport
        &&& post.command_line.prefix == pre.command_line.prefix
        &&& post.command_line.input == pre.command_line.input
        &&& post.command_line.cursor.x == clamp_int(pre.command_line.cursor.x + x, pl, pl + il)
        &&& post.command_line.cursor.desired_x == post.command_line.cursor.x
        &&& post.command_line.cursor.y == pre.command_line.cursor.y
    }
    &&& pre.mode == Mode::Insert || pre.mode == Mode::Minibuffer ==> post == pre
}

/// What `Buffer::move_cursor_to_top` leaves behind: the cursor at the
/// first line and column, the viewport adjusted to it, everything else
/// untouched.
pub open spec fn cursor_at_top(pre: Buffer, post: Buffer) -> bool {
    post == (Buffer {
        cursor: (crate::buffer::buffer::Cursor { x: 0, y: 0, desired_x: pre.cursor.desired_x }),
        viewport: (crate::buffer::viewport::Viewport {
            top: pre.viewport.spec_adjusted_top(0, pre.content@.len() as int) as usize,
            height: pre.viewport.height,
        }),
        ..pre
    })
}

/// What `Buffer::move_cursor_to_bot` leaves behind: the cursor at the
/// last line, first column, with the viewport adjusted so it never
/// hangs past the end once the content fills it.
pub open spec fn cursor_at_bottom(pre: Buffer, post: Buffer) -> bool {
    &&& post == (Buffer {
        cursor: (crate::buffer::buffer::Cursor {
            x: 0,
            y: (pre.content@.len() - 1) as usize,
            desired_x: pre.cursor.desired_x,
        }),
        viewport: (crate::buffer::viewport::Viewport {
            top: pre.viewport.spec_adjusted_top(
                pre.content@.len() - 1,
                pre.content@.len() as int,
            ) as usize,
            height: pre.viewport.height,
        }),
        ..pre
    })
    &&& pre.content@.len() >= pre.viewport.height ==> post.viewport.spec_bottom()
        <= pre.content@.len()
}

impl Buffer {
    /// Moves the cursor by a signed delta in each direction; see
    /// [`cursor_moved`] for exactly what that does in each mode.
    pub fn move_cursor(&mut self, x: i32, y: i32)
        requires
            old(self).wf(),
        ensures
            final(self).wf(),
            cursor_moved(*old(self), *final(self), x, y),
    {
        match self.mode {
            Mode::Normal | Mode::Visual => {
                let new_y = clamp_add(self.cursor.y, y, 0, self.content.len() - 1);
                self.cursor.y = new_y;

                self.viewport.adjust(self.cursor.y, self.content.len());

                let current_line_len = self.content[self.cursor.y].len();
                if x != 0 {
                    let new_x = clamp_add(self.cursor.x, x, 0, current_line_len);
                    self.cursor.x = new_x;
                    self.cursor.desired_x = new_x;
                } else {
                    self.cursor.x = if self.cursor.desired_x < current_line_len {
                        self.cursor.desired_x
                    } else {
                        current_line_len
                    };
                }
            },
            Mode::Command => {
                self.command_line.move_cursor(x, y);
            },
            _ => {},
        }
    }

    /// Jumps to the first line, first column.
    pub fn move_cursor_to_top(&mut self)
        requires
            old(self).wf(),
        ensures
            final(self).wf(),
            cursor_at_top(*old(self), *final(self)),
    {
        self.cursor.x = 0;
        self.cursor.y = 0;

        self.viewport.adjust(self.cursor.y, self.content.len());
    }

    /// Jumps to the last line, first column.  The cursor lands on
    /// `len - 1` and the viewport never hangs past the end of the
    /// content once the content fills it.
    pub fn move_cursor_to_bot(&mut self)
        requires
            old(self).wf(),
        ensures
            final(self).wf(),
            cursor_at_bottom(*old(self), *final(self)),
    {
        self.cursor.x = 0;
        self.cursor.y = self.content.len() - 1;

        self.viewport.adjust(self.cursor.y, self.content.len());
    }
}

impl CommandLine {
    /// Moves the command-line cursor horizontally, clamped between the
    /// end of the prefix and the end of the input; the row is ignored.
    pub fn move_cursor(&mut self, x: i32, _y: i32)
        requires
            old(self).wf(),
        ensures
            final(self).wf(),
            final(self).prefix == old(self).prefix,
            final(self).input == old(self).input,
            final(self).cursor.x == clamp_int(
                old(self).cursor.x + x,
                old(self).prefix@.len() as int,
                old(self).prefix@.len() + old(self).input@.len() as int,
            ),
            final(self).cursor.desired_x == final(self).cursor.x,
            final(self).cursor.y == old(self).cursor.y,
    {
        let hi = self.prefix.len() + self.input.len();
        let new_x = clamp_add(self.cursor.x, x, self.prefix.len(), hi);
        self.cursor.x = new_x;
        self.cursor.desired_x = new_x;
    }
}

/// What `Minibuffer::move_cursor` leaves behind: the row clamped to
/// the candidate list, the column clamped to the confirmed components
/// plus the typed text.
pub open spec fn mb_cursor_moved(pre: Minibuffer, post: Minibuffer, x: i32, y: i32) -> bool {
    &&& (post.input == pre.input)
    &&& (post.matched_input == pre.matched_input)
    &&& (post.prefix == pre.prefix)
    &&& (post.content == pre.content)
    &&& (post.kind == pre.kind)
    &&& (post.cursor.y == clamp_int(
                pre.cursor.y + y,
                0,
                if pre.content@.len() == 0 {
                    0
                } else {
                    pre.content@.len() - 1
                },
            ))
    &&& (post.cursor.x == clamp_int(
                pre.cursor.x + x,
                0,
                pre.matched_input@.len() + pre.input@.len() as int,
            ))
    &&& (post.cursor.desired_x == post.cursor.x)
}

impl Minibuffer {
    /// The minibuffer cursor may move vertically through the candidate
    /// list and horizontally through the typed text; each confirmed path
    /// component counts as one column.
    pub open spec fn wf(self) -> bool {
        &&& self.matched_input@.len() + self.input@.len() <= usize::MAX
        &&& self.cursor.x <= self.matched_input@.len() + self.input@.len()
    }

    /// Moves the minibuffer cursor: the row through the candidates, the
    /// column through the confirmed components and the typed text.
    pub fn move_cursor(&mut self, x: i32, y: i32)
        requires
            old(self).wf(),
        ensures
            final(self).wf(),
            mb_cursor_moved(*old(self), *final(self), x, y),
    {
        let max_y = if self.content.len() == 0 {
            0
        } else {
            self.content.len() - 1
        };
        let new_y = clamp_add(self.cursor.y, y, 0, max_y);
        self.cursor.y = new_y;

        let hi = self.matched_input.len() + self.input.len();
        let new_x = clamp_add(self.cursor.x, x, 0, hi);
        self.cursor.x = new_x;
        self.cursor.desired_x = new_x;
    }
}

} // verus!
