//! The visible window over the buffer content.

use vstd::prelude::*;

verus! {

/// The visible part of the buffer content: the half-open line range
/// `[top, top + height)`.
#[derive(Clone, Copy, Debug, PartialEq, Eq, Structural)]
pub struct Viewport {
    pub top: usize,
    pub height: usize,
}

impl Viewport {
    /// One past the last visible line, as a mathematical integer so that
    /// contracts need no overflow side conditions.
    pub open spec fn spec_bottom(self) -> int {
        self.top + self.height
    }

    /// The window `adjust` leaves behind: `top` slides up to a cursor that
    /// escaped above, down to one that escaped below, and is then pulled
    /// back so the window never extends past the end of the content.
    pub open spec fn spec_adjusted_top(self, cursor_y: int, content_len: int) -> int {
        let slid = if cursor_y < self.top {
            cursor_y
        } else if cursor_y >= self.spec_bottom() {
            cursor_y - self.height + 1
        } else {
            self.top as int
        };
        if slid + self.height > content_len {
            if content_len >= self.height {
                content_len - self.height
            } else {
                0
            }
        } else {
            slid
        }
    }

    pub fn new(height: usize) -> (vp: Viewport)
        ensures
            vp.top == 0,
            vp.height == height,
    {
        Viewport { top: 0, height }
    }

    pub fn bottom(&self) -> (b: usize)
        requires
            self.top + self.height <= usize::MAX,
        ensures
            b == self.spec_bottom(),
    {
        self.top + self.height
    }

    /// Slides the window so it tracks the cursor and never hangs past the
    /// end of the content.  Whenever the content fills the window, the
    /// cursor ends up inside it and the window ends within the content.
    pub fn adjust(&mut self, cursor_y: usize, content_len: usize)
        requires
            cursor_y < content_len,
        ensures
            final(self).height == old(self).height,
            final(self).top == old(self).spec_adjusted_top(cursor_y as int, content_len as int),
            final(self).top <= content_len,
            content_len >= old(self).height ==> final(self).spec_bottom() <= content_len,
            content_len >= old(self).height && old(self).height >= 1 ==> final(self).top
                <= cursor_y < final(self).spec_bottom(),
            content_len < old(self).height ==> final(self).top == 0,
    {
        if cursor_y < self.top {
            self.top = cursor_y;
        } else if cursor_y >= self.height && cursor_y - self.height + 1 > self.top {
            self.top = cursor_y - self.height + 1;
        }

        if content_len >= self.height {
            if self.top > content_len - self.height {
                self.top = content_len - self.height;
            }
        } else {
            self.top = 0;
        }
    }
}

} // verus!
