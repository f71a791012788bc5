//! The open buffers and everything an action can reach: the dispatcher
//! owns exactly one of these, so at most one action mutates it at a
//! time.

use vstd::prelude::*;

verus! {

use crate::buffer::buffer::Buffer;
use crate::buffer::minibuffer::Minibuffer;
use crate::error::OxideError;

/// The open buffers and which of them the editor is showing.
#[derive(Debug, Clone)]
pub struct BufferManager {
    pub buffers: Vec<Buffer>,
    pub active_buffer: usize,
}

impl BufferManager {
    /// There is always at least one buffer, the active index points at
    /// one of them, and each satisfies its own invariant.
    pub open spec fn wf(self) -> bool {
        &&& self.buffers@.len() >= 1
        &&& self.active_buffer < self.buffers@.len()
        &&& forall|i: int| 0 <= i < self.buffers@.len() ==> (#[trigger] self.buffers@[i]).wf()
    }

    /// A manager holding just the scratch buffer.
    pub fn new(height: usize) -> (r: BufferManager)
        requires
            height >= 2,
        ensures
            r.wf(),
            r.buffers@.len() == 1,
            r.active_buffer == 0,
            r.buffers@[0].title@ == "*Scratch*"@,
    {
        let mut buffers: Vec<Buffer> = Vec::new();
        buffers.push(Buffer::scratch(height));
        BufferManager { buffers, active_buffer: 0 }
    }

    /// Borrows the buffer the editor is showing.
    pub fn get_active_buffer(&self) -> (r: Result<&Buffer, OxideError>)
        ensures
            self.active_buffer < self.buffers@.len() ==> (r matches Ok(b) && *b
                == self.buffers@[self.active_buffer as int]),
            self.active_buffer >= self.buffers@.len() ==> r == Err::<&Buffer, OxideError>(
                OxideError::IndexError,
            ),
    {
        if self.active_buffer < self.buffers.len() {
            Ok(&self.buffers[self.active_buffer])
        } else {
            Err(OxideError::IndexError)
        }
    }

    /// Borrows the buffer the editor is showing, for mutation; whatever
    /// the caller does through the borrow lands at the active index and
    /// nowhere else.
    pub fn get_active_buffer_mut(&mut self) -> (r: Result<&mut Buffer, OxideError>)
        ensures
            old(self).active_buffer < old(self).buffers@.len() ==> (r matches Ok(b) && *b == old(
                self,
            ).buffers@[old(self).active_buffer as int] && final(self).buffers@ == old(
                self,
            ).buffers@.update(old(self).active_buffer as int, *final(b)) && final(self).active_buffer
                == old(self).active_buffer),
            old(self).active_buffer >= old(self).buffers@.len() ==> (r matches Err(e) && e
                == OxideError::IndexError && *final(self) == *old(self)),
    {
        if self.active_buffer < self.buffers.len() {
            let idx = self.active_buffer;
            Ok(&mut self.buffers[idx])
        } else {
            Err(OxideError::IndexError)
        }
    }

    /// Opens one more buffer at the end of the list.
    pub fn add_buffer(&mut self, buffer: Buffer)
        ensures
            final(self).buffers@ == old(self).buffers@.push(buffer),
            final(self).active_buffer == old(self).active_buffer,
    {
        self.buffers.push(buffer);
    }
}

/// Everything an action can reach: the buffers, the minibuffer and the
/// running flag.  The terminal, the file system and the key source stay
/// with the surrounding program.
#[derive(Debug, Clone)]
pub struct Editor {
    pub buffer_manager: BufferManager,
    pub is_running: bool,
    pub minibuffer: Minibuffer,
}

impl Editor {
    pub open spec fn wf(self) -> bool {
        &&& self.buffer_manager.wf()
        &&& self.minibuffer.wf()
    }

    /// A running editor showing the scratch buffer.
    pub fn new(height: usize) -> (r: Editor)
        requires
            height >= 2,
        ensures
            r.wf(),
            r.is_running,
            r.buffer_manager.buffers@.len() == 1,
            r.buffer_manager.active_buffer == 0,
    {
        Editor {
            buffer_manager: BufferManager::new(height),
            is_running: true,
            minibuffer: Minibuffer::default(),
        }
    }
}

} // verus!
