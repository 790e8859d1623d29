//! The text on its way to the screen.
//!
//! A terminal collects what is written to it and hands it over, whole, when
//! it is flushed. Whoever owns the real screen sends what comes out.

use vstd::prelude::*;
use vstd::string::StringExecFns;

verus! {

/// The screen as the simulation sees it: its size in columns and rows, and the
/// text written since the last flush.
pub struct Terminal {
    pending: String,
    size: (u16, u16),
}

impl Terminal {
    /// The text written and not yet flushed.
    pub closed spec fn pending(&self) -> Seq<char> {
        self.pending@
    }

    /// The size last reported, columns first.
    pub closed spec fn extent(&self) -> (u16, u16) {
        self.size
    }

    /// A terminal of the given size with nothing written to it.
    pub fn new(size: (u16, u16)) -> (terminal: Terminal)
        ensures
            terminal.pending() == Seq::<char>::empty(),
            terminal.extent() == size,
    {
        Terminal { pending: String::new(), size }
    }

    /// The size last reported, columns first.
    pub fn size(&self) -> (size: (u16, u16))
        ensures
            size == self.extent(),
    {
        self.size
    }

    /// Records the size that the screen reports now, and says whether it
    /// differs from the size recorded before.
    pub fn resize(&mut self, size: (u16, u16)) -> (changed: bool)
        ensures
            changed == (old(self).extent() != size),
            final(self).extent() == size,
            final(self).pending() == old(self).pending(),
    {
        let changed: bool = self.size.0 != size.0 || self.size.1 != size.1;
        self.size = size;
        changed
    }

    /// Appends `text` to what is waiting to be shown.
    pub fn write(&mut self, text: &str)
        ensures
            final(self).pending() == old(self).pending() + text@,
            final(self).extent() == old(self).extent(),
    {
        self.pending.append(text);
    }

    /// Hands over everything written since the last flush, in the order in
    /// which it was written, and leaves nothing waiting.
    pub fn flush(&mut self) -> (text: String)
        ensures
            text@ == old(self).pending(),
            final(self).pending() == Seq::<char>::empty(),
            final(self).extent() == old(self).extent(),
    {
        let mut text = String::new();
        core::mem::swap(&mut text, &mut self.pending);
        text
    }
}

} // verus!
