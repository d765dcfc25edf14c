//! Change flags: whether the interface must be drawn again, and values that
//! remember being written.
use vstd::prelude::*;

verus! {

/// The interface's redraw flag.
pub struct AsciiUi {
    is_dirty: bool,
}

impl Default for AsciiUi {
    fn default() -> (r: Self)
        ensures
            !r.needs_render(),
    {
        AsciiUi { is_dirty: false }
    }
}

impl AsciiUi {
    pub closed spec fn needs_render(self) -> bool {
        self.is_dirty
    }

    pub fn is_dirty(&self) -> (r: bool)
        ensures
            r == self.needs_render(),
    {
        self.is_dirty
    }

    /// After a layout pass: the interface must be drawn again if a node asked for
    /// it or the window was resized; otherwise the flag stays as it was.
    pub fn mark_ui_dirty(&mut self, rerender_requested: bool, window_resized: bool)
        ensures
            final(self).needs_render() == (old(self).needs_render() || rerender_requested
                || window_resized),
    {
        if rerender_requested || window_resized {
            self.is_dirty = true;
        }
    }

    /// At the start of a frame: nothing is pending yet.
    pub fn clean_ui(&mut self)
        ensures
            !final(self).needs_render(),
    {
        self.is_dirty = false;
    }
}

/// A value that remembers whether it was written since the flag was last reset.
#[derive(Clone, Copy, Debug)]
pub struct Variable<T> {
    value: T,
    changed: bool,
}

impl<T> Variable<T> {
    pub closed spec fn current(self) -> T {
        self.value
    }

    pub closed spec fn was_changed(self) -> bool {
        self.changed
    }

    pub fn new(value: T) -> (r: Variable<T>)
        ensures
            r.current() == value,
            !r.was_changed(),
    {
        Variable { value, changed: false }
    }

    pub fn changed(&self) -> (r: bool)
        ensures
            r == self.was_changed(),
    {
        self.changed
    }

    pub fn reset(&mut self)
        ensures
            final(self).current() == old(self).current(),
            !final(self).was_changed(),
    {
        self.changed = false;
    }

    pub fn get(&self) -> (r: &T)
        ensures
            *r == self.current(),
    {
        &self.value
    }

    /// Access for writing; the value counts as changed.
    pub fn get_mut(&mut self) -> (r: &mut T)
        ensures
            *r == old(self).current(),
            final(self).current() == *final(r),
            final(self).was_changed(),
    {
        self.changed = true;
        &mut self.value
    }
}

} // verus!
