//! Single-assignment storage for one value.

use vstd::prelude::*;

verus! {

/// What a slot holds, as contracts see it.
pub enum SlotView<T> {
    /// Never written.
    Empty,
    /// Written and not yet taken.
    Full(T),
    /// Written, then taken.
    Taken,
}

impl<T> SlotView<T> {
    /// The slot after a write of `v`: only an unwritten slot accepts it.
    pub open spec fn set(self, v: T) -> Self {
        match self {
            SlotView::Empty => SlotView::Full(v),
            other => other,
        }
    }

    /// What a take hands out.
    pub open spec fn content(self) -> Option<T> {
        match self {
            SlotView::Full(v) => Some(v),
            _ => None,
        }
    }

    /// The slot after a take.
    pub open spec fn take(self) -> Self {
        match self {
            SlotView::Full(_) => SlotView::Taken,
            other => other,
        }
    }
}

/// A slot that is written at most once and taken at most once.
pub struct Cell<T> {
    val: Option<T>,
    written: bool,
}

impl<T> View for Cell<T> {
    type V = SlotView<T>;

    closed spec fn view(&self) -> SlotView<T> {
        match self.val {
            Some(v) => SlotView::Full(v),
            None => if self.written {
                SlotView::Taken
            } else {
                SlotView::Empty
            },
        }
    }
}

impl<T> Cell<T> {
    /// An unwritten slot.
    pub fn new() -> (c: Self)
        ensures
            c@ == SlotView::<T>::Empty,
    {
        Cell { val: None, written: false }
    }

    /// Writes `v` into an unwritten slot. A slot that was ever written stays
    /// as it is and hands `v` back.
    pub fn set(&mut self, v: T) -> (r: Result<(), T>)
        ensures
            final(self)@ == old(self)@.set(v),
            r == if old(self)@ is Empty {
                Ok::<(), T>(())
            } else {
                Err::<(), T>(v)
            },
    {
        if self.written || self.val.is_some() {
            Err(v)
        } else {
            self.written = true;
            self.val = Some(v);
            Ok(())
        }
    }

    /// Removes the stored value. Nothing comes out of a slot that is
    /// unwritten or already taken, and such a slot stays as it is.
    pub fn take(&mut self) -> (r: Option<T>)
        ensures
            r == old(self)@.content(),
            final(self)@ == old(self)@.take(),
    {
        let r = self.val.take();
        if r.is_some() {
            self.written = true;
        }
        r
    }

    /// Borrows the stored value, if one is there.
    pub fn as_ref(&self) -> (r: Option<&T>)
        ensures
            r == match self@ {
                SlotView::Full(v) => Some(&v),
                _ => None::<&T>,
            },
    {
        self.val.as_ref()
    }
}

} // verus!
