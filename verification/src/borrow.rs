//! The clone-on-write borrow of a cell.

use core::ops::Deref;
use core::ops::DerefMut;
use vstd::prelude::*;
use crate::cell::CowCell;
use crate::model::CowRefView;

verus! {

/// A borrow with clone-on-write semantics on mutable access.
///
/// This type provides zero-cost shared access to the value contained in a
/// [`CowCell`]. When the value is accessed mutably for the first time, the
/// borrow clones it, and the user modifies a private copy from then on.
///
/// Its view is a [`CowRefView`]: the value of the originating cell, and the
/// private copy once there is one.
#[derive(Debug)]
pub struct CowRef<'a, T> {
    ptr: &'a CowCell<T>,
    copy: Option<T>,
}

impl<'a, T> View for CowRef<'a, T> {
    type V = CowRefView<T>;

    closed spec fn view(&self) -> CowRefView<T> {
        CowRefView { original: self.ptr@, copy: self.copy }
    }
}

impl<'a, T> CowRef<'a, T> {
    /// A new borrow from a [`CowCell`]. Nothing is cloned.
    #[inline]
    pub(crate) fn new(ptr: &'a CowCell<T>) -> (r: Self)
        ensures
            r@ == CowRefView::fresh(ptr@),
    {
        Self { ptr, copy: None }
    }

    /// Returns a reference to the [`CowCell`] that originated this borrow.
    #[inline]
    pub fn get_cell(&self) -> (cell: &CowCell<T>)
        ensures
            cell@ == self@.original,
    {
        self.ptr
    }

    /// Returns a shared reference to the inner value: to the private copy
    /// if one has been made, to the value of the cell otherwise. Never
    /// clones.
    #[inline]
    pub fn get_ref(&self) -> (r: &T)
        ensures
            *r == self@.value(),
    {
        match self.copy.as_ref() {
            Some(v) => v,
            None => self.ptr.deref(),
        }
    }

    /// Returns `true` if this borrow has made a copy of the original value.
    #[inline]
    pub fn is_cloned(&self) -> (b: bool)
        ensures
            b == self@.is_cloned(),
    {
        self.copy.is_some()
    }
}

impl<'a, T: Clone> CowRef<'a, T> {
    /// Returns a mutable reference to the inner value, cloning the original
    /// value if no copy has been made yet.
    ///
    /// The reference points into the private copy. On the first mutable
    /// access that copy is a clone of the cell's value; on every later one
    /// it is the copy as the previous access left it. In both cases the
    /// borrow is cloned afterwards and holds whatever the caller leaves
    /// behind the reference.
    #[inline]
    pub fn get_mut(&mut self) -> (r: &mut T)
        ensures
            old(self)@.materializes(*r),
            final(self)@ == old(self)@.with_copy(*final(r)),
    {
        if self.copy.is_none() {
            let copy = self.ptr.deref().clone();
            self.copy = Some(copy);
        }
        self.copy.as_mut().unwrap()
    }

    /// Consumes the borrow, returning the inner value: the private copy if
    /// one has been made, a clone of the cell's value otherwise.
    #[inline]
    pub fn into_inner(self) -> (val: T)
        ensures
            self@.materializes(val),
    {
        match self.copy {
            Some(copy) => copy,
            None => self.ptr.deref().clone(),
        }
    }
}

impl<'a, T> From<&'a CowCell<T>> for CowRef<'a, T> {
    /// Borrows the cell, as [`CowCell::borrow`] does.
    #[inline]
    fn from(cell: &'a CowCell<T>) -> (r: Self)
        ensures
            r@ == CowRefView::fresh(cell@),
    {
        let r = Self::new(cell);
        proof {
            r.ptr.lemma_view_determines_cell(*cell);
        }
        r
    }
}

impl<'a, T> vstd::std_specs::convert::FromSpecImpl<&'a CowCell<T>> for CowRef<'a, T> {
    open spec fn obeys_from_spec() -> bool {
        true
    }

    closed spec fn from_spec(cell: &'a CowCell<T>) -> Self {
        CowRef { ptr: cell, copy: None }
    }
}

impl<T> Deref for CowRef<'_, T> {
    type Target = T;

    /// Reads the inner value, as [`CowRef::get_ref`] does.
    #[inline]
    fn deref(&self) -> (r: &T)
        ensures
            *r == self@.value(),
    {
        self.get_ref()
    }
}

impl<T: Clone> DerefMut for CowRef<'_, T> {
    /// Gives mutable access to the inner value, as [`CowRef::get_mut`]
    /// does.
    #[inline]
    fn deref_mut(&mut self) -> (r: &mut T)
        ensures
            old(self)@.materializes(*r),
            final(self)@ == old(self)@.with_copy(*final(r)),
    {
        self.get_mut()
    }
}

} // verus!
