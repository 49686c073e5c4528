//! The owning cell.

use core::ops::Deref;
use vstd::prelude::*;
use vstd::std_specs::cmp::PartialEqSpec;
use vstd::std_specs::cmp::PartialOrdSpec;
use crate::borrow::CowRef;
use crate::model::CowRefView;

verus! {

/// A cell that can create borrows with clone-on-write semantics.
///
/// The view of a cell is the value it holds. No function writes to a cell:
/// a borrow reads it and, when asked for mutable access, clones out of it.
/// Comparison, ordering, cloning and the default value are those of the
/// value inside.
#[derive(Debug, Copy, Eq, Ord)]
pub struct CowCell<T> {
    val: T,
}

impl<T> View for CowCell<T> {
    type V = T;

    closed spec fn view(&self) -> T {
        self.val
    }
}

impl<T> CowCell<T> {
    /// Creates a new [`CowCell`] containing the given value.
    #[inline]
    pub fn new(val: T) -> (cell: Self)
        ensures
            cell@ == val,
    {
        Self { val }
    }

    /// Creates a new borrow with clone-on-write semantics. The borrow has
    /// made no copy yet and reads the value of this cell.
    #[inline]
    pub fn borrow(&self) -> (r: CowRef<'_, T>)
        ensures
            r@ == CowRefView::fresh(self@),
    {
        CowRef::new(self)
    }

    /// Consumes the [`CowCell`], returning the value it holds.
    #[inline]
    pub fn into_inner(self) -> (val: T)
        ensures
            val == self@,
    {
        self.val
    }

    /// A cell is nothing but the value it holds: two cells with the same
    /// view are the same cell.
    pub proof fn lemma_view_determines_cell(self, other: Self)
        requires
            self@ == other@,
        ensures
            self == other,
    {
    }
}

impl<T> Deref for CowCell<T> {
    type Target = T;

    /// Reads the value that the cell holds.
    fn deref(&self) -> (r: &T)
        ensures
            *r == self@,
    {
        &self.val
    }
}

/// Reading a cell yields the value it was made from, whenever it is read:
/// whatever [`CowCell::new`] returns for `val` reads as `val` through the
/// dereference, and gives `val` back when it is consumed.
pub proof fn lemma_cell_reads_its_value<T>(val: T, cell: CowCell<T>, read: &T, inner: T)
    requires
        call_ensures(CowCell::<T>::new, (val,), cell),
    ensures
        cell@ == val,
        call_ensures(CowCell::<T>::deref, (&cell,), read) ==> *read == val,
        call_ensures(CowCell::<T>::into_inner, (cell,), inner) ==> inner == val,
{
}

impl<T> From<T> for CowCell<T> {
    /// Wraps the value in a cell, as [`CowCell::new`] does.
    #[inline]
    fn from(val: T) -> (cell: Self)
        ensures
            cell@ == val,
    {
        Self::new(val)
    }
}

impl<T> vstd::std_specs::convert::FromSpecImpl<T> for CowCell<T> {
    open spec fn obeys_from_spec() -> bool {
        true
    }

    closed spec fn from_spec(val: T) -> Self {
        CowCell { val }
    }
}

impl<T: Clone> Clone for CowCell<T> {
    /// Clones the value into a new cell.
    fn clone(&self) -> (cell: Self)
        ensures
            cloned(self@, cell@),
    {
        CowCell { val: self.val.clone() }
    }
}

impl<T: Default> Default for CowCell<T> {
    /// A cell that holds the default value of `T`.
    fn default() -> (cell: Self)
        ensures
            T::default.ensures((), cell@),
    {
        CowCell { val: T::default() }
    }
}

impl<T: PartialEq> PartialEq for CowCell<T> {
    /// Compares the values that the two cells hold. Where `==` on `T`
    /// follows its own `eq_spec`, the result is `eq_spec` of the two views.
    fn eq(&self, other: &Self) -> (r: bool) {
        self.val == other.val
    }
}

impl<T: PartialEq> vstd::std_specs::cmp::PartialEqSpecImpl for CowCell<T> {
    open spec fn obeys_eq_spec() -> bool {
        T::obeys_eq_spec()
    }

    open spec fn eq_spec(&self, other: &Self) -> bool {
        self@.eq_spec(&other@)
    }
}

impl<T: PartialOrd> PartialOrd for CowCell<T> {
    /// Orders two cells as the values that they hold. Where the order on
    /// `T` follows its own `partial_cmp_spec`, the result is
    /// `partial_cmp_spec` of the two views.
    fn partial_cmp(&self, other: &Self) -> (r: Option<core::cmp::Ordering>) {
        self.val.partial_cmp(&other.val)
    }
}

impl<T: PartialOrd> vstd::std_specs::cmp::PartialOrdSpecImpl for CowCell<T> {
    open spec fn obeys_partial_cmp_spec() -> bool {
        T::obeys_partial_cmp_spec()
    }

    open spec fn partial_cmp_spec(&self, other: &Self) -> Option<core::cmp::Ordering> {
        self@.partial_cmp_spec(&other@)
    }
}

} // verus!
