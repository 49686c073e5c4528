//! The abstract state of a borrow, and what holds of it.
//!
//! A borrow is in one of two states. It starts out *uncloned*: it has no
//! copy of its own and reads the value of the cell it came from. The first
//! mutable access makes it *cloned*: it now owns a copy, and every later
//! access, shared or mutable, goes to that copy. There is no way back.
//!
//! The contracts of [`CowRef`](crate::CowRef) are written over the
//! functions of this module; the lemmas below say what those contracts
//! amount to when the operations are chained.

use vstd::prelude::*;

verus! {

/// What a borrow is, seen from outside: the value of the cell it came from,
/// and the private copy it has made of it, if any.
pub ghost struct CowRefView<T> {
    /// The value held by the originating cell.
    pub original: T,
    /// The private copy, once one has been made.
    pub copy: Option<T>,
}

impl<T> CowRefView<T> {
    /// The state of a borrow that has just been taken from a cell holding
    /// `original`: no copy has been made.
    pub open spec fn fresh(original: T) -> Self {
        CowRefView { original, copy: None }
    }

    /// Whether the private copy exists.
    pub open spec fn is_cloned(self) -> bool {
        self.copy is Some
    }

    /// The value that reading through the borrow yields: the private copy
    /// if there is one, the original otherwise.
    pub open spec fn value(self) -> T {
        match self.copy {
            Some(copy) => copy,
            None => self.original,
        }
    }

    /// The state in which a mutable access leaves the borrow, `copy` being
    /// the value that the access left behind: the borrow is cloned and
    /// holds `copy`, and the original is what it was.
    pub open spec fn with_copy(self, copy: T) -> Self {
        CowRefView { original: self.original, copy: Some(copy) }
    }
}

impl<T: Clone> CowRefView<T> {
    /// Whether `copy` is a value that the borrow can hand out as its own:
    /// the private copy itself where one exists, and otherwise a clone of
    /// the original.
    pub open spec fn materializes(self, copy: T) -> bool {
        match self.copy {
            Some(existing) => copy == existing,
            None => cloned(self.original, copy),
        }
    }
}

/// Whether cloning a `T` always gives back an equal value.
///
/// This holds of the integer types, of `bool` and of `char`, and of any type
/// whose `clone` promises it. It does not hold of every type: a `clone` may
/// promise less than equality.
pub open spec fn clone_is_exact<T: Clone>() -> bool {
    forall|a: T, b: T| #[trigger] cloned(a, b) ==> a == b
}

/// A borrow that has just been taken has made no copy, and reads the value
/// of its cell.
pub proof fn lemma_fresh_reads_original<T>(original: T)
    ensures
        !CowRefView::fresh(original).is_cloned(),
        CowRefView::fresh(original).value() == original,
        CowRefView::fresh(original).original == original,
{
}

/// The first mutable access to a fresh borrow hands out a clone of the
/// original, equal to it where cloning is exact. Once the access has left
/// `left` behind, the borrow is cloned and reads `left`, while the original
/// is untouched.
pub proof fn lemma_first_write_copies<T: Clone>(original: T, handed: T, left: T)
    requires
        CowRefView::fresh(original).materializes(handed),
    ensures
        cloned(original, handed),
        clone_is_exact::<T>() ==> handed == original,
        CowRefView::fresh(original).with_copy(left).is_cloned(),
        CowRefView::fresh(original).with_copy(left).value() == left,
        CowRefView::fresh(original).with_copy(left).original == original,
{
}

/// Of two mutable accesses in a row, only the first can clone. Whatever the
/// state `before` them, the second hands out exactly the value `left` that
/// the first left behind, and once it has left `left_again` the borrow is
/// still cloned, reads `left_again`, and has the original it had before.
pub proof fn lemma_second_write_reuses_copy<T: Clone>(
    before: CowRefView<T>,
    left: T,
    handed: T,
    left_again: T,
)
    requires
        before.with_copy(left).materializes(handed),
    ensures
        handed == left,
        before.with_copy(left).with_copy(left_again).is_cloned(),
        before.with_copy(left).with_copy(left_again).value() == left_again,
        before.with_copy(left).with_copy(left_again).original == before.original,
{
}

/// A borrow never goes back: whatever its state before a mutable access,
/// it is cloned after it, and so differs from every fresh borrow.
pub proof fn lemma_cloned_is_final<T>(before: CowRefView<T>, left: T, original: T)
    ensures
        before.with_copy(left).is_cloned(),
        before.with_copy(left) != CowRefView::fresh(original),
{
}

/// What an uncloned borrow gives up when it is consumed is a clone of the
/// original, equal to it where cloning is exact.
pub proof fn lemma_uncloned_yields_clone<T: Clone>(state: CowRefView<T>, out: T)
    requires
        !state.is_cloned(),
        state.materializes(out),
    ensures
        cloned(state.original, out),
        clone_is_exact::<T>() ==> out == state.original,
{
}

/// What a cloned borrow gives up when it is consumed is its private copy,
/// the value that the last mutable access left behind, and not a new clone
/// of the original.
pub proof fn lemma_cloned_yields_copy<T: Clone>(state: CowRefView<T>, out: T)
    requires
        state.is_cloned(),
        state.materializes(out),
    ensures
        state.copy == Some(out),
        out == state.value(),
{
}

} // verus!
