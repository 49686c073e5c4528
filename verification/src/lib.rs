//! A cell-like type with clone-on-write borrowing.
//!
//! A [`CowCell`] owns a value. Borrowing it yields a [`CowRef`], which reads
//! the value of the cell until it is first accessed mutably. At that point
//! the borrow clones the value, and from then on reads and writes go to that
//! private copy. The cell itself is never modified through a borrow.
//!
//! ```rust
//! use cowcell::CowCell;
//!
//! let cell = CowCell::new(44);
//! let mut borrow = cell.borrow();
//!
//! // The borrow transparently dereferences to the original value.
//! assert_eq!(*borrow, 44);
//! assert!(!borrow.is_cloned());
//!
//! // The borrow copies the original value on mutable access.
//! *borrow += 1;
//! assert_eq!(*borrow, 45);
//! assert!(borrow.is_cloned());
//!
//! // The original value has not been modified.
//! assert_eq!(*cell, 44);
//! ```
//!
//! Every function carries a contract over the abstract state of its type:
//! a cell is viewed as the value it holds, a borrow as a [`CowRefView`].
//! The module [`model`] defines the state of a borrow and how a mutable
//! access changes it, and proves what follows when accesses are chained.

pub mod borrow;
pub mod cell;
pub mod model;

pub use borrow::CowRef;
pub use cell::CowCell;
pub use model::CowRefView;
