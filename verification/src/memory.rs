//! Shared ownership of a single logical agent object: a reference-counted
//! handle with runtime-checked exclusive access, so that one concrete
//! learner or controller can be used by several composing algorithm parts
//! without duplicating state.

use vstd::prelude::*;

verus! {

#[verifier::external_type_specification]
#[verifier::external_body]
#[verifier::reject_recursive_types(T)]
pub struct ExRefCell<T: ?Sized>(core::cell::RefCell<T>);

/// The failure raised when exclusive access to a shared value is requested
/// while another holder already has it.  This is a programmer-error class,
/// not a recoverable-data error: callers should fail fast rather than
/// catch and retry it.
#[derive(Clone, Copy, Debug, PartialEq, Eq, Structural)]
pub struct AliasingViolation;

/// Relies on `RefCell::replace`: it swaps the stored value for the given
/// one and returns what was stored before.  The cell is only ever borrowed
/// for the duration of this call, with no user code running while the
/// borrow is held, so the call cannot observe an outstanding borrow and
/// cannot panic.
#[verifier::external_body]
fn cell_replace<T>(cell: &core::cell::RefCell<Option<T>>, value: Option<T>) -> (previous: Option<
    T,
>) {
    cell.replace(value)
}

/// Relies on `Rc::clone`: the returned handle shares the same underlying
/// allocation, so at the specification level it equals the original.
#[verifier::external_body]
fn rc_clone<T>(rc: &std::rc::Rc<T>) -> (r: std::rc::Rc<T>)
    ensures
        r == *rc,
{
    std::rc::Rc::clone(rc)
}

pub assume_specification<T>[ core::cell::RefCell::<T>::new ](value: T) -> core::cell::RefCell<T>;

/// A handle providing shared ownership of a single logical `T` across
/// multiple holders.  Any holder may obtain exclusive access for the span
/// between [`Shared::take`] and [`Shared::put`]; a second request in that
/// span fails fast with [`AliasingViolation`].  The underlying `T` lives
/// as long as the longest-lived holder.  The handle is single-threaded:
/// it is not required to be thread-safe.
///
/// The stored value sits behind a cell that the verifier treats as opaque,
/// so the contracts of this type speak only of the handles themselves; what
/// the cell holds at any moment is runtime state shared by all holders.
#[verifier::reject_recursive_types(T)]
pub struct Shared<T> {
    cell: std::rc::Rc<core::cell::RefCell<Option<T>>>,
}

impl<T> Shared<T> {
    /// Wraps `t` for shared ownership.
    pub fn new(t: T) -> Shared<T> {
        Shared { cell: std::rc::Rc::new(core::cell::RefCell::new(Some(t))) }
    }

    /// Obtains exclusive access by moving the value out of the shared cell.
    /// Fails with [`AliasingViolation`] when another holder has taken the
    /// value and not yet put it back.
    pub fn take(&self) -> Result<T, AliasingViolation> {
        match cell_replace(&self.cell, None) {
            Some(t) => Ok(t),
            None => Err(AliasingViolation),
        }
    }

    /// Releases exclusive access by moving the value back into the shared
    /// cell, where every holder sees it.
    pub fn put(&self, t: T) {
        let _ = cell_replace(&self.cell, Some(t));
    }
}

impl<T> Clone for Shared<T> {
    /// Creates another holder of the same underlying value.
    fn clone(&self) -> (r: Shared<T>)
        ensures
            r == *self,
    {
        Shared { cell: rc_clone(&self.cell) }
    }
}

} // verus!
