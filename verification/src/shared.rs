//! Endpoints shared by several owners through a reference-counted cell.
//!
//! What the cell holds is no part of the handle's value, so a shared endpoint
//! describes no content. Access to the cell is checked at run time, and a
//! call that finds the cell in use hands that fact back: whether it ends the
//! program is left to the caller.

use crate::endpoint::{Pullable, Pushable};
use std::cell::{BorrowMutError, RefCell, RefMut};
use std::rc::Rc;
use vstd::prelude::*;

verus! {

/// A cell whose content is borrowed under a run-time check, carried through
/// as an opaque value.
#[verifier::external_type_specification]
#[verifier::external_body]
#[verifier::reject_recursive_types(T)]
pub struct ExRefCell<T: ?Sized>(std::cell::RefCell<T>);

/// The guard that stands for one exclusive borrow of a cell's content.
#[verifier::external_type_specification]
#[verifier::external_body]
#[verifier::reject_recursive_types(T)]
pub struct ExRefMut<'b, T: ?Sized + 'b>(std::cell::RefMut<'b, T>);

/// Why exclusive access to a cell was refused: its content is borrowed
/// already.
#[verifier::external_type_specification]
#[verifier::external_body]
pub struct ExBorrowMutError(std::cell::BorrowMutError);

/// `RefCell::try_borrow_mut`: exclusive access to the cell's content until
/// the guard is dropped, or an error where the content is borrowed already.
/// It never panics. Whether the content is borrowed depends on guards that
/// are alive elsewhere, so nothing is promised of the outcome.
pub assume_specification<T: ?Sized>[ RefCell::<T>::try_borrow_mut ](cell: &RefCell<T>) -> (guard:
    Result<RefMut<'_, T>, BorrowMutError>)
;

/// `DerefMut::deref_mut` of a cell's guard: the content that the guard gives
/// exclusive access to, for as long as the guard is borrowed.
#[verifier::external_body]
fn content<'a, 'b, P>(guard: &'a mut RefMut<'b, P>) -> (inner: &'a mut P) {
    std::ops::DerefMut::deref_mut(guard)
}

/// Forwards `data` to the endpoint behind `borrowed`, where access was
/// granted, and hands it back where it was refused.
pub fn push_through<T, P: Pushable<T>>(
    borrowed: Result<RefMut<'_, P>, BorrowMutError>,
    data: T,
) -> (refused: Option<T>)
    ensures
        refused == match borrowed {
            Ok(_) => None,
            Err(_) => Some(data),
        },
{
    match borrowed {
        Ok(mut guard) => {
            content(&mut guard).push(data);
            None
        },
        Err(_) => Some(data),
    }
}

/// Polls the endpoint behind `borrowed` once, where access was granted:
/// `Some` of what the poll handed out. `None` where access was refused.
pub fn pull_through<T, P: Pullable<T>>(borrowed: Result<RefMut<'_, P>, BorrowMutError>) -> (polled:
    Option<Option<T>>)
    ensures
        polled is Some <==> borrowed is Ok,
{
    match borrowed {
        Ok(mut guard) => Some(content(&mut guard).pull()),
        Err(_) => None,
    }
}

/// Asks for exclusive access to the shared endpoint for the length of the
/// call and forwards `data` to it. Where the endpoint is in use already, as
/// when a push re-enters it, nothing is pushed and `data` comes back.
pub fn try_push_shared<T, P: Pushable<T>>(cell: &Rc<RefCell<P>>, data: T) -> (refused: Option<T>)
    ensures
        refused matches Some(back) ==> back == data,
{
    push_through(cell.try_borrow_mut(), data)
}

/// Asks for exclusive access to the shared endpoint for the length of the
/// call and polls it once: `Some` of what the poll handed out. Where the
/// endpoint is in use already nothing is taken and the result is `None`.
pub fn try_pull_shared<T, P: Pullable<T>>(cell: &Rc<RefCell<P>>) -> (polled: Option<Option<T>>) {
    pull_through(cell.try_borrow_mut())
}

} // verus!
