//! The write-once slot that keeps the thread's identifier, a
//! `once_cell::sync::OnceCell`.

use once_cell::sync::OnceCell;
use vstd::prelude::*;

verus! {

/// Makes `once_cell::sync::OnceCell` known to the verifier. Nothing inside
/// a cell is visible to it; what a cell holds is spoken of as `cell_value`.
#[verifier::external_type_specification]
#[verifier::external_body]
#[verifier::reject_recursive_types(T)]
pub struct ExOnceCell<T>(OnceCell<T>);

/// What a cell holds: nothing yet, or the text it was set to.
pub uninterp spec fn cell_value(cell: OnceCell<String>) -> Option<Seq<char>>;

/// Calls `OnceCell::new`. Trusted: the new cell is empty.
#[verifier::external_body]
pub(crate) fn cell_new() -> (cell: OnceCell<String>)
    ensures
        cell_value(cell) is None,
{
    OnceCell::new()
}

/// Calls `OnceCell::get`. Trusted: it returns the text that the cell holds,
/// and `None` for an empty cell.
#[verifier::external_body]
pub(crate) fn cell_get(cell: &OnceCell<String>) -> (value: Option<&String>)
    ensures
        match value {
            Some(text) => cell_value(*cell) == Some(text@),
            None => cell_value(*cell) is None,
        },
{
    cell.get()
}

/// Calls `OnceCell::set`. Trusted: an empty cell takes the value and the
/// call returns `Ok`; a full cell keeps what it holds and the value comes
/// back in `Err`.
#[verifier::external_body]
pub(crate) fn cell_set(cell: &mut OnceCell<String>, value: String) -> (outcome: Result<(), String>)
    ensures
        outcome is Ok <==> cell_value(*old(cell)) is None,
        outcome is Ok ==> cell_value(*final(cell)) == Some(value@),
        outcome matches Err(back) ==> back@ == value@ && cell_value(*final(cell)) == cell_value(
            *old(cell),
        ),
{
    cell.set(value)
}

} // verus!
