//! Write-once storage for a context's token lists, kept in
//! `once_cell::sync::OnceCell` as the configuration slots.
//!
//! The cell itself is outside code; everything stated about one goes through
//! `cell_tokens`, the name for what a cell holds: `None` while the cell is
//! empty, and `Some` of the views of the stored strings once it was set.

use once_cell::sync::OnceCell;
use vstd::prelude::*;

verus! {

#[verifier::external_type_specification]
#[verifier::external_body]
#[verifier::reject_recursive_types(T)]
pub struct ExOnceCell<T>(OnceCell<T>);

/// What a configuration slot holds: nothing while it is unset, or the
/// token list it was set to, as a sequence of character sequences.
pub uninterp spec fn cell_tokens(cell: OnceCell<Vec<String>>) -> Option<Seq<Seq<char>>>;

/// Relies on `once_cell::sync::OnceCell::new`: a new cell is empty.
#[verifier::external_body]
pub(crate) fn cell_new() -> (cell: OnceCell<Vec<String>>)
    ensures
        cell_tokens(cell) is None,
{
    OnceCell::new()
}

/// Relies on `once_cell::sync::OnceCell::set`: an empty cell stores the value
/// and the call returns `Ok`; a full cell is left as it is and the call
/// returns `Err` with the rejected value.
#[verifier::external_body]
pub(crate) fn cell_set(cell: &mut OnceCell<Vec<String>>, values: Vec<String>) -> (updated: bool)
    ensures
        updated == (cell_tokens(*old(cell)) is None),
        updated ==> cell_tokens(*final(cell)) == Some(values.deep_view()),
        !updated ==> cell_tokens(*final(cell)) == cell_tokens(*old(cell)),
{
    cell.set(values).is_ok()
}

/// Relies on `once_cell::sync::OnceCell::get_or_init`: a full cell hands out
/// its value untouched; an empty cell first stores what the closure returns,
/// here the given fallback list.
#[verifier::external_body]
pub(crate) fn cell_get_or_init<'a>(
    cell: &'a mut OnceCell<Vec<String>>,
    fallback: Vec<String>,
) -> (values: &'a Vec<String>)
    ensures
        cell_tokens(*old(cell)) is Some ==> cell_tokens(*final(cell)) == cell_tokens(*old(cell)),
        cell_tokens(*old(cell)) is None ==> cell_tokens(*final(cell)) == Some(
            fallback.deep_view(),
        ),
        Some(values.deep_view()) == cell_tokens(*final(cell)),
{
    cell.get_or_init(|| fallback)
}

} // verus!
