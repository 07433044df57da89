//! The cell that keeps the display name a user gave to a device. It can be
//! written once; whoever writes first wins.

use once_cell::sync::OnceCell;
use vstd::prelude::*;

verus! {

/// `once_cell::sync::OnceCell`: a cell that is empty or holds one value.
/// Nothing is known of a cell but what `cell_content` says of it.
#[verifier::external_type_specification]
#[verifier::external_body]
#[verifier::reject_recursive_types(T)]
pub struct ExOnceCell<T>(OnceCell<T>);

/// What a cell holds: nothing, or the one string it was given.
pub uninterp spec fn cell_content(cell: OnceCell<String>) -> Option<Seq<char>>;

/// What a cell holds after an attempt to write to it: the first value it was
/// ever given.
pub open spec fn content_after_write(content: Option<Seq<char>>, value: Seq<char>) -> Option<
    Seq<char>,
> {
    if content is None {
        Some(value)
    } else {
        content
    }
}

/// What a cell holds after a series of attempts to write to it.
pub open spec fn content_after_writes(content: Option<Seq<char>>, values: Seq<Seq<char>>) -> Option<
    Seq<char>,
>
    decreases values.len(),
{
    if values.len() == 0 {
        content
    } else {
        content_after_writes(content_after_write(content, values[0]), values.drop_first())
    }
}

/// `OnceCell::new`: a new cell is empty.
#[verifier::external_body]
pub(crate) fn cell_new() -> (cell: OnceCell<String>)
    ensures
        cell_content(cell) is None,
{
    OnceCell::new()
}

/// `OnceCell::get`: the string that the cell holds, if it holds one.
#[verifier::external_body]
pub(crate) fn cell_get(cell: &OnceCell<String>) -> (held: Option<&String>)
    ensures
        held is Some <==> cell_content(*cell) is Some,
        held matches Some(text) ==> cell_content(*cell) == Some(text@),
{
    cell.get()
}

/// `OnceCell::set`: an empty cell takes the value and the call reports `Ok`;
/// a full cell keeps what it holds and the call hands the value back in `Err`.
/// The cell is taken by `&mut`, so that no second writer can come between.
#[verifier::external_body]
pub(crate) fn cell_set(cell: &mut OnceCell<String>, value: String) -> (outcome: Result<(), String>)
    ensures
        outcome is Ok <==> cell_content(*old(cell)) is None,
        outcome matches Err(returned) ==> returned == value,
        cell_content(*final(cell)) == content_after_write(cell_content(*old(cell)), value@),
{
    cell.set(value)
}

/// Once a cell holds a value, no series of writes changes what it holds.
pub proof fn lemma_written_once(content: Option<Seq<char>>, values: Seq<Seq<char>>)
    requires
        content is Some,
    ensures
        content_after_writes(content, values) == content,
    decreases values.len(),
{
    if values.len() > 0 {
        lemma_written_once(content, values.drop_first());
    }
}

} // verus!
