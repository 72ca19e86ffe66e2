//! Batches of row offsets, held in `arrayvec::ArrayVec` as the encoder hands
//! at most `MAX_MCU_HEIGHT` rows to libjpeg per call.
use vstd::prelude::*;
use arrayvec::ArrayVec;

verus! {

#[verifier::external_type_specification]
#[verifier::external_body]
#[verifier::reject_recursive_types(T)]
pub struct ExArrayVec<T, const CAP: usize>(ArrayVec<T, CAP>);

/// The offsets a batch holds, in order.
pub uninterp spec fn row_offsets(batch: ArrayVec<usize, 16>) -> Seq<usize>;

/// `ArrayVec::new`: an empty batch.
#[verifier::external_body]
pub(crate) fn new_row_batch() -> (batch: ArrayVec<usize, 16>)
    ensures
        row_offsets(batch) == Seq::<usize>::empty(),
{
    ArrayVec::new()
}

/// `ArrayVec::push`: appends an offset; it panics on a full batch, which
/// `requires` leaves out.
#[verifier::external_body]
pub(crate) fn push_row(batch: &mut ArrayVec<usize, 16>, offset: usize)
    requires
        row_offsets(*old(batch)).len() < 16,
    ensures
        row_offsets(*final(batch)) == row_offsets(*old(batch)).push(offset),
{
    batch.push(offset)
}

/// `ArrayVec::is_empty`.
#[verifier::external_body]
pub(crate) fn row_batch_is_empty(batch: &ArrayVec<usize, 16>) -> (r: bool)
    ensures
        r == (row_offsets(*batch).len() == 0),
{
    batch.is_empty()
}

} // verus!
