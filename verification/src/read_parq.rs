//! Reading a written table back: which rows of which record batches are
//! shown as samples.

use vstd::prelude::*;

verus! {

/// The number of rows that the reader asks for per record batch.
pub const BATCH_ROW_SIZE: usize = 65536;

/// One row in this many is shown.
pub const DEBUG_PRINT_FREQ: usize = 10000;

/// A row to show: the index of its batch and its index in the batch.
#[derive(Clone, Copy, Debug, PartialEq, Eq, Structural)]
pub struct Sample {
    pub batch: usize,
    pub row: usize,
}

/// The number of multiples of [`DEBUG_PRINT_FREQ`] below `num_rows`.
pub open spec fn sample_count(num_rows: int) -> int {
    (num_rows + DEBUG_PRINT_FREQ - 1) / (DEBUG_PRINT_FREQ as int)
}

/// The samples of one batch of `num_rows` rows: the rows whose index is a
/// multiple of [`DEBUG_PRINT_FREQ`], ascending.
pub open spec fn batch_samples(batch: usize, num_rows: int) -> Seq<Sample> {
    Seq::new(
        sample_count(num_rows) as nat,
        |j: int| Sample { batch, row: (j * DEBUG_PRINT_FREQ) as usize },
    )
}

/// The samples of the first `upto` batches, batch by batch. Every batch is
/// walked as far as it goes, be it full or not.
pub open spec fn samples(batch_rows: Seq<usize>, upto: int) -> Seq<Sample>
    decreases upto,
{
    if upto <= 0 {
        Seq::empty()
    } else {
        samples(batch_rows, upto - 1) + batch_samples(
            (upto - 1) as usize,
            batch_rows[upto - 1] as int,
        )
    }
}

/// The sample names a row of a batch, and one that is due to be shown.
pub open spec fn sample_in_range(sample: Sample, batch_rows: Seq<usize>) -> bool {
    &&& sample.batch < batch_rows.len()
    &&& sample.row < batch_rows[sample.batch as int]
    &&& sample.row % DEBUG_PRINT_FREQ == 0
}

/// Appends the samples of one batch of `num_rows` rows.
fn sample_batch(batch: usize, num_rows: usize, shown: &mut Vec<Sample>)
    ensures
        final(shown)@ == old(shown)@ + batch_samples(batch, num_rows as int),
        forall|k: int|
            old(shown)@.len() <= k < final(shown)@.len() ==> {
                &&& (#[trigger] final(shown)@[k]).batch == batch
                &&& final(shown)@[k].row < num_rows
                &&& final(shown)@[k].row % DEBUG_PRINT_FREQ == 0
            },
{
    let count = num_rows / DEBUG_PRINT_FREQ + (if num_rows % DEBUG_PRINT_FREQ != 0 {
        1
    } else {
        0
    });
    let mut j: usize = 0;
    while j < count
        invariant
            j <= count,
            count == sample_count(num_rows as int),
            shown@ == old(shown)@ + batch_samples(batch, num_rows as int).take(j as int),
        decreases count - j,
    {
        shown.push(Sample { batch, row: j * DEBUG_PRINT_FREQ });
        j += 1;
    }
}

/// The rows to show of a table that was read back as record batches with
/// the row counts `batch_rows`, in the order in which they are shown: of
/// every batch the rows whose index is a multiple of [`DEBUG_PRINT_FREQ`].
/// Every sample names a row that its batch holds.
pub fn read(batch_rows: &Vec<usize>) -> (shown: Vec<Sample>)
    ensures
        shown@ == samples(batch_rows@, batch_rows@.len() as int),
        forall|k: int| 0 <= k < shown@.len() ==> sample_in_range(#[trigger] shown@[k], batch_rows@),
{
    let batch_count = batch_rows.len();
    let mut shown: Vec<Sample> = Vec::new();
    let mut batch: usize = 0;
    while batch < batch_count
        invariant
            batch_count == batch_rows@.len(),
            batch <= batch_count,
            shown@ == samples(batch_rows@, batch as int),
            forall|k: int|
                0 <= k < shown@.len() ==> sample_in_range(#[trigger] shown@[k], batch_rows@),
        decreases batch_count - batch,
    {
        sample_batch(batch, batch_rows[batch], &mut shown);
        batch += 1;
    }
    shown
}

} // verus!
