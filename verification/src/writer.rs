//! What the writer of the columnar file is told.

use crate::crs::WKTStringTransform;
use vstd::prelude::*;
use vstd::string::*;

verus! {

/// The block compression of the data pages.
#[derive(Clone, Copy, Debug, PartialEq, Eq, Structural)]
pub enum Compression {
    Uncompressed,
    Snappy,
}

/// The options of the writer: which column holds the primary geometry,
/// the CRS to record for it if one was resolved, and the compression.
#[derive(Debug)]
pub struct WriterOptions {
    pub primary_column: String,
    pub crs_transform: Option<WKTStringTransform>,
    pub compression: Compression,
}

/// The options for a table of this crate's schema: the primary geometry
/// column is `xy`, the blocks are compressed with Snappy, and the CRS is the
/// resolved one. Where none was resolved, none is recorded: no default takes
/// its place.
pub fn writer_options(crs: Option<WKTStringTransform>) -> (options: WriterOptions)
    ensures
        options.primary_column@ == "xy"@,
        options.crs_transform == crs,
        options.compression == Compression::Snappy,
{
    WriterOptions {
        primary_column: String::from_str("xy"),
        crs_transform: crs,
        compression: Compression::Snappy,
    }
}

} // verus!
