//! The conversion as a whole: from the header and the points of a point
//! cloud to the table and the options that the writer takes.

use crate::accumulate::{accepted, accumulate};
use crate::columns::{rows_of, ColumnBuffers, Row};
use crate::crs::{crs_view, resolve, resolved, CrsDecodeError, CrsText, Header, WKTStringTransform};
use crate::point::PointRecord;
use crate::table::{build, table_schema, SchemaMismatchError, TableBatch};
use crate::text::{strip_repeated_suffix, strip_suffix_all};
use crate::writer::{writer_options, Compression, WriterOptions};
use vstd::prelude::*;
use vstd::string::*;

verus! {

/// Why a conversion failed. Every failure is fatal: nothing is retried, and
/// no partial result is handed out.
#[derive(Debug)]
pub enum ConvertError {
    /// The source could not be opened or read, or the target not written.
    Io(String),
    /// The header carries a CRS that could not be decoded.
    CrsDecode(CrsDecodeError),
    /// The column buffers differ in length.
    SchemaMismatch(SchemaMismatchError),
    /// The geometry column could not be encoded for the target file.
    Encoding(String),
}

impl ConvertError {
    pub open spec fn message_spec(self) -> Seq<char> {
        match self {
            ConvertError::Io(detail) => "I/O error: "@ + detail@,
            ConvertError::CrsDecode(e) => "CRS decode error: "@ + e.message_spec(),
            ConvertError::SchemaMismatch(_) => "schema mismatch: column buffers differ in length"@,
            ConvertError::Encoding(detail) => "encoding error: "@ + detail@,
        }
    }

    /// The diagnostic to report.
    pub fn message(&self) -> (text: String)
        ensures
            text@ == self.message_spec(),
    {
        match self {
            ConvertError::Io(detail) => String::from_str("I/O error: ").concat(detail.as_str()),
            ConvertError::CrsDecode(e) => String::from_str("CRS decode error: ").concat(
                e.message().as_str(),
            ),
            ConvertError::SchemaMismatch(_) => String::from_str(
                "schema mismatch: column buffers differ in length",
            ),
            ConvertError::Encoding(detail) => String::from_str("encoding error: ").concat(
                detail.as_str(),
            ),
        }
    }
}

/// What is handed to the writer: the table and the writer's options.
#[derive(Debug)]
pub struct Conversion {
    pub table: TableBatch,
    pub options: WriterOptions,
}

impl Conversion {
    /// The conversion holds the rows `rows` under the fixed schema, with `xy`
    /// as primary geometry column, Snappy compression, and the CRS `crs`.
    pub open spec fn holds(self, rows: Seq<Row>, crs: Option<CrsText>) -> bool {
        &&& self.table@ == rows
        &&& self.table.schema_view() == table_schema()
        &&& self.options.primary_column@ == "xy"@
        &&& self.options.compression == Compression::Snappy
        &&& crs_view(self.options.crs_transform) == crs
    }
}

/// Assembles accumulated buffers and the resolved CRS into what the writer
/// takes. Fails exactly when the buffers differ in length.
pub fn assemble(buffers: ColumnBuffers, crs: Option<WKTStringTransform>) -> (made: Result<
    Conversion,
    ConvertError,
>)
    ensures
        made is Ok <==> buffers.aligned(),
        made matches Ok(conversion) ==> conversion.holds(buffers@, crs_view(crs)),
        made matches Err(e) ==> e == ConvertError::SchemaMismatch(SchemaMismatchError),
{
    match build(buffers) {
        Ok(table) => Ok(Conversion { table, options: writer_options(crs) }),
        Err(e) => Err(ConvertError::SchemaMismatch(e)),
    }
}

/// Converts a point cloud that is held in memory. `projections` holds the
/// answers of the spatial reference library to the texts of
/// [`wkt_texts`](crate::crs::wkt_texts), in order.
///
/// The CRS is resolved first, and a failure there is the failure of the
/// conversion. Otherwise the conversion succeeds: its rows are those of the
/// accepted points, each with its position among them as feature identifier,
/// and its CRS is the resolved one, or none where the header carries none.
pub fn read_laz_to_gpq(
    header: &Header,
    projections: &Vec<Option<String>>,
    points: &Vec<PointRecord>,
    filter_to_ground: bool,
    max_points: Option<i64>,
) -> (made: Result<Conversion, ConvertError>)
    ensures
        match resolved(*header, projections@) {
            Err(e) => made matches Err(failure) && failure == ConvertError::CrsDecode(e),
            Ok(crs) => made matches Ok(conversion) && conversion.holds(
                rows_of(accepted(points@, filter_to_ground, max_points)),
                crs,
            ),
        },
{
    let crs = match resolve(header, projections) {
        Ok(crs) => crs,
        Err(e) => {
            return Err(ConvertError::CrsDecode(e));
        },
    };
    let buffers = accumulate(points, filter_to_ground, max_points);
    assemble(buffers, crs)
}

/// The path of the output file for the input file `input`: the input
/// without its `.laz` extension, however often that is repeated, then
/// `_filter` if only ground points are kept, then `.parquet`.
pub open spec fn output_path_spec(input: Seq<char>, filter_to_ground: bool) -> Seq<char> {
    strip_suffix_all(input, ".laz"@) + (if filter_to_ground {
        "_filter"@
    } else {
        Seq::empty()
    }) + ".parquet"@
}

pub fn output_path(input: &str, filter_to_ground: bool) -> (path: String)
    ensures
        path@ == output_path_spec(input@, filter_to_ground),
{
    let mut path = strip_repeated_suffix(input, ".laz");
    if filter_to_ground {
        path.append("_filter");
    }
    path.append(".parquet");
    path
}

} // verus!
