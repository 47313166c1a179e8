//! The columnar table builder: the fixed schema and the batch that the
//! column buffers are assembled into.

use crate::columns::{ColumnBuffers, Row};
use vstd::prelude::*;
use vstd::string::*;

verus! {

/// The logical type of a column.
#[derive(Clone, Copy, Debug, PartialEq, Eq, Structural)]
pub enum ColumnType {
    /// A two-dimensional point geometry: a pair of doubles.
    Point,
    Int64,
    Float64,
    Utf8,
}

/// One field of the schema: name, type, nullability, and the key/value
/// metadata attached to it.
#[derive(Debug)]
pub struct FieldSpec {
    pub name: String,
    pub column_type: ColumnType,
    pub nullable: bool,
    pub metadata: Vec<(String, String)>,
}

/// What a [`FieldSpec`] says.
pub struct FieldView {
    pub name: Seq<char>,
    pub column_type: ColumnType,
    pub nullable: bool,
    pub metadata: Seq<(Seq<char>, Seq<char>)>,
}

impl View for FieldSpec {
    type V = FieldView;

    open spec fn view(&self) -> FieldView {
        FieldView {
            name: self.name@,
            column_type: self.column_type,
            nullable: self.nullable,
            metadata: Seq::new(
                self.metadata@.len(),
                |i: int| (self.metadata@[i].0@, self.metadata@[i].1@),
            ),
        }
    }
}

/// A field without metadata.
pub open spec fn plain_field(name: Seq<char>, column_type: ColumnType, nullable: bool) -> FieldView {
    FieldView { name, column_type, nullable, metadata: Seq::empty() }
}

/// The geometry field: the point column `xy`, tagged as the extension type
/// `geoarrow.point` with empty extension metadata.
pub open spec fn geometry_field() -> FieldView {
    FieldView {
        name: "xy"@,
        column_type: ColumnType::Point,
        nullable: false,
        metadata: seq![
            ("ARROW:extension:name"@, "geoarrow.point"@),
            ("ARROW:extension:metadata"@, "{}"@),
        ],
    }
}

/// The schema of every table: the geometry column, then ten attribute
/// columns, of which only the GPS time may be null.
pub open spec fn table_schema() -> Seq<FieldView> {
    seq![
        geometry_field(),
        plain_field("fid"@, ColumnType::Int64, false),
        plain_field("z"@, ColumnType::Float64, false),
        plain_field("intensity"@, ColumnType::Int64, false),
        plain_field("return_number"@, ColumnType::Int64, false),
        plain_field("number_of_returns"@, ColumnType::Int64, false),
        plain_field("scan_direction"@, ColumnType::Utf8, false),
        plain_field("classification"@, ColumnType::Utf8, false),
        plain_field("scan_angle"@, ColumnType::Float64, false),
        plain_field("point_source_id"@, ColumnType::Int64, false),
        plain_field("gps_time"@, ColumnType::Float64, true),
    ]
}

/// The schema has exactly one geometry column: its first, named `xy`.
pub proof fn lemma_single_geometry_column()
    ensures
        table_schema().len() == 11,
        table_schema()[0].name == "xy"@,
        forall|k: int|
            0 <= k < table_schema().len() ==> ((#[trigger] table_schema()[k]).column_type
                == ColumnType::Point <==> k == 0),
{
}

/// No field of the schema carries two metadata entries under one key, so
/// the entries of a field form a map from key to value.
pub proof fn lemma_metadata_keys_distinct()
    ensures
        forall|k: int, i: int, j: int|
            0 <= k < table_schema().len() && 0 <= i < j < table_schema()[k].metadata.len()
                ==> (#[trigger] table_schema()[k].metadata[i]).0 != (#[trigger] table_schema()[k].metadata[j]).0,
{
    reveal_strlit("ARROW:extension:name");
    reveal_strlit("ARROW:extension:metadata");
    assert("ARROW:extension:name"@.len() != "ARROW:extension:metadata"@.len());
}

/// The values of one column. Doubles are held by their bit patterns.
#[derive(Debug)]
pub enum Column {
    Point(Vec<(u64, u64)>),
    Int64(Vec<i64>),
    Float64(Vec<u64>),
    NullableFloat64(Vec<Option<u64>>),
    Utf8(Vec<String>),
}

/// What a [`Column`] holds.
pub enum ColumnView {
    Point(Seq<(u64, u64)>),
    Int64(Seq<i64>),
    Float64(Seq<u64>),
    NullableFloat64(Seq<Option<u64>>),
    Utf8(Seq<Seq<char>>),
}

/// The texts of a sequence of strings.
pub open spec fn texts(strings: Seq<String>) -> Seq<Seq<char>> {
    Seq::new(strings.len(), |i: int| strings[i]@)
}

/// The coordinate pairs of two sequences of equal length.
pub open spec fn pairs(xs: Seq<u64>, ys: Seq<u64>) -> Seq<(u64, u64)> {
    Seq::new(xs.len(), |i: int| (xs[i], ys[i]))
}

impl View for Column {
    type V = ColumnView;

    open spec fn view(&self) -> ColumnView {
        match self {
            Column::Point(values) => ColumnView::Point(values@),
            Column::Int64(values) => ColumnView::Int64(values@),
            Column::Float64(values) => ColumnView::Float64(values@),
            Column::NullableFloat64(values) => ColumnView::NullableFloat64(values@),
            Column::Utf8(values) => ColumnView::Utf8(texts(values@)),
        }
    }
}

impl ColumnView {
    /// The number of values.
    pub open spec fn len(self) -> nat {
        match self {
            ColumnView::Point(values) => values.len(),
            ColumnView::Int64(values) => values.len(),
            ColumnView::Float64(values) => values.len(),
            ColumnView::NullableFloat64(values) => values.len(),
            ColumnView::Utf8(values) => values.len(),
        }
    }

    /// Whether the values are of the type and nullability that `field`
    /// declares.
    pub open spec fn fits(self, field: FieldView) -> bool {
        match self {
            ColumnView::Point(_) => field.column_type == ColumnType::Point && !field.nullable,
            ColumnView::Int64(_) => field.column_type == ColumnType::Int64 && !field.nullable,
            ColumnView::Float64(_) => field.column_type == ColumnType::Float64 && !field.nullable,
            ColumnView::NullableFloat64(_) => field.column_type == ColumnType::Float64
                && field.nullable,
            ColumnView::Utf8(_) => field.column_type == ColumnType::Utf8 && !field.nullable,
        }
    }
}

/// The columns that aligned buffers are assembled into, in schema order.
pub open spec fn columns_of(buffers: ColumnBuffers) -> Seq<ColumnView> {
    seq![
        ColumnView::Point(pairs(buffers.x_coords@, buffers.y_coords@)),
        ColumnView::Int64(buffers.fids@),
        ColumnView::Float64(buffers.z_coords@),
        ColumnView::Int64(buffers.intensities@),
        ColumnView::Int64(buffers.return_numbers@),
        ColumnView::Int64(buffers.number_of_returns@),
        ColumnView::Utf8(texts(buffers.scan_directions@)),
        ColumnView::Utf8(texts(buffers.classifications@)),
        ColumnView::Float64(buffers.scan_angles@),
        ColumnView::Int64(buffers.point_source_ids@),
        ColumnView::NullableFloat64(buffers.gps_times@),
    ]
}

/// Row `i` of a table, read from its columns in schema order.
pub open spec fn row_at(columns: Seq<ColumnView>, i: int) -> Row {
    Row {
        x: columns[0]->Point_0[i].0,
        y: columns[0]->Point_0[i].1,
        fid: columns[1]->Int64_0[i] as int,
        z: columns[2]->Float64_0[i],
        intensity: columns[3]->Int64_0[i] as int,
        return_number: columns[4]->Int64_0[i] as int,
        number_of_returns: columns[5]->Int64_0[i] as int,
        scan_direction: columns[6]->Utf8_0[i],
        classification: columns[7]->Utf8_0[i],
        scan_angle: columns[8]->Float64_0[i],
        point_source_id: columns[9]->Int64_0[i] as int,
        gps_time: columns[10]->NullableFloat64_0[i],
    }
}

/// The buffers handed to the table builder differ in length.
#[derive(Clone, Copy, Debug, PartialEq, Eq)]
pub struct SchemaMismatchError;

impl SchemaMismatchError {
    pub fn message(&self) -> (text: String)
        ensures
            text@ == "column buffers differ in length"@,
    {
        String::from_str("column buffers differ in length")
    }
}

/// An immutable table: the fixed schema and one column per field, all of
/// the same length.
#[derive(Debug)]
pub struct TableBatch {
    schema: Vec<FieldSpec>,
    columns: Vec<Column>,
    num_rows: usize,
}

impl View for TableBatch {
    type V = Seq<Row>;

    /// The rows of the table.
    closed spec fn view(&self) -> Seq<Row> {
        Seq::new(self.num_rows as nat, |i: int| row_at(self.columns_view(), i))
    }
}

impl TableBatch {
    /// The views of the fields.
    pub closed spec fn schema_view(&self) -> Seq<FieldView> {
        Seq::new(self.schema@.len(), |i: int| self.schema@[i]@)
    }

    /// The views of the columns.
    pub closed spec fn columns_view(&self) -> Seq<ColumnView> {
        Seq::new(self.columns@.len(), |i: int| self.columns@[i]@)
    }

    #[verifier::type_invariant]
    spec fn valid(&self) -> bool {
        &&& self.schema_view() == table_schema()
        &&& self.columns_view().len() == table_schema().len()
        &&& forall|k: int|
            0 <= k < self.columns_view().len() ==> {
                &&& (#[trigger] self.columns_view()[k]).fits(table_schema()[k])
                &&& self.columns_view()[k].len() == self.num_rows
            }
    }

    /// The fields, in column order. There are as many as columns, and they
    /// are those of [`table_schema`]. No field carries two metadata entries
    /// under one key, so the entries of a field may be gathered into a map
    /// without loss.
    pub fn schema(&self) -> (fields: &Vec<FieldSpec>)
        ensures
            fields@.len() == self.schema_view().len(),
            forall|k: int| 0 <= k < fields@.len() ==> (#[trigger] fields@[k])@ == self.schema_view()[k],
            self.schema_view() == table_schema(),
            forall|k: int, i: int, j: int|
                0 <= k < fields@.len() && 0 <= i < j < fields@[k]@.metadata.len()
                    ==> (#[trigger] fields@[k]@.metadata[i]).0 != (#[trigger] fields@[k]@.metadata[j]).0,
    {
        proof {
            use_type_invariant(self);
            lemma_metadata_keys_distinct();
            assert forall|k: int, i: int, j: int|
                0 <= k < self.schema@.len() && 0 <= i < j < self.schema@[k]@.metadata.len()
                implies (#[trigger] self.schema@[k]@.metadata[i]).0
                != (#[trigger] self.schema@[k]@.metadata[j]).0 by {
                assert(self.schema@[k]@ == self.schema_view()[k]);
                assert(table_schema()[k].metadata[i].0 != table_schema()[k].metadata[j].0);
            }
        }
        &self.schema
    }

    /// The columns, in schema order. Each holds one value per row, of the
    /// type and nullability that its field declares, and row `i` of the
    /// table is what the columns hold at index `i`.
    pub fn columns(&self) -> (columns: &Vec<Column>)
        ensures
            columns@.len() == self.columns_view().len(),
            columns@.len() == table_schema().len(),
            forall|k: int|
                0 <= k < columns@.len() ==> {
                    &&& (#[trigger] columns@[k])@ == self.columns_view()[k]
                    &&& columns@[k]@.fits(table_schema()[k])
                    &&& columns@[k]@.len() == self@.len()
                },
            forall|i: int|
                0 <= i < self@.len() ==> (#[trigger] self@[i]) == row_at(self.columns_view(), i),
    {
        proof {
            use_type_invariant(self);
            assert forall|k: int| 0 <= k < self.columns@.len() implies {
                &&& (#[trigger] self.columns@[k])@ == self.columns_view()[k]
                &&& self.columns@[k]@.fits(table_schema()[k])
                &&& self.columns@[k]@.len() == self@.len()
            } by {
                assert(self.columns_view()[k].len() == self.num_rows);
            }
        }
        &self.columns
    }

    /// The number of rows.
    pub fn num_rows(&self) -> (n: usize)
        ensures
            n == self@.len(),
    {
        self.num_rows
    }
}

/// A field named `name`, without metadata.
fn field(name: &str, column_type: ColumnType, nullable: bool) -> (made: FieldSpec)
    ensures
        made@ == plain_field(name@, column_type, nullable),
{
    let made = FieldSpec {
        name: String::from_str(name),
        column_type,
        nullable,
        metadata: Vec::new(),
    };
    assert(made@.metadata =~= Seq::empty());
    made
}

/// The fields of [`table_schema`].
fn schema_fields() -> (fields: Vec<FieldSpec>)
    ensures
        Seq::new(fields@.len(), |i: int| fields@[i]@) == table_schema(),
{
    let mut metadata: Vec<(String, String)> = Vec::new();
    metadata.push((String::from_str("ARROW:extension:name"), String::from_str("geoarrow.point")));
    metadata.push((String::from_str("ARROW:extension:metadata"), String::from_str("{}")));
    let geometry = FieldSpec {
        name: String::from_str("xy"),
        column_type: ColumnType::Point,
        nullable: false,
        metadata,
    };
    assert(geometry@.metadata =~= geometry_field().metadata);
    let mut fields: Vec<FieldSpec> = Vec::with_capacity(11);
    fields.push(geometry);
    fields.push(field("fid", ColumnType::Int64, false));
    fields.push(field("z", ColumnType::Float64, false));
    fields.push(field("intensity", ColumnType::Int64, false));
    fields.push(field("return_number", ColumnType::Int64, false));
    fields.push(field("number_of_returns", ColumnType::Int64, false));
    fields.push(field("scan_direction", ColumnType::Utf8, false));
    fields.push(field("classification", ColumnType::Utf8, false));
    fields.push(field("scan_angle", ColumnType::Float64, false));
    fields.push(field("point_source_id", ColumnType::Int64, false));
    fields.push(field("gps_time", ColumnType::Float64, true));
    fields
}

/// Pairs the x and y coordinates into the values of the geometry column.
fn pair_coordinates(xs: &Vec<u64>, ys: &Vec<u64>) -> (points: Vec<(u64, u64)>)
    requires
        xs@.len() == ys@.len(),
    ensures
        points@ == pairs(xs@, ys@),
{
    let n = xs.len();
    let mut points: Vec<(u64, u64)> = Vec::with_capacity(n);
    let mut i: usize = 0;
    while i < n
        invariant
            n == xs@.len(),
            n == ys@.len(),
            i <= n,
            points@.len() == i,
            forall|k: int| 0 <= k < i ==> points@[k] == (xs@[k], ys@[k]),
        decreases n - i,
    {
        points.push((xs[i], ys[i]));
        i += 1;
    }
    points
}

/// Assembles the buffers into a table under the fixed schema. Fails exactly
/// when the buffers differ in length. The table holds the rows of the
/// buffers, unchanged and in order.
pub fn build(buffers: ColumnBuffers) -> (made: Result<TableBatch, SchemaMismatchError>)
    ensures
        made is Ok <==> buffers.aligned(),
        made matches Ok(table) ==> {
            &&& table.schema_view() == table_schema()
            &&& table.columns_view() == columns_of(buffers)
            &&& table@ == buffers@
        },
{
    if !buffers.is_aligned() {
        return Err(SchemaMismatchError);
    }
    let num_rows = buffers.len();
    let xy = pair_coordinates(&buffers.x_coords, &buffers.y_coords);
    let mut columns: Vec<Column> = Vec::with_capacity(11);
    columns.push(Column::Point(xy));
    columns.push(Column::Int64(buffers.fids));
    columns.push(Column::Float64(buffers.z_coords));
    columns.push(Column::Int64(buffers.intensities));
    columns.push(Column::Int64(buffers.return_numbers));
    columns.push(Column::Int64(buffers.number_of_returns));
    columns.push(Column::Utf8(buffers.scan_directions));
    columns.push(Column::Utf8(buffers.classifications));
    columns.push(Column::Float64(buffers.scan_angles));
    columns.push(Column::Int64(buffers.point_source_ids));
    columns.push(Column::NullableFloat64(buffers.gps_times));
    Ok(TableBatch { schema: schema_fields(), columns, num_rows })
}

} // verus!
