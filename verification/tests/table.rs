use point_quaffer::accumulate::accumulate;
use point_quaffer::columns::ColumnBuffers;
use point_quaffer::crs::WKTStringTransform;
use point_quaffer::point::{Classification, PointRecord, ScanDirection};
use point_quaffer::table::{build, Column, ColumnType, SchemaMismatchError};
use point_quaffer::writer::{writer_options, Compression};

fn point(n: u16) -> PointRecord {
    PointRecord {
        x: f64::from(n).to_bits(),
        y: (-f64::from(n)).to_bits(),
        z: 0.25f64.to_bits(),
        intensity: n,
        return_number: 3,
        number_of_returns: 4,
        scan_direction: ScanDirection::RightToLeft,
        classification: Classification::new(6).unwrap(),
        scan_angle: 12.5f64.to_bits(),
        point_source_id: 9,
        gps_time: if n == 1 { None } else { Some(1.0e9f64.to_bits()) },
    }
}

fn three_rows() -> ColumnBuffers {
    accumulate(&vec![point(0), point(1), point(2)], false, None)
}

#[test]
fn schema_is_the_fixed_one() {
    let table = build(three_rows()).unwrap();
    let fields: Vec<(&str, ColumnType, bool)> =
        table.schema().iter().map(|f| (f.name.as_str(), f.column_type, f.nullable)).collect();
    assert_eq!(
        fields,
        vec![
            ("xy", ColumnType::Point, false),
            ("fid", ColumnType::Int64, false),
            ("z", ColumnType::Float64, false),
            ("intensity", ColumnType::Int64, false),
            ("return_number", ColumnType::Int64, false),
            ("number_of_returns", ColumnType::Int64, false),
            ("scan_direction", ColumnType::Utf8, false),
            ("classification", ColumnType::Utf8, false),
            ("scan_angle", ColumnType::Float64, false),
            ("point_source_id", ColumnType::Int64, false),
            ("gps_time", ColumnType::Float64, true),
        ]
    );
}

#[test]
fn only_the_geometry_field_carries_metadata() {
    let table = build(three_rows()).unwrap();
    let schema = table.schema();
    assert_eq!(
        schema[0].metadata,
        vec![
            ("ARROW:extension:name".to_string(), "geoarrow.point".to_string()),
            ("ARROW:extension:metadata".to_string(), "{}".to_string()),
        ]
    );
    assert!(schema[1..].iter().all(|f| f.metadata.is_empty()));
    assert_eq!(schema.iter().filter(|f| f.column_type == ColumnType::Point).count(), 1);
}

#[test]
fn columns_hold_the_buffers_in_schema_order() {
    let table = build(three_rows()).unwrap();
    assert_eq!(table.num_rows(), 3);
    let columns = table.columns();
    assert_eq!(columns.len(), 11);
    let bits = |v: f64| v.to_bits();
    assert!(matches!(&columns[0], Column::Point(v)
        if *v == vec![(bits(0.0), bits(-0.0)), (bits(1.0), bits(-1.0)), (bits(2.0), bits(-2.0))]));
    assert!(matches!(&columns[1], Column::Int64(v) if *v == vec![0, 1, 2]));
    assert!(matches!(&columns[2], Column::Float64(v) if *v == vec![bits(0.25); 3]));
    assert!(matches!(&columns[3], Column::Int64(v) if *v == vec![0, 1, 2]));
    assert!(matches!(&columns[4], Column::Int64(v) if *v == vec![3, 3, 3]));
    assert!(matches!(&columns[5], Column::Int64(v) if *v == vec![4, 4, 4]));
    assert!(matches!(&columns[6], Column::Utf8(v) if *v == vec!["RightToLeft"; 3]));
    assert!(matches!(&columns[7], Column::Utf8(v) if *v == vec!["Building"; 3]));
    assert!(matches!(&columns[8], Column::Float64(v) if *v == vec![bits(12.5); 3]));
    assert!(matches!(&columns[9], Column::Int64(v) if *v == vec![9, 9, 9]));
    assert!(matches!(&columns[10], Column::NullableFloat64(v)
        if *v == vec![Some(bits(1.0e9)), None, Some(bits(1.0e9))]));
}

#[test]
fn doubles_pass_through_bit_for_bit() {
    let mut odd = point(0);
    odd.x = f64::NAN.to_bits() | 1;
    odd.y = (-0.0f64).to_bits();
    odd.z = f64::MIN_POSITIVE.to_bits();
    odd.scan_angle = f64::NEG_INFINITY.to_bits();
    odd.gps_time = Some(u64::MAX);
    let table = build(accumulate(&vec![odd], false, None)).unwrap();
    let columns = table.columns();
    assert!(matches!(&columns[0], Column::Point(v) if *v == vec![(odd.x, odd.y)]));
    assert!(matches!(&columns[2], Column::Float64(v) if *v == vec![odd.z]));
    assert!(matches!(&columns[8], Column::Float64(v) if *v == vec![odd.scan_angle]));
    assert!(matches!(&columns[10], Column::NullableFloat64(v) if *v == vec![Some(u64::MAX)]));
}

#[test]
fn empty_buffers_give_an_empty_table() {
    let table = build(ColumnBuffers::new()).unwrap();
    assert_eq!(table.num_rows(), 0);
    assert_eq!(table.schema().len(), 11);
    assert_eq!(table.columns().len(), 11);
}

#[test]
fn building_is_deterministic() {
    let one = build(three_rows()).unwrap();
    let other = build(three_rows()).unwrap();
    assert_eq!(format!("{:?}", one), format!("{:?}", other));
}

#[test]
fn buffers_of_different_lengths_are_a_schema_mismatch() {
    let mut short_ids = three_rows();
    short_ids.fids.pop();
    assert!(!short_ids.is_aligned());
    assert!(matches!(build(short_ids), Err(SchemaMismatchError)));

    let mut long_times = three_rows();
    long_times.gps_times.push(None);
    assert!(matches!(build(long_times), Err(SchemaMismatchError)));

    let mut no_x = three_rows();
    no_x.x_coords.clear();
    assert!(matches!(build(no_x), Err(SchemaMismatchError)));

    let mut short_names = three_rows();
    short_names.classifications.pop();
    assert!(matches!(build(short_names), Err(SchemaMismatchError)));
}

#[test]
fn schema_mismatch_has_its_message() {
    assert_eq!(SchemaMismatchError.message(), "column buffers differ in length");
}

#[test]
fn writer_options_without_crs_record_none() {
    let options = writer_options(None);
    assert_eq!(options.primary_column, "xy");
    assert_eq!(options.compression, Compression::Snappy);
    assert!(options.crs_transform.is_none());
}

#[test]
fn writer_options_keep_the_resolved_crs() {
    let crs = WKTStringTransform::new("GEOGCS[]".to_string(), "{}".to_string()).unwrap();
    let options = writer_options(Some(crs));
    assert_eq!(options.primary_column, "xy");
    assert_eq!(options.compression, Compression::Snappy);
    let kept = options.crs_transform.unwrap();
    assert_eq!(kept.extract_wkt(), Some("GEOGCS[]".to_string()));
    assert_eq!(kept.extract_projjson(), Some("{}".to_string()));
}
