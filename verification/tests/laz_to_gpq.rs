use point_quaffer::accumulate::accumulate;
use point_quaffer::crs::{CrsDecodeError, Header, Vlr};
use point_quaffer::laz_to_gpq::{assemble, output_path, read_laz_to_gpq, ConvertError};
use point_quaffer::point::{Classification, PointRecord, ScanDirection};
use point_quaffer::table::{Column, SchemaMismatchError};
use point_quaffer::writer::Compression;

fn point(n: u16, classification: u8) -> PointRecord {
    PointRecord {
        x: f64::from(n).to_bits(),
        y: f64::from(n).to_bits(),
        z: f64::from(n).to_bits(),
        intensity: n,
        return_number: 1,
        number_of_returns: 1,
        scan_direction: ScanDirection::LeftToRight,
        classification: Classification::new(classification).unwrap(),
        scan_angle: 0.0f64.to_bits(),
        point_source_id: 1,
        gps_time: None,
    }
}

fn eleven_points() -> Vec<PointRecord> {
    (0..11u16).map(|n| point(n, if n == 2 || n == 5 { 2 } else { 1 })).collect()
}

fn header_with(vlrs: Vec<Vlr>) -> Header {
    Header { vlrs }
}

fn wkt_vlr(data: &[u8]) -> Vlr {
    Vlr { description: "OGC WKT Coordinate System".to_string(), data: data.to_vec() }
}

fn int_column(column: &Column) -> Vec<i64> {
    match column {
        Column::Int64(values) => values.clone(),
        other => panic!("{:?} is no integer column", other),
    }
}

#[test]
fn eleven_points_are_converted_to_eleven_rows_in_source_order() {
    let made = read_laz_to_gpq(&header_with(vec![]), &vec![], &eleven_points(), false, None).unwrap();
    assert_eq!(made.table.num_rows(), 11);
    assert_eq!(int_column(&made.table.columns()[1]), (0..11).collect::<Vec<i64>>());
    assert_eq!(int_column(&made.table.columns()[3]), (0..11).collect::<Vec<i64>>());
}

#[test]
fn ground_points_are_converted_to_two_renumbered_rows() {
    let made = read_laz_to_gpq(&header_with(vec![]), &vec![], &eleven_points(), true, None).unwrap();
    assert_eq!(made.table.num_rows(), 2);
    assert_eq!(int_column(&made.table.columns()[1]), vec![0, 1]);
    assert_eq!(int_column(&made.table.columns()[3]), vec![2, 5]);
    assert!(matches!(&made.table.columns()[7], Column::Utf8(v) if *v == vec!["Ground", "Ground"]));
}

#[test]
fn capped_conversion_keeps_the_first_rows() {
    let made = read_laz_to_gpq(&header_with(vec![]), &vec![], &eleven_points(), false, Some(4)).unwrap();
    assert_eq!(made.table.num_rows(), 4);
    assert_eq!(int_column(&made.table.columns()[3]), vec![0, 1, 2, 3]);
}

#[test]
fn conversion_without_wkt_record_records_no_crs() {
    let made = read_laz_to_gpq(&header_with(vec![]), &vec![], &eleven_points(), false, None).unwrap();
    assert!(made.options.crs_transform.is_none());
    assert_eq!(made.options.primary_column, "xy");
    assert_eq!(made.options.compression, Compression::Snappy);
}

#[test]
fn conversion_with_wkt_record_records_both_forms_of_the_crs() {
    let header = header_with(vec![wkt_vlr(b" GEOGCS[\"WGS 84\"] \0\0")]);
    let answers = vec![Some("{\"type\": \"GeographicCRS\"}".to_string())];
    let made = read_laz_to_gpq(&header, &answers, &eleven_points(), true, Some(1)).unwrap();
    let crs = made.options.crs_transform.unwrap();
    assert_eq!(crs.extract_wkt(), Some("GEOGCS[\"WGS 84\"]".to_string()));
    assert_eq!(crs.extract_projjson(), Some("{\"type\": \"GeographicCRS\"}".to_string()));
    assert_eq!(made.table.num_rows(), 1);
}

#[test]
fn crs_failure_fails_the_conversion() {
    let points = eleven_points();
    let bad_bytes = header_with(vec![wkt_vlr(&[0xff, 0xff])]);
    assert!(matches!(
        read_laz_to_gpq(&bad_bytes, &vec![Some("{}".to_string())], &points, false, None),
        Err(ConvertError::CrsDecode(CrsDecodeError::InvalidUtf8))
    ));
    let header = header_with(vec![wkt_vlr(b"GEOGCS[]")]);
    assert!(matches!(
        read_laz_to_gpq(&header, &vec![None], &points, false, None),
        Err(ConvertError::CrsDecode(CrsDecodeError::Rejected))
    ));
    assert!(matches!(
        read_laz_to_gpq(&header, &vec![Some("{".to_string())], &points, false, None),
        Err(ConvertError::CrsDecode(CrsDecodeError::InvalidProjjson))
    ));
}

#[test]
fn assemble_refuses_buffers_of_different_lengths() {
    let mut buffers = accumulate(&eleven_points(), false, None);
    buffers.scan_angles.pop();
    assert!(matches!(assemble(buffers, None), Err(ConvertError::SchemaMismatch(SchemaMismatchError))));
}

#[test]
fn assemble_takes_what_the_accumulator_hands_over() {
    let made = assemble(accumulate(&eleven_points(), true, Some(7)), None).unwrap();
    assert_eq!(made.table.num_rows(), 2);
    assert!(made.options.crs_transform.is_none());
}

#[test]
fn every_error_has_its_message() {
    assert_eq!(ConvertError::Io("no such file".to_string()).message(), "I/O error: no such file");
    assert_eq!(
        ConvertError::CrsDecode(CrsDecodeError::InvalidUtf8).message(),
        "CRS decode error: the WKT record is not valid UTF-8"
    );
    assert_eq!(
        ConvertError::CrsDecode(CrsDecodeError::Rejected).message(),
        "CRS decode error: the spatial reference library rejected the WKT"
    );
    assert_eq!(
        ConvertError::SchemaMismatch(SchemaMismatchError).message(),
        "schema mismatch: column buffers differ in length"
    );
    assert_eq!(ConvertError::Encoding("no geometry".to_string()).message(), "encoding error: no geometry");
}

#[test]
fn output_path_replaces_the_extension() {
    assert_eq!(output_path("data/tile.laz", false), "data/tile.parquet");
    assert_eq!(output_path("data/tile.laz", true), "data/tile_filter.parquet");
}

#[test]
fn output_path_strips_a_repeated_extension() {
    assert_eq!(output_path("tile.laz.laz", false), "tile.parquet");
    assert_eq!(output_path(".laz", true), "_filter.parquet");
}

#[test]
fn output_path_keeps_other_extensions() {
    assert_eq!(output_path("tile.las", false), "tile.las.parquet");
    assert_eq!(output_path("tile.LAZ", true), "tile.LAZ_filter.parquet");
    assert_eq!(output_path("", false), ".parquet");
}
