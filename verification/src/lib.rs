//! Conversion of LAS/LAZ point clouds into GeoParquet tables.
//!
//! The crate holds the decisions of the conversion: which header record
//! carries the coordinate reference system, which points become rows, what
//! the rows and the table schema look like, and what the writer is told.
//! Reading the point cloud and writing the columnar file are left to the
//! caller, who hands over plain values and takes plain values back.

pub mod accumulate;
pub mod columns;
pub mod crs;
pub mod laz_to_gpq;
pub mod point;
pub mod read_parq;
pub mod table;
pub mod text;
pub mod writer;
