//! The column buffers that the accepted points are appended to, and the rows
//! that they stand for.

use crate::point::PointRecord;
use vstd::prelude::*;

verus! {

/// One row of the output table. The doubles are bit patterns, as in
/// [`PointRecord`]; the two labels are the texts of the string columns.
pub struct Row {
    pub x: u64,
    pub y: u64,
    pub z: u64,
    pub fid: int,
    pub intensity: int,
    pub return_number: int,
    pub number_of_returns: int,
    pub scan_direction: Seq<char>,
    pub classification: Seq<char>,
    pub scan_angle: u64,
    pub point_source_id: int,
    pub gps_time: Option<u64>,
}

/// The row that a point becomes when it is accepted as feature `fid`.
pub open spec fn row_of(point: PointRecord, fid: int) -> Row {
    Row {
        x: point.x,
        y: point.y,
        z: point.z,
        fid,
        intensity: point.intensity as int,
        return_number: point.return_number as int,
        number_of_returns: point.number_of_returns as int,
        scan_direction: point.scan_direction.label_spec(),
        classification: point.classification.label_spec(),
        scan_angle: point.scan_angle,
        point_source_id: point.point_source_id as int,
        gps_time: point.gps_time,
    }
}

/// The rows that a sequence of accepted points becomes: each point is given
/// its position in the sequence as feature identifier.
pub open spec fn rows_of(points: Seq<PointRecord>) -> Seq<Row> {
    Seq::new(points.len(), |i: int| row_of(points[i], i))
}

/// One growable buffer per output attribute. Index `i` of every buffer
/// belongs to row `i`.
pub struct ColumnBuffers {
    pub x_coords: Vec<u64>,
    pub y_coords: Vec<u64>,
    pub z_coords: Vec<u64>,
    pub fids: Vec<i64>,
    pub intensities: Vec<i64>,
    pub return_numbers: Vec<i64>,
    pub number_of_returns: Vec<i64>,
    pub scan_directions: Vec<String>,
    pub classifications: Vec<String>,
    pub scan_angles: Vec<u64>,
    pub point_source_ids: Vec<i64>,
    pub gps_times: Vec<Option<u64>>,
}

impl View for ColumnBuffers {
    type V = Seq<Row>;

    /// The rows held, counted by the x coordinates. The view says what the
    /// buffers hold only where they are [`aligned`](ColumnBuffers::aligned).
    open spec fn view(&self) -> Seq<Row> {
        Seq::new(self.x_coords@.len(), |i: int| self.row(i))
    }
}

impl ColumnBuffers {
    /// All twelve buffers have the same length.
    pub open spec fn aligned(&self) -> bool {
        let n = self.x_coords@.len();
        &&& self.y_coords@.len() == n
        &&& self.z_coords@.len() == n
        &&& self.fids@.len() == n
        &&& self.intensities@.len() == n
        &&& self.return_numbers@.len() == n
        &&& self.number_of_returns@.len() == n
        &&& self.scan_directions@.len() == n
        &&& self.classifications@.len() == n
        &&& self.scan_angles@.len() == n
        &&& self.point_source_ids@.len() == n
        &&& self.gps_times@.len() == n
    }

    /// What the buffers hold at index `i`.
    pub open spec fn row(&self, i: int) -> Row {
        Row {
            x: self.x_coords@[i],
            y: self.y_coords@[i],
            z: self.z_coords@[i],
            fid: self.fids@[i] as int,
            intensity: self.intensities@[i] as int,
            return_number: self.return_numbers@[i] as int,
            number_of_returns: self.number_of_returns@[i] as int,
            scan_direction: self.scan_directions@[i]@,
            classification: self.classifications@[i]@,
            scan_angle: self.scan_angles@[i],
            point_source_id: self.point_source_ids@[i] as int,
            gps_time: self.gps_times@[i],
        }
    }

    /// Empty buffers.
    pub fn new() -> (buffers: ColumnBuffers)
        ensures
            buffers.aligned(),
            buffers@ == Seq::<Row>::empty(),
    {
        ColumnBuffers {
            x_coords: Vec::new(),
            y_coords: Vec::new(),
            z_coords: Vec::new(),
            fids: Vec::new(),
            intensities: Vec::new(),
            return_numbers: Vec::new(),
            number_of_returns: Vec::new(),
            scan_directions: Vec::new(),
            classifications: Vec::new(),
            scan_angles: Vec::new(),
            point_source_ids: Vec::new(),
            gps_times: Vec::new(),
        }
    }

    /// The number of rows, counted by the x coordinates.
    pub fn len(&self) -> (n: usize)
        ensures
            n == self@.len(),
    {
        self.x_coords.len()
    }

    /// Whether all twelve buffers have the same length.
    pub fn is_aligned(&self) -> (aligned: bool)
        ensures
            aligned == self.aligned(),
    {
        let n = self.x_coords.len();
        self.y_coords.len() == n && self.z_coords.len() == n && self.fids.len() == n
            && self.intensities.len() == n && self.return_numbers.len() == n
            && self.number_of_returns.len() == n && self.scan_directions.len() == n
            && self.classifications.len() == n && self.scan_angles.len() == n
            && self.point_source_ids.len() == n && self.gps_times.len() == n
    }

    /// Appends `point` as feature `fid` to every buffer: all twelve grow by
    /// one, or (where this is not called) none does.
    pub fn push_row(&mut self, point: &PointRecord, fid: i64)
        requires
            old(self).aligned(),
        ensures
            final(self).aligned(),
            final(self)@ == old(self)@.push(row_of(*point, fid as int)),
    {
        let scan_direction = point.scan_direction.label();
        let classification = point.classification.label();
        self.x_coords.push(point.x);
        self.y_coords.push(point.y);
        self.z_coords.push(point.z);
        self.fids.push(fid);
        self.intensities.push(point.intensity as i64);
        self.return_numbers.push(point.return_number as i64);
        self.number_of_returns.push(point.number_of_returns as i64);
        self.scan_directions.push(scan_direction);
        self.classifications.push(classification);
        self.scan_angles.push(point.scan_angle);
        self.point_source_ids.push(point.point_source_id as i64);
        self.gps_times.push(point.gps_time);
    }
}

} // verus!
