//! The record accumulator: which points of the source become rows.

use crate::columns::{row_of, rows_of, ColumnBuffers, Row};
use crate::point::{PointRecord, GROUND};
use vstd::prelude::*;

verus! {

/// Whether the filter lets `point` through: every point without the filter,
/// the ground points with it.
pub open spec fn passes(filter_to_ground: bool, point: PointRecord) -> bool {
    !filter_to_ground || point.classification.code_spec() == GROUND
}

/// The points of the source that the filter lets through, in source order.
pub open spec fn matching(points: Seq<PointRecord>, filter_to_ground: bool) -> Seq<PointRecord> {
    points.filter(|p: PointRecord| passes(filter_to_ground, p))
}

/// The greatest number of rows that may be accepted. A cap below zero
/// admits none. Without a cap the bound is that of the feature identifier,
/// a signed 64-bit count.
pub open spec fn row_limit(max_points: Option<i64>) -> int {
    match max_points {
        Some(cap) => if cap < 0 { 0 } else { cap as int },
        None => i64::MAX as int,
    }
}

/// The points that become rows: the first [`row_limit`] of those that the
/// filter lets through.
pub open spec fn accepted(
    points: Seq<PointRecord>,
    filter_to_ground: bool,
    max_points: Option<i64>,
) -> Seq<PointRecord> {
    let candidates = matching(points, filter_to_ground);
    let limit = row_limit(max_points);
    if candidates.len() <= limit {
        candidates
    } else {
        candidates.take(limit)
    }
}

/// Offering one more point extends the accepted points by it exactly when
/// the filter lets it through and the limit is not reached yet.
pub proof fn lemma_accepted_push(
    points: Seq<PointRecord>,
    point: PointRecord,
    filter_to_ground: bool,
    max_points: Option<i64>,
)
    ensures
        accepted(points.push(point), filter_to_ground, max_points) == if passes(
            filter_to_ground,
            point,
        ) && accepted(points, filter_to_ground, max_points).len() < row_limit(max_points) {
            accepted(points, filter_to_ground, max_points).push(point)
        } else {
            accepted(points, filter_to_ground, max_points)
        },
{
    reveal(Seq::filter);
    assert(points.push(point).drop_last() =~= points);
}

/// Once as many points are accepted as the limit admits, what follows in
/// the source changes nothing.
pub proof fn lemma_accepted_full(
    points: Seq<PointRecord>,
    seen: int,
    filter_to_ground: bool,
    max_points: Option<i64>,
)
    requires
        0 <= seen <= points.len(),
        accepted(points.take(seen), filter_to_ground, max_points).len() >= row_limit(max_points),
    ensures
        accepted(points, filter_to_ground, max_points) == accepted(
            points.take(seen),
            filter_to_ground,
            max_points,
        ),
{
    let head = points.take(seen);
    let tail = points.skip(seen);
    let keep = |p: PointRecord| passes(filter_to_ground, p);
    assert(points =~= head + tail);
    Seq::filter_distributes_over_add(head, tail, keep);
}

/// The rows of a sequence extended by one point.
pub proof fn lemma_rows_of_push(points: Seq<PointRecord>, point: PointRecord)
    ensures
        rows_of(points.push(point)) == rows_of(points).push(row_of(point, points.len() as int)),
{
}

/// Accumulates rows one offered point at a time. The caller offers the
/// points of the source in order and may stop when the accumulator is full.
/// In every state the buffers are aligned and hold the rows of the points
/// that [`accepted`] picks among those offered.
pub struct Accumulator {
    filter_to_ground: bool,
    max_points: Option<i64>,
    buffers: ColumnBuffers,
    offered: Ghost<Seq<PointRecord>>,
}

impl View for Accumulator {
    type V = Seq<Row>;

    /// The rows accepted so far.
    closed spec fn view(&self) -> Seq<Row> {
        self.buffers@
    }
}

impl Accumulator {
    #[verifier::type_invariant]
    spec fn valid(&self) -> bool {
        &&& self.buffers.aligned()
        &&& self.buffers@ == rows_of(
            accepted(self.offered@, self.filter_to_ground, self.max_points),
        )
    }

    pub closed spec fn filter_to_ground(&self) -> bool {
        self.filter_to_ground
    }

    pub closed spec fn max_points(&self) -> Option<i64> {
        self.max_points
    }

    /// The points offered so far, in the order in which they were offered.
    pub closed spec fn offered(&self) -> Seq<PointRecord> {
        self.offered@
    }

    /// The rows of the points accepted among those offered.
    pub open spec fn expected_rows(&self) -> Seq<Row> {
        rows_of(accepted(self.offered(), self.filter_to_ground(), self.max_points()))
    }

    /// No further row will be accepted.
    pub open spec fn full(&self) -> bool {
        self@.len() >= row_limit(self.max_points())
    }

    /// An accumulator to which nothing was offered yet.
    pub fn new(filter_to_ground: bool, max_points: Option<i64>) -> (acc: Accumulator)
        ensures
            acc.filter_to_ground() == filter_to_ground,
            acc.max_points() == max_points,
            acc.offered() == Seq::<PointRecord>::empty(),
            acc@ == Seq::<Row>::empty(),
            acc@ == acc.expected_rows(),
    {
        proof {
            reveal(Seq::filter);
            assert(rows_of(accepted(Seq::<PointRecord>::empty(), filter_to_ground, max_points))
                =~= Seq::<Row>::empty());
        }
        Accumulator {
            filter_to_ground,
            max_points,
            buffers: ColumnBuffers::new(),
            offered: Ghost(Seq::empty()),
        }
    }

    /// The number of rows accepted so far.
    pub fn len(&self) -> (n: usize)
        ensures
            n == self@.len(),
            self@ == self.expected_rows(),
    {
        proof {
            use_type_invariant(self);
        }
        self.buffers.len()
    }

    /// Whether the row limit is reached, so that reading the source may stop.
    pub fn is_full(&self) -> (full: bool)
        ensures
            full == self.full(),
    {
        let n = self.buffers.len() as u128;
        match self.max_points {
            Some(cap) => cap <= 0 || n >= cap as u128,
            None => n >= i64::MAX as u128,
        }
    }

    /// Offers the next point of the source. It is appended to every buffer,
    /// under the next feature identifier, if the filter lets it through and
    /// the accumulator is not full; else nothing changes.
    pub fn offer(&mut self, point: &PointRecord) -> (taken: bool)
        ensures
            final(self).filter_to_ground() == old(self).filter_to_ground(),
            final(self).max_points() == old(self).max_points(),
            final(self).offered() == old(self).offered().push(*point),
            taken == (!old(self).full() && passes(old(self).filter_to_ground(), *point)),
            final(self)@ == if taken {
                old(self)@.push(row_of(*point, old(self)@.len() as int))
            } else {
                old(self)@
            },
            final(self)@ == final(self).expected_rows(),
    {
        proof {
            use_type_invariant(&*self);
            lemma_accepted_push(self.offered@, *point, self.filter_to_ground, self.max_points);
            lemma_rows_of_push(
                accepted(self.offered@, self.filter_to_ground, self.max_points),
                *point,
            );
        }
        let taken = !self.is_full() && (!self.filter_to_ground || point.classification.is_ground());
        if taken {
            // The buffers are taken out, extended and put back, so that the
            // accumulator is whole at every step.
            let mut current = Accumulator::new(self.filter_to_ground, self.max_points);
            core::mem::swap(self, &mut current);
            let Accumulator { filter_to_ground, max_points, mut buffers, offered } = current;
            let fid = buffers.len() as i64;
            buffers.push_row(point, fid);
            *self = Accumulator {
                filter_to_ground,
                max_points,
                buffers,
                offered: Ghost(offered@.push(*point)),
            };
        } else {
            self.offered = Ghost(self.offered@.push(*point));
        }
        taken
    }

    /// Hands the buffers over. They are aligned and hold the rows of the
    /// points accepted among those offered.
    pub fn finish(self) -> (buffers: ColumnBuffers)
        ensures
            buffers.aligned(),
            buffers@ == self@,
            buffers@ == self.expected_rows(),
    {
        proof {
            use_type_invariant(&self);
        }
        self.buffers
    }
}

/// Accumulates the rows of a whole source: offers the points in order until
/// the source ends or the accumulator is full.
pub fn accumulate(points: &Vec<PointRecord>, filter_to_ground: bool, max_points: Option<i64>) -> (buffers:
    ColumnBuffers)
    ensures
        buffers.aligned(),
        buffers@ == rows_of(accepted(points@, filter_to_ground, max_points)),
{
    let mut acc = Accumulator::new(filter_to_ground, max_points);
    let mut seen: usize = 0;
    while seen < points.len() && !acc.is_full()
        invariant
            seen <= points.len(),
            acc.filter_to_ground() == filter_to_ground,
            acc.max_points() == max_points,
            acc.offered() == points@.take(seen as int),
            acc@ == acc.expected_rows(),
        decreases points.len() - seen,
    {
        acc.offer(&points[seen]);
        seen += 1;
    }
    proof {
        if seen < points.len() {
            lemma_accepted_full(points@, seen as int, filter_to_ground, max_points);
        } else {
            assert(points@.take(seen as int) =~= points@);
        }
    }
    acc.finish()
}

/// With the ground filter on, every accepted point is a ground point and
/// its row records the class name "Ground"; and as many rows are accepted
/// as the source has ground points, up to the row limit.
pub proof fn lemma_ground_filter(points: Seq<PointRecord>, max_points: Option<i64>)
    ensures
        forall|i: int|
            0 <= i < accepted(points, true, max_points).len() ==> {
                &&& (#[trigger] accepted(points, true, max_points)[i]).classification.code_spec()
                    == GROUND
                &&& rows_of(accepted(points, true, max_points))[i].classification == "Ground"@
            },
        accepted(points, true, max_points).len() == if matching(points, true).len() <= row_limit(
            max_points,
        ) {
            matching(points, true).len() as int
        } else {
            row_limit(max_points)
        },
{
    let rows = accepted(points, true, max_points);
    assert forall|i: int| 0 <= i < rows.len() implies {
        &&& (#[trigger] rows[i]).classification.code_spec() == GROUND
        &&& rows_of(rows)[i].classification == "Ground"@
    } by {
        points.lemma_filter_pred(|p: PointRecord| passes(true, p), i);
    }
}

/// With the ground filter on, as many rows are accepted as the source has
/// ground points, or as the cap admits if that is fewer; the cap is not
/// negative. Without a cap this is said of a source of at most `i64::MAX`
/// points: the feature identifier counts no further.
pub proof fn lemma_ground_count(points: Seq<PointRecord>, max_points: Option<i64>)
    requires
        max_points matches Some(cap) ==> cap >= 0,
        max_points is None ==> points.len() <= i64::MAX,
    ensures
        accepted(points, true, max_points).len() == match max_points {
            None => matching(points, true).len() as int,
            Some(cap) => if cap <= matching(points, true).len() {
                cap as int
            } else {
                matching(points, true).len() as int
            },
        },
{
    points.lemma_filter_len(|p: PointRecord| passes(true, p));
}

/// With a cap of `cap` rows, none of them negative, the number of rows is
/// the smaller of `cap` and the number of points that the filter lets
/// through.
pub proof fn lemma_row_cap(points: Seq<PointRecord>, filter_to_ground: bool, cap: i64)
    requires
        cap >= 0,
    ensures
        accepted(points, filter_to_ground, Some(cap)).len() == if cap <= matching(
            points,
            filter_to_ground,
        ).len() {
            cap as int
        } else {
            matching(points, filter_to_ground).len() as int
        },
{
}

} // verus!
