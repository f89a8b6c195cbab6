//! One plotted dataset and its bounding-box reduction.

use crate::data_bound::{min64, max64, DataBound, DataBound2D};
use crate::draw_command::chart::series_style::SeriesStyle;
use crate::draw_command::chart::series_ty::ChartSeriesType;
use vstd::prelude::*;

verus! {

/// A named, styled, typed ordered sequence of points.
#[derive(Debug, Clone)]
pub struct ChartSeries {
    pub name: String,
    pub data: Vec<(i64, i64)>,
    pub chart_series_type: ChartSeriesType,
    pub style: SeriesStyle,
}

/// The bounding box of a non-empty point sequence: the fold that seeds
/// with the first point's degenerate interval and widens it point by
/// point.  Meaningless on an empty sequence.
pub open spec fn points_bounds(data: Seq<(i64, i64)>) -> DataBound2D
    decreases data.len(),
{
    if data.len() <= 1 {
        DataBound2D { x: DataBound(data[0].0, data[0].0), y: DataBound(data[0].1, data[0].1) }
    } else {
        let prev = points_bounds(data.drop_last());
        let p = data.last();
        DataBound2D {
            x: DataBound(min64(prev.x.0, p.0), max64(prev.x.1, p.0)),
            y: DataBound(min64(prev.y.0, p.1), max64(prev.y.1, p.1)),
        }
    }
}

/// The bounding box of a non-empty point sequence contains every point,
/// on both axes independently.
pub proof fn lemma_points_bounds_contain(data: Seq<(i64, i64)>)
    requires
        data.len() > 0,
    ensures
        forall|i: int|
            0 <= i < data.len() ==> {
                let b = points_bounds(data);
                b.x.0 <= (#[trigger] data[i]).0 <= b.x.1 && b.y.0 <= data[i].1 <= b.y.1
            },
    decreases data.len(),
{
    if data.len() > 1 {
        lemma_points_bounds_contain(data.drop_last());
        assert forall|i: int| 0 <= i < data.len() implies {
            let b = points_bounds(data);
            b.x.0 <= (#[trigger] data[i]).0 <= b.x.1 && b.y.0 <= data[i].1 <= b.y.1
        } by {
            if i < data.len() - 1 {
                assert(data.drop_last()[i] == data[i]);
            }
        }
    }
}

impl ChartSeries {
    /// The bounds of this series' data: `None` when there are no points,
    /// else the running bounding box over all points.
    pub fn bounds(&self) -> (r: Option<DataBound2D>)
        ensures
            r == (if self.data@.len() == 0 {
                None::<DataBound2D>
            } else {
                Some(points_bounds(self.data@))
            }),
    {
        if self.data.len() == 0 {
            return None;
        }
        let first = self.data[0];
        let mut acc = DataBound2D::from_point(first);
        proof {
            assert(self.data@.subrange(0, 1).len() == 1);
            assert(self.data@.subrange(0, 1)[0] == first);
        }
        let n = self.data.len();
        for i in 1..n
            invariant
                1 <= i <= n,
                n == self.data@.len(),
                acc == points_bounds(self.data@.subrange(0, i as int)),
        {
            let p = self.data[i];
            proof {
                let pre = self.data@.subrange(0, i as int);
                let cur = self.data@.subrange(0, i + 1);
                assert(cur.drop_last() =~= pre);
                assert(cur.last() == p);
            }
            acc = acc.extend_to_include_bound(p.0, p.1);
        }
        proof {
            assert(self.data@.subrange(0, n as int) =~= self.data@);
        }
        Some(acc)
    }
}

} // verus!
