//! The chart model and its combined bounds reduction.

use crate::data_bound::{min64, max64, DataBound, DataBound2D};
use crate::draw_command::chart::series::{points_bounds, ChartSeries};
use vstd::prelude::*;

verus! {

/// The bounds of one series, `None` when it has no points.
pub open spec fn series_bounds_opt(s: ChartSeries) -> Option<DataBound2D> {
    if s.data@.len() == 0 {
        None
    } else {
        Some(points_bounds(s.data@))
    }
}

/// Reduces the per-series bounds of a series group with the `max`-only
/// merge, skipping series without points.  This is the asymmetric rule
/// used for the primary group.
pub open spec fn reduce_bounds_max(ss: Seq<ChartSeries>) -> Option<DataBound2D>
    decreases ss.len(),
{
    if ss.len() == 0 {
        None
    } else {
        let prev = reduce_bounds_max(ss.drop_last());
        match series_bounds_opt(ss.last()) {
            None => prev,
            Some(b) => match prev {
                None => Some(b),
                Some(a) => Some(a.spec_max(b)),
            },
        }
    }
}

/// Reduces the per-series bounds of a series group with the full
/// min/max union, skipping series without points.  This is the rule used
/// for the secondary group.
pub open spec fn reduce_bounds_extend(ss: Seq<ChartSeries>) -> Option<DataBound2D>
    decreases ss.len(),
{
    if ss.len() == 0 {
        None
    } else {
        let prev = reduce_bounds_extend(ss.drop_last());
        match series_bounds_opt(ss.last()) {
            None => prev,
            Some(b) => match prev {
                None => Some(b),
                Some(a) => Some(a.spec_extend(b)),
            },
        }
    }
}

/// A chart: two independent series groups (left and right y-axis),
/// labels, a title and a margin.
#[derive(Debug, Clone)]
pub struct Chart {
    /// Primary series, associated with the left y-axis.
    pub series_l: Vec<ChartSeries>,
    /// Secondary series, associated with the right y-axis.
    pub series_r: Vec<ChartSeries>,
    pub x_label: String,
    pub y_label_l: String,
    pub y_label_r: String,
    pub title: String,
    pub margin: i32,
}

impl Chart {
    /// Returns the bounds of the chart's data: the x bounds, the primary
    /// y bounds and the secondary y bounds.
    ///
    /// The primary group is reduced with the `max`-only merge, the
    /// secondary group with the full union; the x bounds of both results
    /// are then joined with the full union.  Each component is `None`
    /// exactly when its group holds no points at all.
    pub fn bounds(&self) -> (r: (Option<DataBound>, Option<DataBound>, Option<DataBound>))
        ensures
            ({
                let l = reduce_bounds_max(self.series_l@);
                let rr = reduce_bounds_extend(self.series_r@);
                r.1 == (match l {
                    None => None::<DataBound>,
                    Some(b) => Some(b.y),
                }) && r.2 == (match rr {
                    None => None::<DataBound>,
                    Some(b) => Some(b.y),
                }) && r.0 == (match (l, rr) {
                    (None, None) => None::<DataBound>,
                    (Some(a), None) => Some(a.x),
                    (None, Some(b)) => Some(b.x),
                    (Some(a), Some(b)) => Some(
                        DataBound(min64(a.x.0, b.x.0), max64(a.x.1, b.x.1)),
                    ),
                })
            }),
    {
        let mut l: Option<DataBound2D> = None;
        let nl = self.series_l.len();
        for i in 0..nl
            invariant
                nl == self.series_l@.len(),
                l == reduce_bounds_max(self.series_l@.subrange(0, i as int)),
        {
            proof {
                let cur = self.series_l@.subrange(0, i + 1);
                assert(cur.drop_last() =~= self.series_l@.subrange(0, i as int));
                assert(cur.last() == self.series_l@[i as int]);
            }
            if let Some(b) = self.series_l[i].bounds() {
                l = match l {
                    None => Some(b),
                    Some(a) => Some(a.max(b)),
                };
            }
        }
        proof {
            assert(self.series_l@.subrange(0, nl as int) =~= self.series_l@);
        }
        let mut rr: Option<DataBound2D> = None;
        let nr = self.series_r.len();
        for i in 0..nr
            invariant
                nr == self.series_r@.len(),
                rr == reduce_bounds_extend(self.series_r@.subrange(0, i as int)),
        {
            proof {
                let cur = self.series_r@.subrange(0, i + 1);
                assert(cur.drop_last() =~= self.series_r@.subrange(0, i as int));
                assert(cur.last() == self.series_r@[i as int]);
            }
            if let Some(b) = self.series_r[i].bounds() {
                rr = match rr {
                    None => Some(b),
                    Some(a) => Some(a.extend_to_include_bound2d(b)),
                };
            }
        }
        proof {
            assert(self.series_r@.subrange(0, nr as int) =~= self.series_r@);
        }
        let x = match (l, rr) {
            (None, None) => None,
            (Some(a), None) => Some(a.x),
            (None, Some(b)) => Some(b.x),
            (Some(a), Some(b)) => Some(a.x.extend_to_include(b.x)),
        };
        let ly = match l {
            None => None,
            Some(b) => Some(b.y),
        };
        let ry = match rr {
            None => None,
            Some(b) => Some(b.y),
        };
        (x, ly, ry)
    }
}

} // verus!
