//! Fluent, self-consuming construction of a chart, with automatic
//! palette-based color assignment at build time.

use crate::colors::{palette_spec, Palette, Rgba};
use crate::draw_command::chart::chart::Chart;
use crate::draw_command::chart::conversions::IntoChartSeriesBuilder;
use crate::draw_command::chart::series::ChartSeries;
use crate::draw_command::chart::series_builder::{
    is_default_series_builder, ChartSeriesBuilder,
};
use vstd::prelude::*;

verus! {

/// An in-progress chart: the fixed fields, the palette that will color
/// unstyled series, and the pending series builders for both axes.
pub struct ChartBuilder {
    pub c: Chart,
    pub p: Palette,
    pub series_l: Vec<ChartSeriesBuilder>,
    pub series_r: Vec<ChartSeriesBuilder>,
}

/// The series a pending builder yields when it is the `k`-th series
/// built: it is offered the `k`-th palette color, and keeps its own
/// style once the palette is exhausted.
pub open spec fn spec_assign_color(sb: ChartSeriesBuilder, pal: Seq<Rgba>, k: int) -> ChartSeries {
    if 0 <= k < pal.len() {
        sb.spec_build_with_color(pal[k])
    } else {
        sb.s
    }
}

/// The state a fresh chart builder starts in: an empty chart with empty
/// labels and margin 40, the default palette, and no pending series.
pub open spec fn is_default_chart_builder(b: ChartBuilder) -> bool {
    &&& b.c.series_l@ == Seq::<ChartSeries>::empty()
    &&& b.c.series_r@ == Seq::<ChartSeries>::empty()
    &&& b.c.x_label@ == Seq::<char>::empty()
    &&& b.c.y_label_l@ == Seq::<char>::empty()
    &&& b.c.y_label_r@ == Seq::<char>::empty()
    &&& b.c.title@ == Seq::<char>::empty()
    &&& b.c.margin == 40
    &&& b.p.colors@ == palette_spec()
    &&& b.series_l@ == Seq::<ChartSeriesBuilder>::empty()
    &&& b.series_r@ == Seq::<ChartSeriesBuilder>::empty()
}

/// How a finished chart relates to the builder it came from: the fixed
/// fields carry over; the pending series of each group are appended to
/// the chart's groups in order, each offered the palette color at its
/// position in the combined build order (primary group first).
pub open spec fn builds_chart(b: ChartBuilder, c: Chart) -> bool {
    let pal = b.p.colors@;
    let nl = b.series_l@.len();
    &&& c.x_label == b.c.x_label
    &&& c.y_label_l == b.c.y_label_l
    &&& c.y_label_r == b.c.y_label_r
    &&& c.title == b.c.title
    &&& c.margin == b.c.margin
    &&& c.series_l@.len() == b.c.series_l@.len() + nl
    &&& forall|i: int|
        0 <= i < b.c.series_l@.len() ==> c.series_l@[i] == #[trigger] b.c.series_l@[i]
    &&& forall|i: int|
        0 <= i < nl ==> c.series_l@[b.c.series_l@.len() + i] == spec_assign_color(
            #[trigger] b.series_l@[i],
            pal,
            i,
        )
    &&& c.series_r@.len() == b.c.series_r@.len() + b.series_r@.len()
    &&& forall|i: int|
        0 <= i < b.c.series_r@.len() ==> c.series_r@[i] == #[trigger] b.c.series_r@[i]
    &&& forall|i: int|
        0 <= i < b.series_r@.len() ==> c.series_r@[b.c.series_r@.len() + i] == spec_assign_color(
            #[trigger] b.series_r@[i],
            pal,
            nl + i,
        )
}

impl core::default::Default for ChartBuilder {
    /// A fresh chart builder.
    fn default() -> (r: Self)
        ensures
            is_default_chart_builder(r),
    {
        ChartBuilder {
            c: Chart {
                series_l: Vec::new(),
                series_r: Vec::new(),
                x_label: String::new(),
                y_label_l: String::new(),
                y_label_r: String::new(),
                title: String::new(),
                margin: 40,
            },
            p: Palette::default(),
            series_l: Vec::new(),
            series_r: Vec::new(),
        }
    }
}

impl ChartBuilder {
    /// Appends a pending series to the primary (left-axis) group.
    pub fn add_series_l<S: IntoChartSeriesBuilder>(self, series: S) -> (r: Self)
        requires
            series.series_builder_ok(),
        ensures
            r.c == self.c,
            r.p.colors@ == self.p.colors@,
            r.series_r@ == self.series_r@,
            r.series_l@.len() == self.series_l@.len() + 1,
            forall|i: int|
                0 <= i < self.series_l@.len() ==> r.series_l@[i] == #[trigger] self.series_l@[i],
            series.series_builder_rel(r.series_l@.last()),
    {
        let mut b = self;
        b.series_l.push(series.into_series_builder());
        b
    }

    /// Appends a pending primary series configured by `f` from a fresh
    /// series builder.
    pub fn add_series_l_with<F: FnOnce(ChartSeriesBuilder) -> ChartSeriesBuilder>(
        self,
        f: F,
    ) -> (r: Self)
        requires
            forall|b: ChartSeriesBuilder|
                is_default_series_builder(b) ==> #[trigger] call_requires(f, (b,)),
        ensures
            r.c == self.c,
            r.p.colors@ == self.p.colors@,
            r.series_r@ == self.series_r@,
            r.series_l@.len() == self.series_l@.len() + 1,
            forall|i: int|
                0 <= i < self.series_l@.len() ==> r.series_l@[i] == #[trigger] self.series_l@[i],
            exists|b0: ChartSeriesBuilder|
                is_default_series_builder(b0) && #[trigger] call_ensures(
                    f,
                    (b0,),
                    r.series_l@.last(),
                ),
    {
        let csb = ChartSeriesBuilder::default();
        self.add_series_l(f(csb))
    }

    /// Appends a pending series to the secondary (right-axis) group.
    pub fn add_series_r<S: IntoChartSeriesBuilder>(self, series: S) -> (r: Self)
        requires
            series.series_builder_ok(),
        ensures
            r.c == self.c,
            r.p.colors@ == self.p.colors@,
            r.series_l@ == self.series_l@,
            r.series_r@.len() == self.series_r@.len() + 1,
            forall|i: int|
                0 <= i < self.series_r@.len() ==> r.series_r@[i] == #[trigger] self.series_r@[i],
            series.series_builder_rel(r.series_r@.last()),
    {
        let mut b = self;
        b.series_r.push(series.into_series_builder());
        b
    }

    /// Appends a pending secondary series configured by `f` from a fresh
    /// series builder.
    pub fn add_series_r_with<F: FnOnce(ChartSeriesBuilder) -> ChartSeriesBuilder>(
        self,
        f: F,
    ) -> (r: Self)
        requires
            forall|b: ChartSeriesBuilder|
                is_default_series_builder(b) ==> #[trigger] call_requires(f, (b,)),
        ensures
            r.c == self.c,
            r.p.colors@ == self.p.colors@,
            r.series_l@ == self.series_l@,
            r.series_r@.len() == self.series_r@.len() + 1,
            forall|i: int|
                0 <= i < self.series_r@.len() ==> r.series_r@[i] == #[trigger] self.series_r@[i],
            exists|b0: ChartSeriesBuilder|
                is_default_series_builder(b0) && #[trigger] call_ensures(
                    f,
                    (b0,),
                    r.series_r@.last(),
                ),
    {
        let csb = ChartSeriesBuilder::default();
        self.add_series_r(f(csb))
    }

    /// Sets the x-axis label.
    pub fn x_label(self, label: String) -> (r: Self)
        ensures
            r == (ChartBuilder { c: Chart { x_label: label, ..self.c }, ..self }),
    {
        let mut b = self;
        b.c.x_label = label;
        b
    }

    /// Sets the primary (left) y-axis label.
    pub fn y_label_l(self, label: String) -> (r: Self)
        ensures
            r == (ChartBuilder { c: Chart { y_label_l: label, ..self.c }, ..self }),
    {
        let mut b = self;
        b.c.y_label_l = label;
        b
    }

    /// Sets the secondary (right) y-axis label.
    pub fn y_label_r(self, label: String) -> (r: Self)
        ensures
            r == (ChartBuilder { c: Chart { y_label_r: label, ..self.c }, ..self }),
    {
        let mut b = self;
        b.c.y_label_r = label;
        b
    }

    /// Sets the chart title.
    pub fn title(self, title: String) -> (r: Self)
        ensures
            r == (ChartBuilder { c: Chart { title, ..self.c }, ..self }),
    {
        let mut b = self;
        b.c.title = title;
        b
    }

    /// Sets the chart margin.
    pub fn margin(self, margin: i32) -> (r: Self)
        ensures
            r == (ChartBuilder { c: Chart { margin, ..self.c }, ..self }),
    {
        let mut b = self;
        b.c.margin = margin;
        b
    }

    /// Finalizes the chart: assigns palette colors in order, primary
    /// series first, to every pending series that still takes one.
    pub fn build(self) -> (r: Chart)
        ensures
            builds_chart(self, r),
    {
        let ghost b0 = self;
        let ChartBuilder { c, p, series_l, series_r } = self;
        let mut chart = c;
        let mut colors = p.iter();
        let ghost pal = b0.p.colors@;
        let ghost orig_l = series_l@;
        let ghost orig_r = series_r@;
        let ghost base_l = chart.series_l@.len() as int;
        let ghost base_r = chart.series_r@.len() as int;
        let mut rest = series_l;
        while rest.len() > 0
            invariant
                0 <= base_l,
                0 <= base_r,
                orig_l.len() >= rest@.len(),
                rest@ =~= orig_l.subrange(
                    orig_l.len() - rest@.len(),
                    orig_l.len() as int,
                ),
                colors.palette.colors@ == pal,
                colors.i == vstd::math::min(orig_l.len() - rest@.len(), pal.len() as int),
                chart.series_l@.len() == base_l + (orig_l.len() - rest@.len()),
                forall|i: int| 0 <= i < base_l ==> chart.series_l@[i] == b0.c.series_l@[i],
                forall|i: int|
                    0 <= i < orig_l.len() - rest@.len() ==> chart.series_l@[base_l + i]
                        == spec_assign_color(#[trigger] orig_l[i], pal, i),
                chart.series_r@ == b0.c.series_r@,
                chart.x_label == b0.c.x_label,
                chart.y_label_l == b0.c.y_label_l,
                chart.y_label_r == b0.c.y_label_r,
                chart.title == b0.c.title,
                chart.margin == b0.c.margin,
            decreases rest@.len(),
        {
            let ghost k = orig_l.len() - rest@.len();
            let sb = rest.remove(0);
            proof {
                assert(sb == orig_l[k]);
            }
            let s = match colors.next() {
                Some(col) => sb.build_with_color(col),
                None => sb.build(),
            };
            proof {
                assert(s == spec_assign_color(orig_l[k], pal, k));
            }
            let ghost pre_list = chart.series_l@;
            chart.series_l.push(s);
            proof {
                assert forall|i: int|
                    0 <= i < orig_l.len() - rest@.len() implies chart.series_l@[base_l + i]
                    == spec_assign_color(#[trigger] orig_l[i], pal, i) by {
                    if i == k {
                        assert(chart.series_l@[base_l + k] == s);
                    } else {
                        assert(chart.series_l@[base_l + i] == pre_list[base_l + i]);
                    }
                }
            }
        }
        let ghost nl = orig_l.len() as int;
        let mut rest = series_r;
        while rest.len() > 0
            invariant
                0 <= base_l,
                0 <= base_r,
                0 <= nl,
                orig_r.len() >= rest@.len(),
                rest@ =~= orig_r.subrange(
                    orig_r.len() - rest@.len(),
                    orig_r.len() as int,
                ),
                colors.palette.colors@ == pal,
                colors.i == vstd::math::min(nl + orig_r.len() - rest@.len(), pal.len() as int),
                chart.series_r@.len() == base_r + (orig_r.len() - rest@.len()),
                forall|i: int| 0 <= i < base_r ==> chart.series_r@[i] == b0.c.series_r@[i],
                forall|i: int|
                    0 <= i < orig_r.len() - rest@.len() ==> chart.series_r@[base_r + i]
                        == spec_assign_color(#[trigger] orig_r[i], pal, nl + i),
                chart.series_l@.len() == base_l + nl,
                forall|i: int| 0 <= i < base_l ==> chart.series_l@[i] == b0.c.series_l@[i],
                forall|i: int|
                    0 <= i < nl ==> chart.series_l@[base_l + i] == spec_assign_color(
                        #[trigger] orig_l[i],
                        pal,
                        i,
                    ),
                chart.x_label == b0.c.x_label,
                chart.y_label_l == b0.c.y_label_l,
                chart.y_label_r == b0.c.y_label_r,
                chart.title == b0.c.title,
                chart.margin == b0.c.margin,
            decreases rest@.len(),
        {
            let ghost k = orig_r.len() - rest@.len();
            let sb = rest.remove(0);
            proof {
                assert(sb == orig_r[k]);
            }
            let s = match colors.next() {
                Some(col) => sb.build_with_color(col),
                None => sb.build(),
            };
            proof {
                assert(s == spec_assign_color(orig_r[k], pal, nl + k));
            }
            let ghost pre_list = chart.series_r@;
            chart.series_r.push(s);
            proof {
                assert forall|i: int|
                    0 <= i < orig_r.len() - rest@.len() implies chart.series_r@[base_r + i]
                    == spec_assign_color(#[trigger] orig_r[i], pal, nl + i) by {
                    if i == k {
                        assert(chart.series_r@[base_r + k] == s);
                    } else {
                        assert(chart.series_r@[base_r + i] == pre_list[base_r + i]);
                    }
                }
            }
        }
        chart
    }
}

} // verus!
