//! Generic conversions that let call sites pass raw data, pairs of data
//! and a name, pre-built series or builders wherever a chart or a series
//! is expected.

use crate::colors::{palette_spec, Rgba};
use crate::draw_command::chart::chart::Chart;
use crate::draw_command::chart::chart_builder::{builds_chart, spec_assign_color, ChartBuilder};
use crate::draw_command::chart::series::ChartSeries;
use crate::draw_command::chart::series_builder::ChartSeriesBuilder;
use crate::draw_command::chart::series_style::SeriesStyle;
use crate::draw_command::chart::series_ty::{ChartSeriesLineConfig, ChartSeriesType};
use crate::point_data::IntoData;
use vstd::prelude::*;

verus! {

/// A value that can stand for a pending series in a chart builder.
pub trait IntoChartSeriesBuilder: Sized {
    /// Whether the conversion is possible without loss.
    spec fn series_builder_ok(self) -> bool;

    /// How the resulting series builder relates to this value.
    spec fn series_builder_rel(self, b: ChartSeriesBuilder) -> bool;

    /// Converts this value into a series builder.
    fn into_series_builder(self) -> (r: ChartSeriesBuilder)
        requires
            self.series_builder_ok(),
        ensures
            self.series_builder_rel(r),
    ;
}

impl IntoChartSeriesBuilder for ChartSeries {
    open spec fn series_builder_ok(self) -> bool {
        true
    }

    /// The series is taken wholesale and automatic coloring is disabled.
    open spec fn series_builder_rel(self, b: ChartSeriesBuilder) -> bool {
        b.s == self && !b.auto_color
    }

    fn into_series_builder(self) -> (r: ChartSeriesBuilder) {
        ChartSeriesBuilder::default().series(self)
    }
}

impl IntoChartSeriesBuilder for ChartSeriesBuilder {
    open spec fn series_builder_ok(self) -> bool {
        true
    }

    open spec fn series_builder_rel(self, b: ChartSeriesBuilder) -> bool {
        b == self
    }

    fn into_series_builder(self) -> (r: ChartSeriesBuilder) {
        self
    }
}

impl<T: IntoData> IntoChartSeriesBuilder for T {
    open spec fn series_builder_ok(self) -> bool {
        self.data_ok()
    }

    /// A fresh builder carrying the normalized data.
    open spec fn series_builder_rel(self, b: ChartSeriesBuilder) -> bool {
        &&& b.s.data@ == self.spec_data()
        &&& b.s.name@ == Seq::<char>::empty()
        &&& b.s.chart_series_type == ChartSeriesType::Line(ChartSeriesLineConfig { dashed: false })
        &&& b.s.style == (SeriesStyle { color: Rgba { r: 0, g: 0, b: 0, a: 0 } })
        &&& b.auto_color
    }

    fn into_series_builder(self) -> (r: ChartSeriesBuilder) {
        ChartSeriesBuilder::default().data(self)
    }
}

impl<T: IntoData> IntoChartSeriesBuilder for (T, String) {
    open spec fn series_builder_ok(self) -> bool {
        self.0.data_ok()
    }

    /// A fresh builder carrying the normalized data and the given name.
    open spec fn series_builder_rel(self, b: ChartSeriesBuilder) -> bool {
        &&& b.s.data@ == self.0.spec_data()
        &&& b.s.name == self.1
        &&& b.s.chart_series_type == ChartSeriesType::Line(ChartSeriesLineConfig { dashed: false })
        &&& b.s.style == (SeriesStyle { color: Rgba { r: 0, g: 0, b: 0, a: 0 } })
        &&& b.auto_color
    }

    fn into_series_builder(self) -> (r: ChartSeriesBuilder) {
        ChartSeriesBuilder::default().data(self.0).name(self.1)
    }
}

/// A value that can stand for a whole chart.
pub trait IntoChart: Sized {
    /// Whether the conversion is possible without loss.
    spec fn chart_ok(self) -> bool;

    /// How the resulting chart relates to this value.
    spec fn chart_rel(self, c: Chart) -> bool;

    /// Converts this value into a chart.
    fn into_chart(self) -> (r: Chart)
        requires
            self.chart_ok(),
        ensures
            self.chart_rel(r),
    ;
}

impl IntoChart for Chart {
    open spec fn chart_ok(self) -> bool {
        true
    }

    open spec fn chart_rel(self, c: Chart) -> bool {
        c == self
    }

    fn into_chart(self) -> (r: Chart) {
        self
    }
}

impl IntoChart for ChartBuilder {
    open spec fn chart_ok(self) -> bool {
        true
    }

    open spec fn chart_rel(self, c: Chart) -> bool {
        builds_chart(self, c)
    }

    fn into_chart(self) -> (r: Chart) {
        self.build()
    }
}

/// How a one-series chart relates to the series-convertible value it was
/// built from: empty labels, margin 40, no secondary series, and exactly
/// one primary series, offered the first palette color.
pub open spec fn single_series_chart_rel<T: IntoChartSeriesBuilder>(v: T, c: Chart) -> bool {
    &&& c.x_label@ == Seq::<char>::empty()
    &&& c.y_label_l@ == Seq::<char>::empty()
    &&& c.y_label_r@ == Seq::<char>::empty()
    &&& c.title@ == Seq::<char>::empty()
    &&& c.margin == 40
    &&& c.series_r@.len() == 0
    &&& c.series_l@.len() == 1
    &&& exists|b: ChartSeriesBuilder|
        v.series_builder_rel(b) && c.series_l@[0] == #[trigger] spec_assign_color(
            b,
            palette_spec(),
            0,
        )
}

impl<T: IntoChartSeriesBuilder> IntoChart for T {
    open spec fn chart_ok(self) -> bool {
        self.series_builder_ok()
    }

    open spec fn chart_rel(self, c: Chart) -> bool {
        single_series_chart_rel(self, c)
    }

    fn into_chart(self) -> (r: Chart) {
        let b = ChartBuilder::default().add_series_l(self);
        let ghost sb = b.series_l@.last();
        let r = b.build();
        proof {
            assert(r.series_l@[0] == spec_assign_color(sb, palette_spec(), 0));
        }
        r
    }
}

/// How a chart relates to an ordered name-to-data mapping: empty labels,
/// margin 40, no secondary series, and one primary series per entry, in
/// entry order, named by its key, colored from the palette by position
/// (the default transparent black once the palette is exhausted).
pub open spec fn mapping_chart_series_rel<D: IntoData>(entries: Seq<(String, D)>, c: Chart) -> bool {
    &&& c.x_label@ == Seq::<char>::empty()
    &&& c.y_label_l@ == Seq::<char>::empty()
    &&& c.y_label_r@ == Seq::<char>::empty()
    &&& c.margin == 40
    &&& c.series_r@.len() == 0
    &&& c.series_l@.len() == entries.len()
    &&& forall|i: int|
        0 <= i < entries.len() ==> {
            let s = #[trigger] c.series_l@[i];
            &&& s.name == entries[i].0
            &&& s.data@ == entries[i].1.spec_data()
            &&& s.chart_series_type == ChartSeriesType::Line(
                ChartSeriesLineConfig { dashed: false },
            )
            &&& s.style == (SeriesStyle {
                color: if i < palette_spec().len() {
                    palette_spec()[i]
                } else {
                    Rgba { r: 0, g: 0, b: 0, a: 0 }
                },
            })
        }
}

impl<D: IntoData> IntoChart for Vec<(String, D)> {
    open spec fn chart_ok(self) -> bool {
        forall|i: int| 0 <= i < self@.len() ==> (#[trigger] self@[i]).1.data_ok()
    }

    open spec fn chart_rel(self, c: Chart) -> bool {
        mapping_chart_series_rel(self@, c) && c.title@ == Seq::<char>::empty()
    }

    fn into_chart(self) -> (r: Chart) {
        let ghost entries = self@;
        let mut b = ChartBuilder::default();
        let mut rest = self;
        while rest.len() > 0
            invariant
                entries.len() >= rest@.len(),
                rest@ =~= entries.subrange(entries.len() - rest@.len(), entries.len() as int),
                forall|i: int| 0 <= i < entries.len() ==> (#[trigger] entries[i]).1.data_ok(),
                b.c.series_l@.len() == 0,
                b.c.series_r@.len() == 0,
                b.c.x_label@ == Seq::<char>::empty(),
                b.c.y_label_l@ == Seq::<char>::empty(),
                b.c.y_label_r@ == Seq::<char>::empty(),
                b.c.title@ == Seq::<char>::empty(),
                b.c.margin == 40,
                b.p.colors@ == palette_spec(),
                b.series_r@.len() == 0,
                b.series_l@.len() == entries.len() - rest@.len(),
                forall|i: int|
                    0 <= i < entries.len() - rest@.len() ==> {
                        let sb = #[trigger] b.series_l@[i];
                        &&& sb.s.name == entries[i].0
                        &&& sb.s.data@ == entries[i].1.spec_data()
                        &&& sb.s.chart_series_type == ChartSeriesType::Line(
                            ChartSeriesLineConfig { dashed: false },
                        )
                        &&& sb.s.style == (SeriesStyle { color: Rgba { r: 0, g: 0, b: 0, a: 0 } })
                        &&& sb.auto_color
                    },
            decreases rest@.len(),
        {
            let ghost k = entries.len() - rest@.len();
            let entry = rest.remove(0);
            proof {
                assert(entry == entries[k]);
            }
            let (name, data) = entry;
            let ghost pre_b = b;
            b = b.add_series_l((data, name));
            proof {
                assert forall|i: int| 0 <= i < entries.len() - rest@.len() implies {
                    let sb = #[trigger] b.series_l@[i];
                    &&& sb.s.name == entries[i].0
                    &&& sb.s.data@ == entries[i].1.spec_data()
                    &&& sb.s.chart_series_type == ChartSeriesType::Line(
                        ChartSeriesLineConfig { dashed: false },
                    )
                    &&& sb.s.style == (SeriesStyle { color: Rgba { r: 0, g: 0, b: 0, a: 0 } })
                    &&& sb.auto_color
                } by {
                    if i == k {
                        assert(b.series_l@[i] == b.series_l@.last());
                    } else {
                        assert(b.series_l@[i] == pre_b.series_l@[i]);
                    }
                }
            }
        }
        let ghost bf = b;
        let r = b.build();
        proof {
            assert forall|i: int| 0 <= i < entries.len() implies {
                let s = #[trigger] r.series_l@[i];
                &&& s.name == entries[i].0
                &&& s.data@ == entries[i].1.spec_data()
                &&& s.chart_series_type == ChartSeriesType::Line(
                    ChartSeriesLineConfig { dashed: false },
                )
                &&& s.style == (SeriesStyle {
                    color: if i < palette_spec().len() {
                        palette_spec()[i]
                    } else {
                        Rgba { r: 0, g: 0, b: 0, a: 0 }
                    },
                })
            } by {
                assert(r.series_l@[i] == spec_assign_color(bf.series_l@[i], palette_spec(), i));
            }
        }
        r
    }
}

impl<D: IntoData> IntoChart for (Vec<(String, D)>, String) {
    open spec fn chart_ok(self) -> bool {
        forall|i: int| 0 <= i < self.0@.len() ==> (#[trigger] self.0@[i]).1.data_ok()
    }

    /// The mapping's chart, with the given title.
    open spec fn chart_rel(self, c: Chart) -> bool {
        mapping_chart_series_rel(self.0@, c) && c.title == self.1
    }

    fn into_chart(self) -> (r: Chart) {
        let mut c = self.0.into_chart();
        c.title = self.1;
        c
    }
}

} // verus!
