//! Fluent, self-consuming construction of one series.

use crate::colors::Rgba;
use crate::draw_command::chart::series::ChartSeries;
use crate::draw_command::chart::series_style::SeriesStyle;
use crate::draw_command::chart::series_ty::{ChartSeriesLineConfig, ChartSeriesType};
use crate::point_data::IntoData;
use vstd::prelude::*;

verus! {

/// An in-progress series, plus whether it still takes an automatic
/// palette color at build time.
#[derive(Debug, Clone)]
pub struct ChartSeriesBuilder {
    pub s: ChartSeries,
    pub auto_color: bool,
}

/// The state a fresh series builder starts in: an unnamed, empty, solid
/// line series with the default style, marked for automatic coloring.
pub open spec fn is_default_series_builder(b: ChartSeriesBuilder) -> bool {
    &&& b.s.name@ == Seq::<char>::empty()
    &&& b.s.data@ == Seq::<(i64, i64)>::empty()
    &&& b.s.chart_series_type == ChartSeriesType::Line(ChartSeriesLineConfig { dashed: false })
    &&& b.s.style == (SeriesStyle { color: Rgba { r: 0, g: 0, b: 0, a: 0 } })
    &&& b.auto_color
}

impl core::default::Default for ChartSeriesBuilder {
    /// A fresh builder: empty solid line series, automatic coloring.
    fn default() -> (r: Self)
        ensures
            is_default_series_builder(r),
    {
        ChartSeriesBuilder {
            s: ChartSeries {
                name: String::new(),
                data: Vec::new(),
                chart_series_type: ChartSeriesType::default(),
                style: SeriesStyle::default(),
            },
            auto_color: true,
        }
    }
}

impl ChartSeriesBuilder {
    /// Replaces the whole in-progress series and disables automatic
    /// coloring.
    pub fn series(self, series: ChartSeries) -> (r: Self)
        ensures
            r.s == series,
            !r.auto_color,
    {
        ChartSeriesBuilder { s: series, auto_color: false }
    }

    /// Sets the series name.
    pub fn name(self, name: String) -> (r: Self)
        ensures
            r == (ChartSeriesBuilder { s: ChartSeries { name, ..self.s }, ..self }),
    {
        let mut b = self;
        b.s.name = name;
        b
    }

    /// Sets the series data from any value that normalizes into points.
    pub fn data<D: IntoData>(self, data: D) -> (r: Self)
        requires
            data.data_ok(),
        ensures
            r.s.data@ == data.spec_data(),
            r.s.name == self.s.name,
            r.s.chart_series_type == self.s.chart_series_type,
            r.s.style == self.s.style,
            r.auto_color == self.auto_color,
    {
        let mut b = self;
        b.s.data = data.into_data();
        b
    }

    /// Re-enables automatic coloring.
    pub fn auto_color(self) -> (r: Self)
        ensures
            r == (ChartSeriesBuilder { auto_color: true, ..self }),
    {
        let mut b = self;
        b.auto_color = true;
        b
    }

    /// Sets an explicit color and disables automatic coloring.
    pub fn color(self, color: Rgba) -> (r: Self)
        ensures
            r == (ChartSeriesBuilder {
                s: ChartSeries { style: SeriesStyle { color }, ..self.s },
                auto_color: false,
            }),
    {
        let mut b = self;
        b.s.style.color = color;
        b.auto_color = false;
        b
    }

    /// Promotes the series type to a dashed line.
    pub fn dashed(self) -> (r: Self)
        ensures
            r == (ChartSeriesBuilder {
                s: ChartSeries {
                    chart_series_type: ChartSeriesType::Line(
                        ChartSeriesLineConfig { dashed: true },
                    ),
                    ..self.s
                },
                ..self
            }),
    {
        let mut b = self;
        b.s.chart_series_type = b.s.chart_series_type.dashed();
        b
    }

    /// Finalizes the series as it stands.
    pub fn build(self) -> (r: ChartSeries)
        ensures
            r == self.s,
    {
        self.s
    }

    /// The series this builder yields when offered the color `c`.
    pub open spec fn spec_build_with_color(self, c: Rgba) -> ChartSeries {
        if self.auto_color {
            ChartSeries { style: SeriesStyle { color: c }, ..self.s }
        } else {
            self.s
        }
    }

    /// Finalizes the series, taking the offered color when automatic
    /// coloring is still enabled.
    pub fn build_with_color(self, color: Rgba) -> (r: ChartSeries)
        ensures
            r == self.spec_build_with_color(color),
    {
        let mut s = self.s;
        if self.auto_color {
            s.style.color = color;
        }
        s
    }
}

} // verus!
