//! The kind of a series: a line (possibly dashed) or a scatter plot
//! (possibly unfilled).

use vstd::prelude::*;

verus! {

/// Configuration of a line series.
#[derive(Debug, Clone, Copy, PartialEq, Eq, Structural)]
pub struct ChartSeriesLineConfig {
    pub dashed: bool,
}

impl core::default::Default for ChartSeriesLineConfig {
    /// A solid line.
    fn default() -> (r: Self)
        ensures
            r == (ChartSeriesLineConfig { dashed: false }),
    {
        ChartSeriesLineConfig { dashed: false }
    }
}

/// Configuration of a scatter series.
#[derive(Debug, Clone, Copy, PartialEq, Eq, Structural)]
pub struct ChartSeriesScatterConfig {
    pub filled: bool,
}

impl core::default::Default for ChartSeriesScatterConfig {
    /// Filled markers.
    fn default() -> (r: Self)
        ensures
            r == (ChartSeriesScatterConfig { filled: true }),
    {
        ChartSeriesScatterConfig { filled: true }
    }
}

/// How a series is drawn.
#[derive(Debug, Clone, Copy, PartialEq, Eq, Structural)]
pub enum ChartSeriesType {
    Line(ChartSeriesLineConfig),
    Scatter(ChartSeriesScatterConfig),
}

impl core::default::Default for ChartSeriesType {
    /// A solid line.
    fn default() -> (r: Self)
        ensures
            r == ChartSeriesType::Line(ChartSeriesLineConfig { dashed: false }),
    {
        ChartSeriesType::Line(ChartSeriesLineConfig::default())
    }
}

impl ChartSeriesType {
    /// The line configuration, when this is a line series.
    pub fn get_line(self) -> (r: Option<ChartSeriesLineConfig>)
        ensures
            r == (match self {
                ChartSeriesType::Line(line) => Some(line),
                ChartSeriesType::Scatter(_) => None::<ChartSeriesLineConfig>,
            }),
    {
        match self {
            Self::Line(line) => Some(line),
            _ => None,
        }
    }

    /// Promotes this kind to a dashed line, whatever it was before.
    pub fn dashed(self) -> (r: Self)
        ensures
            r == ChartSeriesType::Line(ChartSeriesLineConfig { dashed: true }),
    {
        let mut line = match self.get_line() {
            Some(line) => line,
            None => ChartSeriesLineConfig::default(),
        };
        line.dashed = true;
        Self::Line(line)
    }

    /// Replaces this kind with a filled scatter plot.
    pub fn scatter(self) -> (r: Self)
        ensures
            r == ChartSeriesType::Scatter(ChartSeriesScatterConfig { filled: true }),
    {
        Self::Scatter(ChartSeriesScatterConfig::default())
    }

    /// Replaces this kind with an unfilled scatter plot.
    pub fn scatter_not_filled(self) -> (r: Self)
        ensures
            r == ChartSeriesType::Scatter(ChartSeriesScatterConfig { filled: false }),
    {
        Self::Scatter(ChartSeriesScatterConfig { filled: false })
    }
}

} // verus!
