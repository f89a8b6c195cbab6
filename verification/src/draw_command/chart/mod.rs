//! The chart model: named, styled series grouped onto a primary and a
//! secondary y-axis, with the bounds reduction that sizes both axes.

pub mod chart;
pub mod chart_builder;
pub mod conversions;
pub mod series;
pub mod series_builder;
pub mod series_style;
pub mod series_ty;
