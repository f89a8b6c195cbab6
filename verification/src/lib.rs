//! A declarative plotting-command library.
//!
//! Callers describe charts, images and multi-pane layouts through fluent
//! builders; the result is an immutable command tree that a rendering
//! backend walks.  This crate holds the command model itself: interval
//! bounds, point-data normalization, series and chart models, pixel-grid
//! images, and the recursive layout structure, each with a verified
//! contract.

pub mod data_bound;
pub mod colors;
pub mod draw_command;
pub mod map_reduce;
pub mod point_data;

pub use draw_command::{plot, plot_chart, plot_image, plot_layout, DrawComand, IntoDrawCommand};
