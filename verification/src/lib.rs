//! Time-series ingestion and two-panel chart composition, verified with Verus.
//!
//! A payload of three named series of `[epochMillis, value | null]` pairs is decoded
//! into a `dataset::Dataset`; the composer turns a dataset and an annotation event
//! into a `chart::Chart`: for each of the two panels its axis bounds, its line, its
//! marker and its legend. Drawing the chart onto a surface is left to the caller.
//!
//! Numbers are held as IEEE 754 bit patterns and compared in the IEEE total order,
//! so the library itself never computes with floating point.

pub mod bounds;
pub mod chart;
pub mod dataset;
pub mod error;
pub mod layout;
pub mod sample;
pub mod series;
pub mod style;
pub mod timestamp;
pub mod value;
