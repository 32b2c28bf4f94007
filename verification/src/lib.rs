//! Samplers and presentation rules for a set of status-bar widgets.
//!
//! A widget turns raw operating-system readings into short pieces of text
//! ([`fragment`]). [`battery`] interprets the files of a power-supply
//! directory and [`memory`] renders memory and swap counters; [`markup`]
//! holds coloured renderings to use as render hooks, and [`schedule`] decides
//! when a widget is due to produce its next batch. [`chars`] and [`units`]
//! hold the text handling that the others share.

pub mod battery;
pub mod chars;
pub mod fragment;
pub mod markup;
pub mod memory;
pub mod schedule;
pub mod units;
