//! A verified cutting-parameter engine for rotary tools (drills and mills).
//!
//! Given a workpiece material, a tool diameter, a flute count and the
//! machine's spindle limits, the engine derives recommended spindle-speed
//! and feed-rate ranges from a built-in material catalog.
//!
//! Every quantity is a fixed-point integer; the conventions are laid out in
//! [`units`]. The catalog lives in [`catalog`], the diameter-indexed feed
//! interpolation in [`interp`], the text-input parsers in [`parse`], and the
//! state record with its queries and update rules in [`state`].

pub mod arith;
pub mod catalog;
pub mod interp;
pub mod parse;
pub mod state;
pub mod units;
