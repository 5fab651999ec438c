//! Synthetic geometric figures: circles and rectangles with randomly drawn
//! dimensions, the rule that decides when an area is representable, and the
//! checks that the command line and HTTP front ends apply before producing.
//!
//! Dimensions are IEEE-754 single-precision values held as their bit
//! patterns (`f32::to_bits`), so that every decision made on them is proved.

pub mod figures;
pub mod producer;
pub mod cli;
pub mod rest;
