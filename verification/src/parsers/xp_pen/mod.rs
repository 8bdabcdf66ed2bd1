//! XP-Pen tablets: the standard report layout and its extended variants.
pub mod extended;
pub mod standard;
