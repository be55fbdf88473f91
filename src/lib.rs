//! Node positioning for a retained-mode layout engine: geometry values,
//! positioning modes and the resolution of a node's origin from its anchors.
//!
//! Lengths are integral layout units (`i64`).

pub mod decimal;
pub mod geometry;
pub mod lemmas;
pub mod position;
pub mod scaled;
