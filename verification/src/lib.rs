//! CSS table layout, with its contracts proved by Verus.
//!
//! Lengths are `i64` counts of layout units whose sums and differences
//! saturate at the bounds of `i64` (see `length`). A table container's style
//! reaches the algorithm already resolved against the parent's size
//! (`style::TableStyle`), and the tree that holds the table measures and lays
//! out its rows (`tree::LayoutTableContainer`).

pub mod compute;
pub mod geometry;
pub mod laws;
pub mod length;
pub mod style;
pub mod tree;

pub use compute::{compute_table_layout, compute_table_layout_with_style};
pub use style::{BorderCollapse, CaptionSide, TableContainerStyle, TableItemStyle, TableStyle};
