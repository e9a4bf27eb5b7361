//! Style types for table layout.
use vstd::prelude::*;
use crate::geometry::{Rect, Size, zero_rect};

verus! {

/// Whether table borders are collapsed or separated.
#[derive(Debug, Clone, Copy, PartialEq, Eq, Structural)]
pub enum BorderCollapse {
    /// Borders are separated (the default).
    Separate,
    /// Borders are collapsed into a single border.
    Collapse,
}

impl Default for BorderCollapse {
    fn default() -> (r: BorderCollapse)
        ensures
            r == BorderCollapse::Separate,
    {
        BorderCollapse::Separate
    }
}

/// Whether the table caption is placed at the top or bottom of the table.
#[derive(Debug, Clone, Copy, PartialEq, Eq, Structural)]
pub enum CaptionSide {
    /// Caption is placed at the top of the table (the default).
    Top,
    /// Caption is placed at the bottom of the table.
    Bottom,
}

impl Default for CaptionSide {
    fn default() -> (r: CaptionSide)
        ensures
            r == CaptionSide::Top,
    {
        CaptionSide::Top
    }
}

/// Which box the `size`, `min_size` and `max_size` of a node measure.
#[derive(Debug, Clone, Copy, PartialEq, Eq, Structural)]
pub enum BoxSizing {
    /// The sizes include padding and border (the default).
    BorderBox,
    /// The sizes measure the content box only.
    ContentBox,
}

impl Default for BoxSizing {
    fn default() -> (r: BoxSizing)
        ensures
            r == BoxSizing::BorderBox,
    {
        BoxSizing::BorderBox
    }
}

/// The set of styles required for a table layout container.
pub trait TableContainerStyle {
    /// Whether borders are collapsed or separated.
    fn border_collapse(&self) -> (r: BorderCollapse)
        default_ensures
            r == BorderCollapse::Separate,
    {
        BorderCollapse::Separate
    }

    /// The spacing between table borders (only applies when borders are separate).
    fn border_spacing(&self) -> (r: Option<i64>)
        default_ensures
            r is None,
    {
        None
    }

    /// The caption side (top or bottom).
    fn caption_side(&self) -> (r: CaptionSide)
        default_ensures
            r == CaptionSide::Top,
    {
        CaptionSide::Top
    }
}

/// The set of styles required for a table item (child of a table container).
pub trait TableItemStyle {
    /// Whether this item is a table cell.
    fn is_table_cell(&self) -> (r: bool)
        default_ensures
            !r,
    {
        false
    }

    /// Whether this item is a table row.
    fn is_table_row(&self) -> (r: bool)
        default_ensures
            !r,
    {
        false
    }
}

/// The style of a table container, with every percentage and `calc()`
/// expression already resolved against the parent's size, and any aspect
/// ratio already applied to `size`, `min_size` and `max_size`.
#[derive(Debug, Clone, Copy, PartialEq, Eq)]
pub struct TableStyle {
    /// Which box `size`, `min_size` and `max_size` measure.
    pub box_sizing: BoxSizing,
    /// The padding on each side.
    pub padding: Rect<i64>,
    /// The border width on each side.
    pub border: Rect<i64>,
    /// Whether borders are collapsed or separated.
    pub border_collapse: BorderCollapse,
    /// The horizontal and vertical spacing between cells, where given; it
    /// applies only where borders are separated.
    pub border_spacing: Size<Option<i64>>,
    /// The preferred size, where given.
    pub size: Size<Option<i64>>,
    /// The minimum size, where given.
    pub min_size: Size<Option<i64>>,
    /// The maximum size, where given.
    pub max_size: Size<Option<i64>>,
}

/// A style with separated borders and no padding, border, border spacing or
/// sizes, measuring the border box.
pub open spec fn default_table_style() -> TableStyle {
    TableStyle {
        box_sizing: BoxSizing::BorderBox,
        padding: zero_rect(),
        border: zero_rect(),
        border_collapse: BorderCollapse::Separate,
        border_spacing: Size { width: None, height: None },
        size: Size { width: None, height: None },
        min_size: Size { width: None, height: None },
        max_size: Size { width: None, height: None },
    }
}

impl Default for TableStyle {
    fn default() -> (r: TableStyle)
        ensures
            r == default_table_style(),
    {
        TableStyle {
            box_sizing: BoxSizing::BorderBox,
            padding: Rect::zero(),
            border: Rect::zero(),
            border_collapse: BorderCollapse::Separate,
            border_spacing: Size::none(),
            size: Size::none(),
            min_size: Size::none(),
            max_size: Size::none(),
        }
    }
}

/// A `TableStyle` reports its own border collapse. It keeps the default
/// `border_spacing`, `None`: that method gives one spacing for both axes,
/// while a `TableStyle` holds its spacing per axis in its `border_spacing`
/// field, which is what table layout reads.
impl TableContainerStyle for TableStyle {
    fn border_collapse(&self) -> (r: BorderCollapse)
        ensures
            r == self.border_collapse,
    {
        self.border_collapse
    }
}

} // verus!
