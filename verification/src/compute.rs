//! The CSS table layout algorithm.
//!
//! A table container lays out its children as rows, row-major:
//!
//! 1. measure each row's min-content and max-content width;
//! 2. determine the table's content width from those measurements;
//! 3. measure each row's height at that width;
//! 4. stack the rows vertically inside the table, with the vertical border
//!    spacing above the first row, between rows and below the last.
//!
//! Each row is measured and laid out by the tree as an opaque container: every
//! row gets the same definite width and lays out its own cells. The contract of
//! `compute_table_layout` states its output and the layouts it stores over
//! what the tree reports through the spec functions of `LayoutTableContainer`.
use vstd::prelude::*;
use crate::geometry::{Line, Point, Rect, Size, axis_sums, rect_sum, zero_rect, zero_size};
use crate::length::{
    add_len, add_opt, clamp_len, clamp_opt, len_clamp, len_max, len_min, max_len, max_opt, min_len,
    opt_add, opt_clamp, opt_max, opt_or, opt_sub, or_opt, sat, sub_len, sub_opt,
};
use crate::style::{BorderCollapse, BoxSizing, TableContainerStyle, TableStyle};
use crate::tree::{
    AvailableSpace, Layout, LayoutInput, LayoutOutput, LayoutTableContainer, NodeId,
    RequestedAxis, RunMode, SizingMode, output_of,
};

verus! {

/// The sizes of a table container that follow from its style and the layout
/// inputs alone, before any row is measured.
#[derive(Debug, Clone, Copy, PartialEq, Eq)]
pub struct TableSizing {
    /// The total padding and border along each axis.
    pub padding_border: Size<i64>,
    /// The minimum border-box size, where given.
    pub min_size: Size<Option<i64>>,
    /// The maximum border-box size, where given.
    pub max_size: Size<Option<i64>>,
    /// The border-box size fixed by the inputs or the style, where fixed.
    pub known: Size<Option<i64>>,
    /// The content-box size fixed by the inputs or the style, where fixed.
    pub inner: Size<Option<i64>>,
    /// The minimum content-box size, where given.
    pub content_min: Size<Option<i64>>,
    /// The maximum content-box size, where given.
    pub content_max: Size<Option<i64>>,
    /// The horizontal and vertical border spacing (zero where not given or
    /// where borders are collapsed).
    pub spacing: Size<i64>,
}

// ---------------------------------------------------------------------------
// The model
// ---------------------------------------------------------------------------

/// The total padding and border of `style` along each axis.
pub open spec fn padding_border_of(style: TableStyle) -> Size<i64> {
    axis_sums(rect_sum(style.padding, style.border))
}

/// What is added to the styled sizes to turn them into border-box sizes.
pub open spec fn box_sizing_adjustment(style: TableStyle) -> Size<i64> {
    match style.box_sizing {
        BoxSizing::ContentBox => padding_border_of(style),
        BoxSizing::BorderBox => zero_size(),
    }
}

/// A styled size turned into a border-box size.
pub open spec fn adjusted(s: Size<Option<i64>>, adjustment: Size<i64>) -> Size<Option<i64>> {
    Size { width: add_opt(s.width, adjustment.width), height: add_opt(s.height, adjustment.height) }
}

/// The size that a minimum and a maximum fix together: the minimum, where the
/// maximum does not exceed it.
pub open spec fn fixed_by_bounds(lo: Option<i64>, hi: Option<i64>) -> Option<i64> {
    match (lo, hi) {
        (Some(l), Some(h)) => if h <= l {
            Some(l)
        } else {
            None
        },
        _ => None,
    }
}

/// An optional length, or zero where absent.
pub open spec fn or_zero(v: Option<i64>) -> i64 {
    match v {
        Some(x) => x,
        None => 0,
    }
}

/// The border spacing of `style` along each axis: zero where not given, and
/// zero where borders are collapsed.
pub open spec fn spacing_of(style: TableStyle) -> Size<i64> {
    match style.border_collapse {
        BorderCollapse::Separate => Size {
            width: or_zero(style.border_spacing.width),
            height: or_zero(style.border_spacing.height),
        },
        BorderCollapse::Collapse => zero_size(),
    }
}

/// The sizes of a table container that follow from `style` and `inputs`.
pub open spec fn table_sizing_spec(style: TableStyle, inputs: LayoutInput) -> TableSizing {
    let pb = padding_border_of(style);
    let adjustment = box_sizing_adjustment(style);
    let min_size = adjusted(style.min_size, adjustment);
    let max_size = adjusted(style.max_size, adjustment);
    let styled = adjusted(style.size, adjustment);
    let clamped = match inputs.sizing_mode {
        SizingMode::InherentSize => Size {
            width: clamp_opt(styled.width, min_size.width, max_size.width),
            height: clamp_opt(styled.height, min_size.height, max_size.height),
        },
        SizingMode::ContentSize => Size { width: None, height: None },
    };
    let known = Size {
        width: max_opt(
            or_opt(
                or_opt(
                    inputs.known_dimensions.width,
                    fixed_by_bounds(min_size.width, max_size.width),
                ),
                clamped.width,
            ),
            pb.width,
        ),
        height: max_opt(
            or_opt(
                or_opt(
                    inputs.known_dimensions.height,
                    fixed_by_bounds(min_size.height, max_size.height),
                ),
                clamped.height,
            ),
            pb.height,
        ),
    };
    TableSizing {
        padding_border: pb,
        min_size,
        max_size,
        known,
        inner: Size { width: sub_opt(known.width, pb.width), height: sub_opt(known.height, pb.height) },
        content_min: Size {
            width: sub_opt(min_size.width, pb.width),
            height: sub_opt(min_size.height, pb.height),
        },
        content_max: Size {
            width: sub_opt(max_size.width, pb.width),
            height: sub_opt(max_size.height, pb.height),
        },
        spacing: spacing_of(style),
    }
}

/// The output of a size computation that the known border-box size already
/// answers: both extents known, or the width known where only the width is
/// asked for. `None` where the rows have to be measured.
pub open spec fn short_circuit_spec(inputs: LayoutInput, known: Size<Option<i64>>) -> Option<
    LayoutOutput,
> {
    match inputs.run_mode {
        RunMode::ComputeSize => match (known.width, known.height) {
            (Some(w), Some(h)) => Some(output_of(Size { width: w, height: h }, zero_size())),
            (Some(w), None) => match inputs.axis {
                RequestedAxis::Horizontal => Some(
                    output_of(Size { width: w, height: 0 }, zero_size()),
                ),
                _ => None,
            },
            _ => None,
        },
        _ => None,
    }
}

/// The largest of the lengths in `s`, and at least zero.
pub open spec fn seq_max0(s: Seq<i64>) -> i64
    decreases s.len(),
{
    if s.len() == 0 {
        0
    } else {
        max_len(seq_max0(s.drop_last()), s.last())
    }
}

/// The saturating sum of the lengths in `s`, added up from the first.
pub open spec fn seq_sum(s: Seq<i64>) -> i64
    decreases s.len(),
{
    if s.len() == 0 {
        0
    } else {
        sat(seq_sum(s.drop_last()) + s.last())
    }
}

/// The exact sum of the lengths in `s`.
pub open spec fn seq_total(s: Seq<i64>) -> int
    decreases s.len(),
{
    if s.len() == 0 {
        0
    } else {
        seq_total(s.drop_last()) + s.last()
    }
}

/// The table's intrinsic content width: the widest row plus the border
/// spacing on the left and on the right.
pub open spec fn intrinsic_width_spec(row_widths: Seq<i64>, spacing: i64) -> i64 {
    sat(seq_max0(row_widths) + sat(spacing + spacing))
}

/// The width that a table takes in `available` space when its width is not
/// fixed: shrink-to-fit between its min-content and max-content widths.
pub open spec fn fit_width(available: AvailableSpace, min_content: i64, max_content: i64) -> i64 {
    match available {
        AvailableSpace::Definite(a) => min_len(max_len(a, min_content), max_content),
        AvailableSpace::MinContent => min_content,
        AvailableSpace::MaxContent => max_content,
    }
}

/// The table's content width.
pub open spec fn content_width_spec(
    sizing: TableSizing,
    available: AvailableSpace,
    min_content: i64,
    max_content: i64,
) -> i64 {
    let base = match sizing.inner.width {
        Some(w) => w,
        None => fit_width(available, min_content, max_content),
    };
    max_len(clamp_len(base, sizing.content_min.width, sizing.content_max.width), 0)
}

/// The width each row is given: the content width less the border spacing on
/// the left and on the right.
pub open spec fn row_width_spec(content_width: i64, spacing: i64) -> i64 {
    max_len(sat(content_width - sat(spacing + spacing)), 0)
}

/// The vertical border spacing of a table with `rows` rows: one gap above each
/// row and one below the last. An empty table thus has one gap.
pub open spec fn spacing_total_spec(rows: nat, spacing: i64) -> i64 {
    sat((rows + 1) * spacing)
}

/// The table's content height.
pub open spec fn content_height_spec(sizing: TableSizing, row_heights: Seq<i64>) -> i64 {
    let base = match sizing.inner.height {
        Some(h) => h,
        None => sat(
            seq_sum(row_heights) + spacing_total_spec(row_heights.len(), sizing.spacing.height),
        ),
    };
    max_len(clamp_len(base, sizing.content_min.height, sizing.content_max.height), 0)
}

/// The border-box size for a content size and the padding and border around it.
pub open spec fn outer_size_spec(content: Size<i64>, padding_border: Size<i64>) -> Size<i64> {
    Size {
        width: sat(content.width + padding_border.width),
        height: sat(content.height + padding_border.height),
    }
}

/// The output of a table layout that measures its rows: `max_widths`,
/// `min_widths` and `heights` are the rows' max-content widths, min-content
/// widths and heights at the row width.
pub open spec fn table_output_spec(
    style: TableStyle,
    inputs: LayoutInput,
    max_widths: Seq<i64>,
    min_widths: Seq<i64>,
    heights: Seq<i64>,
) -> LayoutOutput {
    let sizing = table_sizing_spec(style, inputs);
    let max_content = intrinsic_width_spec(max_widths, sizing.spacing.width);
    let min_content = intrinsic_width_spec(min_widths, sizing.spacing.width);
    let content = Size {
        width: content_width_spec(
            sizing,
            inputs.available_space.width,
            min_content,
            max_content,
        ),
        height: content_height_spec(sizing, heights),
    };
    output_of(outer_size_spec(content, sizing.padding_border), content)
}

/// Whether `output` is what laying out a table with `style` and `inputs`
/// gives, for some number of rows and some measurements of them.
pub open spec fn is_table_output(style: TableStyle, inputs: LayoutInput, output: LayoutOutput) -> bool {
    match short_circuit_spec(inputs, table_sizing_spec(style, inputs).known) {
        Some(o) => output == o,
        None => exists|max_widths: Seq<i64>, min_widths: Seq<i64>, heights: Seq<i64>|
            {
                &&& min_widths.len() == max_widths.len()
                &&& heights.len() == max_widths.len()
                &&& output == #[trigger] table_output_spec(
                    style,
                    inputs,
                    max_widths,
                    min_widths,
                    heights,
                )
            },
    }
}

/// The position of the first row: inside the padding and border, past the
/// border spacing.
pub open spec fn first_row_origin_spec(style: TableStyle, spacing: Size<i64>) -> Point<i64> {
    Point {
        x: sat(sat(style.padding.left + style.border.left) + spacing.width),
        y: sat(sat(style.padding.top + style.border.top) + spacing.height),
    }
}

/// The vertical position of the row after one at `y` of height `height`.
pub open spec fn next_row_y(y: i64, height: i64, spacing: i64) -> i64 {
    sat(sat(y + height) + spacing)
}

/// The vertical position of the row after the rows of `heights`, the first of
/// which is at `start`.
pub open spec fn row_y_spec(start: i64, heights: Seq<i64>, spacing: i64) -> i64
    decreases heights.len(),
{
    if heights.len() == 0 {
        start
    } else {
        next_row_y(row_y_spec(start, heights.drop_last(), spacing), heights.last(), spacing)
    }
}

/// The height a row is given: in a table of one row, the content height less
/// the vertical border spacing above and below it; otherwise none.
pub open spec fn row_known_height_spec(rows: nat, content_height: i64, spacing: i64) -> Option<
    i64,
> {
    if rows == 1 {
        Some(sat(content_height - sat(spacing + spacing)))
    } else {
        None
    }
}

/// The layout of a row: at `location`, with the size its own layout gave it.
pub open spec fn row_layout_spec(order: u32, location: Point<i64>, row: LayoutOutput) -> Layout {
    Layout {
        order,
        location,
        size: row.size,
        content_size: row.content_size,
        scrollbar_size: zero_size(),
        padding: zero_rect(),
        border: zero_rect(),
        margin: zero_rect(),
    }
}

/// The layout of the table container itself for the `output` of its layout.
pub open spec fn table_node_layout_spec(style: TableStyle, output: LayoutOutput) -> Layout {
    Layout {
        order: 0,
        location: Point { x: 0, y: 0 },
        size: output.size,
        content_size: output.content_size,
        scrollbar_size: zero_size(),
        padding: style.padding,
        border: style.border,
        margin: zero_rect(),
    }
}

// ---------------------------------------------------------------------------
// The algorithm
// ---------------------------------------------------------------------------

/// The sizes of a table container that follow from its style and the layout
/// inputs alone.
pub fn table_sizing(style: &TableStyle, inputs: &LayoutInput) -> (r: TableSizing)
    ensures
        r == table_sizing_spec(*style, *inputs),
{
    let pb = style.padding.plus(&style.border).sum_axes();
    let adjustment = match style.box_sizing {
        BoxSizing::ContentBox => pb,
        BoxSizing::BorderBox => Size::zero(),
    };
    let min_size = Size {
        width: opt_add(style.min_size.width, adjustment.width),
        height: opt_add(style.min_size.height, adjustment.height),
    };
    let max_size = Size {
        width: opt_add(style.max_size.width, adjustment.width),
        height: opt_add(style.max_size.height, adjustment.height),
    };
    let clamped = match inputs.sizing_mode {
        SizingMode::InherentSize => Size {
            width: opt_clamp(
                opt_add(style.size.width, adjustment.width),
                min_size.width,
                max_size.width,
            ),
            height: opt_clamp(
                opt_add(style.size.height, adjustment.height),
                min_size.height,
                max_size.height,
            ),
        },
        SizingMode::ContentSize => Size::none(),
    };
    let fixed = Size {
        width: fixed_by(min_size.width, max_size.width),
        height: fixed_by(min_size.height, max_size.height),
    };
    let known = Size {
        width: opt_max(
            opt_or(opt_or(inputs.known_dimensions.width, fixed.width), clamped.width),
            pb.width,
        ),
        height: opt_max(
            opt_or(opt_or(inputs.known_dimensions.height, fixed.height), clamped.height),
            pb.height,
        ),
    };
    TableSizing {
        padding_border: pb,
        min_size,
        max_size,
        known,
        inner: Size { width: opt_sub(known.width, pb.width), height: opt_sub(known.height, pb.height) },
        content_min: Size {
            width: opt_sub(min_size.width, pb.width),
            height: opt_sub(min_size.height, pb.height),
        },
        content_max: Size {
            width: opt_sub(max_size.width, pb.width),
            height: opt_sub(max_size.height, pb.height),
        },
        spacing: match style.border_collapse() {
            BorderCollapse::Separate => Size {
                width: unwrap_or_zero(style.border_spacing.width),
                height: unwrap_or_zero(style.border_spacing.height),
            },
            BorderCollapse::Collapse => Size::zero(),
        },
    }
}

/// The size that a minimum and a maximum fix together, where they do.
fn fixed_by(lo: Option<i64>, hi: Option<i64>) -> (r: Option<i64>)
    ensures
        r == fixed_by_bounds(lo, hi),
{
    match (lo, hi) {
        (Some(l), Some(h)) => if h <= l {
            Some(l)
        } else {
            None
        },
        _ => None,
    }
}

/// An optional length, or zero where absent.
fn unwrap_or_zero(v: Option<i64>) -> (r: i64)
    ensures
        r == or_zero(v),
{
    match v {
        Some(x) => x,
        None => 0,
    }
}

/// The output of a size computation that the known border-box size already
/// answers, or `None` where the rows have to be measured.
pub fn short_circuit(inputs: &LayoutInput, known: Size<Option<i64>>) -> (r: Option<LayoutOutput>)
    ensures
        r == short_circuit_spec(*inputs, known),
{
    match inputs.run_mode {
        RunMode::ComputeSize => match (known.width, known.height) {
            (Some(w), Some(h)) => Some(
                LayoutOutput::from_outer_size(Size { width: w, height: h }),
            ),
            (Some(w), None) => match inputs.axis {
                RequestedAxis::Horizontal => Some(
                    LayoutOutput::from_outer_size(Size { width: w, height: 0 }),
                ),
                _ => None,
            },
            _ => None,
        },
        _ => None,
    }
}

/// The table's intrinsic content width from its rows' widths: the widest row
/// plus the border spacing on the left and on the right.
pub fn intrinsic_width(row_widths: &Vec<i64>, spacing: i64) -> (r: i64)
    ensures
        r == intrinsic_width_spec(row_widths@, spacing),
{
    let mut widest: i64 = 0;
    let mut i: usize = 0;
    while i < row_widths.len()
        invariant
            i <= row_widths.len(),
            widest == seq_max0(row_widths@.take(i as int)),
        decreases row_widths.len() - i,
    {
        assert(row_widths@.take(i + 1).drop_last() == row_widths@.take(i as int));
        widest = len_max(widest, row_widths[i]);
        i = i + 1;
    }
    assert(row_widths@.take(i as int) == row_widths@);
    add_len(widest, add_len(spacing, spacing))
}

/// The table's content width, from its sizing, the available width and its
/// intrinsic widths.
pub fn resolve_content_width(
    sizing: &TableSizing,
    available: AvailableSpace,
    min_content: i64,
    max_content: i64,
) -> (r: i64)
    ensures
        r == content_width_spec(*sizing, available, min_content, max_content),
{
    let base = match sizing.inner.width {
        Some(w) => w,
        None => match available {
            AvailableSpace::Definite(a) => len_min(len_max(a, min_content), max_content),
            AvailableSpace::MinContent => min_content,
            AvailableSpace::MaxContent => max_content,
        },
    };
    len_max(len_clamp(base, sizing.content_min.width, sizing.content_max.width), 0)
}

/// The width each row is given.
pub fn row_content_width(content_width: i64, spacing: i64) -> (r: i64)
    ensures
        r == row_width_spec(content_width, spacing),
{
    len_max(sub_len(content_width, add_len(spacing, spacing)), 0)
}

/// The vertical border spacing of a table with `rows` rows.
pub fn spacing_total(rows: usize, spacing: i64) -> (r: i64)
    ensures
        r == spacing_total_spec(rows as nat, spacing),
{
    let gaps: i128 = rows as i128 + 1;
    proof {
        assert(-0x8000_0000_0000_0000 <= spacing <= 0x7fff_ffff_ffff_ffff);
        assert(1 <= gaps <= 0x1_0000_0000_0000_0000);
        assert(-0x8000_0000_0000_0000_0000_0000_0000_0000 <= gaps * spacing
            <= 0x7fff_ffff_ffff_ffff_0000_0000_0000_0000) by (nonlinear_arith)
            requires
                -0x8000_0000_0000_0000 <= spacing <= 0x7fff_ffff_ffff_ffff,
                1 <= gaps <= 0x1_0000_0000_0000_0000,
        ;
    }
    let total: i128 = gaps * (spacing as i128);
    if total > i64::MAX as i128 {
        i64::MAX
    } else if total < i64::MIN as i128 {
        i64::MIN
    } else {
        total as i64
    }
}

/// The sum of the rows' heights, added up from the first with saturation.
pub fn sum_heights(heights: &Vec<i64>) -> (r: i64)
    ensures
        r == seq_sum(heights@),
{
    let mut total: i64 = 0;
    let mut i: usize = 0;
    while i < heights.len()
        invariant
            i <= heights.len(),
            total == seq_sum(heights@.take(i as int)),
        decreases heights.len() - i,
    {
        assert(heights@.take(i + 1).drop_last() == heights@.take(i as int));
        total = add_len(total, heights[i]);
        i = i + 1;
    }
    assert(heights@.take(i as int) == heights@);
    total
}

/// The table's content height, from its sizing and its rows' heights.
pub fn resolve_content_height(sizing: &TableSizing, heights: &Vec<i64>) -> (r: i64)
    ensures
        r == content_height_spec(*sizing, heights@),
{
    let base = match sizing.inner.height {
        Some(h) => h,
        None => add_len(sum_heights(heights), spacing_total(heights.len(), sizing.spacing.height)),
    };
    len_max(len_clamp(base, sizing.content_min.height, sizing.content_max.height), 0)
}

/// The position of the first row.
pub fn first_row_origin(style: &TableStyle, spacing: Size<i64>) -> (r: Point<i64>)
    ensures
        r == first_row_origin_spec(*style, spacing),
{
    Point {
        x: add_len(add_len(style.padding.left, style.border.left), spacing.width),
        y: add_len(add_len(style.padding.top, style.border.top), spacing.height),
    }
}

/// The vertical position of the row after one at `y` of height `height`.
pub fn next_row_offset(y: i64, height: i64, spacing: i64) -> (r: i64)
    ensures
        r == next_row_y(y, height, spacing),
{
    add_len(add_len(y, height), spacing)
}

/// The height a row is given in a table of `rows` rows, where it is given one.
pub fn row_known_height(rows: usize, content_height: i64, spacing: i64) -> (r: Option<i64>)
    ensures
        r == row_known_height_spec(rows as nat, content_height, spacing),
{
    if rows == 1 {
        Some(sub_len(content_height, add_len(spacing, spacing)))
    } else {
        None
    }
}

/// The layout of a row at `location`, with the size its own layout gave it.
pub fn row_layout(order: u32, location: Point<i64>, row: &LayoutOutput) -> (r: Layout)
    ensures
        r == row_layout_spec(order, location, *row),
{
    Layout {
        order,
        location,
        size: row.size,
        content_size: row.content_size,
        scrollbar_size: Size::zero(),
        padding: Rect::zero(),
        border: Rect::zero(),
        margin: Rect::zero(),
    }
}

/// The layout of the table container itself.
pub fn table_node_layout(style: &TableStyle, output: &LayoutOutput) -> (r: Layout)
    ensures
        r == table_node_layout_spec(*style, *output),
{
    Layout {
        order: 0,
        location: Point { x: 0, y: 0 },
        size: output.size,
        content_size: output.content_size,
        scrollbar_size: Size::zero(),
        padding: style.padding,
        border: style.border,
        margin: Rect::zero(),
    }
}

// ---------------------------------------------------------------------------
// The table in its tree
// ---------------------------------------------------------------------------

/// Vertical margins that may not collapse.
pub open spec fn no_collapse() -> Line<bool> {
    Line { start: false, end: false }
}

/// No size known in advance.
pub open spec fn no_known() -> Size<Option<i64>> {
    Size { width: None, height: None }
}

/// The same available space along both axes.
pub open spec fn content_space(space: AvailableSpace) -> Size<AvailableSpace> {
    Size { width: space, height: space }
}

/// The space a row is given: the row width, and unbounded height.
pub open spec fn row_space(row_width: i64) -> Size<AvailableSpace> {
    Size { width: AvailableSpace::Definite(row_width), height: AvailableSpace::MaxContent }
}

/// The widths that `tree` measures for the rows of `node` in `space`
/// (max-content or min-content), one per row.
pub open spec fn measured_row_widths<T: LayoutTableContainer>(
    tree: T,
    node: NodeId,
    parent_size: Size<Option<i64>>,
    space: AvailableSpace,
) -> Seq<i64> {
    let rows = tree.child_ids(node);
    Seq::new(
        rows.len(),
        |i: int|
            tree.measured_size(
                rows[i],
                no_known(),
                parent_size,
                content_space(space),
                SizingMode::InherentSize,
                no_collapse(),
            ).width,
    )
}

/// The heights that `tree` measures for the rows of `node` at `row_width`,
/// one per row.
pub open spec fn measured_row_heights<T: LayoutTableContainer>(
    tree: T,
    node: NodeId,
    parent_size: Size<Option<i64>>,
    row_width: i64,
) -> Seq<i64> {
    let rows = tree.child_ids(node);
    Seq::new(
        rows.len(),
        |i: int|
            tree.measured_size(
                rows[i],
                Size { width: Some(row_width), height: None },
                parent_size,
                row_space(row_width),
                SizingMode::InherentSize,
                no_collapse(),
            ).height,
    )
}

/// The width each row of the table `node` in `tree` is given.
pub open spec fn table_row_width<T: LayoutTableContainer>(
    tree: T,
    node: NodeId,
    inputs: LayoutInput,
    style: TableStyle,
) -> i64 {
    let sizing = table_sizing_spec(style, inputs);
    let spacing = sizing.spacing.width;
    let max_content = intrinsic_width_spec(
        measured_row_widths(tree, node, inputs.parent_size, AvailableSpace::MaxContent),
        spacing,
    );
    let min_content = intrinsic_width_spec(
        measured_row_widths(tree, node, inputs.parent_size, AvailableSpace::MinContent),
        spacing,
    );
    row_width_spec(
        content_width_spec(sizing, inputs.available_space.width, min_content, max_content),
        spacing,
    )
}

/// The output of laying out the table `node` of `tree` with `style` and
/// `inputs`: the short answer where the known size gives one, and otherwise
/// the table's size from the widths and heights the tree measures for its
/// rows.
pub open spec fn table_layout_spec<T: LayoutTableContainer>(
    tree: T,
    node: NodeId,
    inputs: LayoutInput,
    style: TableStyle,
) -> LayoutOutput {
    match short_circuit_spec(inputs, table_sizing_spec(style, inputs).known) {
        Some(o) => o,
        None => table_output_spec(
            style,
            inputs,
            measured_row_widths(tree, node, inputs.parent_size, AvailableSpace::MaxContent),
            measured_row_widths(tree, node, inputs.parent_size, AvailableSpace::MinContent),
            measured_row_heights(
                tree,
                node,
                inputs.parent_size,
                table_row_width(tree, node, inputs, style),
            ),
        ),
    }
}

/// Whether laying out a table with `style` and `inputs` lays out its rows:
/// in a full layout whose size the known size does not already answer.
pub open spec fn lays_out_rows(style: TableStyle, inputs: LayoutInput) -> bool {
    &&& inputs.run_mode != RunMode::ComputeSize
    &&& short_circuit_spec(inputs, table_sizing_spec(style, inputs).known) is None
}

/// The size each row of the table `node` in `tree` is laid out with: the row
/// width, and in a table of one row the content height less the vertical
/// border spacing above and below it.
pub open spec fn row_known_size<T: LayoutTableContainer>(
    tree: T,
    node: NodeId,
    inputs: LayoutInput,
    style: TableStyle,
) -> Size<Option<i64>> {
    Size {
        width: Some(table_row_width(tree, node, inputs, style)),
        height: row_known_height_spec(
            tree.child_ids(node).len(),
            table_layout_spec(tree, node, inputs, style).content_size.height,
            table_sizing_spec(style, inputs).spacing.height,
        ),
    }
}

/// The outputs that `tree` gives when it lays out the rows of the table
/// `node`, one per row.
pub open spec fn performed_rows<T: LayoutTableContainer>(
    tree: T,
    node: NodeId,
    inputs: LayoutInput,
    style: TableStyle,
) -> Seq<LayoutOutput> {
    let rows = tree.child_ids(node);
    Seq::new(
        rows.len(),
        |i: int|
            tree.performed_output(
                rows[i],
                row_known_size(tree, node, inputs, style),
                inputs.parent_size,
                row_space(table_row_width(tree, node, inputs, style)),
                SizingMode::InherentSize,
                no_collapse(),
            ),
    )
}

/// The layout that laying out the table `node` of `tree` leaves on `n`, a
/// node below its row `i`: what laying out that row leaves there.
pub open spec fn stored_subtree_layout<T: LayoutTableContainer>(
    tree: T,
    node: NodeId,
    inputs: LayoutInput,
    style: TableStyle,
    i: int,
    n: NodeId,
) -> Layout {
    tree.performed_layout(
        tree.child_ids(node)[i],
        row_known_size(tree, node, inputs, style),
        inputs.parent_size,
        row_space(table_row_width(tree, node, inputs, style)),
        SizingMode::InherentSize,
        no_collapse(),
        n,
    )
}

/// The heights of the given layout outputs.
pub open spec fn heights_of(outputs: Seq<LayoutOutput>) -> Seq<i64> {
    Seq::new(outputs.len(), |i: int| outputs[i].size.height)
}

/// The layout that laying out the table `node` of `tree` stores for its row
/// `i`: below the rows before it, with the size its own layout gave it.
pub open spec fn stored_row_layout<T: LayoutTableContainer>(
    tree: T,
    node: NodeId,
    inputs: LayoutInput,
    style: TableStyle,
    i: int,
) -> Layout {
    let spacing = table_sizing_spec(style, inputs).spacing;
    let outputs = performed_rows(tree, node, inputs, style);
    let origin = first_row_origin_spec(style, spacing);
    row_layout_spec(
        i as u32,
        Point {
            x: origin.x,
            y: row_y_spec(origin.y, heights_of(outputs).take(i), spacing.height),
        },
        outputs[i],
    )
}

/// Whether the rows of `node` are distinct from `node` and from each other,
/// and none lies below another.
pub open spec fn rows_apart<T: LayoutTableContainer>(tree: T, node: NodeId) -> bool {
    let rows = tree.child_ids(node);
    &&& forall|i: int| 0 <= i < rows.len() ==> #[trigger] rows[i] != node
    &&& forall|i: int, j: int|
        0 <= i < rows.len() && 0 <= j < rows.len() && i != j ==> #[trigger] rows[i] != #[trigger] rows[j]
            && !tree.is_descendant(rows[i], rows[j])
}

/// Whether the rows of `node` are apart (`rows_apart`), `node` is below none
/// of them, and no node lies below two of them.
pub open spec fn subtrees_apart<T: LayoutTableContainer>(tree: T, node: NodeId) -> bool {
    let rows = tree.child_ids(node);
    &&& rows_apart(tree, node)
    &&& forall|i: int| 0 <= i < rows.len() ==> !tree.is_descendant(node, #[trigger] rows[i])
    &&& forall|i: int, j: int, n: NodeId|
        #![trigger tree.is_descendant(n, rows[i]), tree.is_descendant(n, rows[j])]
        0 <= i < rows.len() && 0 <= j < rows.len() && i != j ==> !(tree.is_descendant(n, rows[i])
            && tree.is_descendant(n, rows[j]))
}

/// Whether `n` is outside the table `node` of `tree`: neither the table, nor
/// a row, nor below a row.
pub open spec fn outside_table<T: LayoutTableContainer>(tree: T, node: NodeId, n: NodeId) -> bool {
    let rows = tree.child_ids(node);
    &&& n != node
    &&& forall|i: int|
        0 <= i < rows.len() ==> #[trigger] rows[i] != n && !tree.is_descendant(n, rows[i])
}

/// Whether `after` has the same children, descendants, styles, measurements
/// and layout results as `before`: all that may differ are stored layouts.
pub open spec fn keeps_structure<T: LayoutTableContainer>(before: T, after: T) -> bool {
    &&& forall|n: NodeId| #[trigger] after.child_ids(n) == before.child_ids(n)
    &&& forall|n: NodeId, a: NodeId| #[trigger]
        after.is_descendant(n, a) == before.is_descendant(n, a)
    &&& forall|n: NodeId, p: Size<Option<i64>>| #[trigger]
        after.table_style_of(n, p) == before.table_style_of(n, p)
    &&& forall|
        c: NodeId,
        k: Size<Option<i64>>,
        p: Size<Option<i64>>,
        a: Size<AvailableSpace>,
        s: SizingMode,
        v: Line<bool>,
    | #[trigger] after.measured_size(c, k, p, a, s, v) == before.measured_size(c, k, p, a, s, v)
    &&& forall|
        c: NodeId,
        k: Size<Option<i64>>,
        p: Size<Option<i64>>,
        a: Size<AvailableSpace>,
        s: SizingMode,
        v: Line<bool>,
    | #[trigger] after.performed_output(c, k, p, a, s, v) == before.performed_output(
        c,
        k,
        p,
        a,
        s,
        v,
    )
    &&& forall|
        c: NodeId,
        k: Size<Option<i64>>,
        p: Size<Option<i64>>,
        a: Size<AvailableSpace>,
        s: SizingMode,
        v: Line<bool>,
        n: NodeId,
    | #[trigger] after.performed_layout(c, k, p, a, s, v, n) == before.performed_layout(
        c,
        k,
        p,
        a,
        s,
        v,
        n,
    )
}

/// The output of a table layout from its rows' measurements: the content size
/// from the widths and heights, and the border box around it.
pub fn table_output(
    style: &TableStyle,
    inputs: &LayoutInput,
    max_widths: &Vec<i64>,
    min_widths: &Vec<i64>,
    heights: &Vec<i64>,
) -> (r: LayoutOutput)
    ensures
        r == table_output_spec(*style, *inputs, max_widths@, min_widths@, heights@),
{
    let sizing = table_sizing(style, inputs);
    let max_content = intrinsic_width(max_widths, sizing.spacing.width);
    let min_content = intrinsic_width(min_widths, sizing.spacing.width);
    let content_width = resolve_content_width(
        &sizing,
        inputs.available_space.width,
        min_content,
        max_content,
    );
    let content_height = resolve_content_height(&sizing, heights);
    let content_size = Size { width: content_width, height: content_height };
    let outer_size = Size {
        width: add_len(content_width, sizing.padding_border.width),
        height: add_len(content_height, sizing.padding_border.height),
    };
    LayoutOutput::from_sizes(outer_size, content_size)
}

/// Computes the layout of the table container `node_id`, with the style that
/// the tree gives for it.
pub fn compute_table_layout(
    tree: &mut impl LayoutTableContainer,
    node_id: NodeId,
    inputs: LayoutInput,
) -> (output: LayoutOutput)
    ensures
        ({
            let style = old(tree).table_style_of(node_id, inputs.parent_size);
            &&& output == table_layout_spec(*old(tree), node_id, inputs, style)
            &&& keeps_structure(*old(tree), *final(tree))
            &&& !lays_out_rows(style, inputs) ==> forall|n: NodeId| #[trigger]
                final(tree).unrounded_layout_of(n) == old(tree).unrounded_layout_of(n)
            &&& lays_out_rows(style, inputs) ==> final(tree).unrounded_layout_of(node_id)
                == table_node_layout_spec(style, output)
            &&& lays_out_rows(style, inputs) && rows_apart(*old(tree), node_id) ==> forall|i: int|
                0 <= i < old(tree).child_ids(node_id).len() ==> #[trigger] final(tree).unrounded_layout_of(old(tree).child_ids(node_id)[i]) == stored_row_layout(
                    *old(tree),
                    node_id,
                    inputs,
                    style,
                    i,
                )
            &&& lays_out_rows(style, inputs) && subtrees_apart(*old(tree), node_id) ==> forall|
                i: int,
                n: NodeId,
            |
                0 <= i < old(tree).child_ids(node_id).len() && #[trigger] old(tree).is_descendant(
                    n,
                    old(tree).child_ids(node_id)[i],
                ) && n != old(tree).child_ids(node_id)[i] ==> final(tree).unrounded_layout_of(n)
                    == stored_subtree_layout(*old(tree), node_id, inputs, style, i, n)
            &&& forall|n: NodeId| #[trigger]
                outside_table(*old(tree), node_id, n) ==> final(tree).unrounded_layout_of(n)
                    == old(tree).unrounded_layout_of(n)
        }),
{
    let style = tree.get_table_container_style(node_id, inputs.parent_size);
    compute_table_layout_with_style(tree, node_id, inputs, &style)
}

/// Computes the layout of the table container `node_id` with style `style`.
///
/// The table's children are its rows. Each row's min-content and max-content
/// widths are measured, the table's content width is determined from them,
/// each row's height is measured at the resulting row width, and then each row
/// is laid out and positioned, one below the other. In a size computation the
/// rows are measured but not laid out, and where the table's size is already
/// known they are not measured at all.
pub fn compute_table_layout_with_style(
    tree: &mut impl LayoutTableContainer,
    node_id: NodeId,
    inputs: LayoutInput,
    style: &TableStyle,
) -> (output: LayoutOutput)
    ensures
        output == table_layout_spec(*old(tree), node_id, inputs, *style),
        keeps_structure(*old(tree), *final(tree)),
        !lays_out_rows(*style, inputs) ==> forall|n: NodeId| #[trigger]
            final(tree).unrounded_layout_of(n) == old(tree).unrounded_layout_of(n),
        lays_out_rows(*style, inputs) ==> final(tree).unrounded_layout_of(node_id)
            == table_node_layout_spec(*style, output),
        lays_out_rows(*style, inputs) && rows_apart(*old(tree), node_id) ==> forall|i: int|
            0 <= i < old(tree).child_ids(node_id).len() ==> #[trigger] final(tree).unrounded_layout_of(old(tree).child_ids(node_id)[i]) == stored_row_layout(
                *old(tree),
                node_id,
                inputs,
                *style,
                i,
            ),
        lays_out_rows(*style, inputs) && subtrees_apart(*old(tree), node_id) ==> forall|
            i: int,
            n: NodeId,
        |
            0 <= i < old(tree).child_ids(node_id).len() && #[trigger] old(tree).is_descendant(
                n,
                old(tree).child_ids(node_id)[i],
            ) && n != old(tree).child_ids(node_id)[i] ==> final(tree).unrounded_layout_of(n)
                == stored_subtree_layout(*old(tree), node_id, inputs, *style, i, n),
        forall|n: NodeId| #[trigger]
            outside_table(*old(tree), node_id, n) ==> final(tree).unrounded_layout_of(n)
                == old(tree).unrounded_layout_of(n),
{
    let ghost start = *tree;
    let parent_size = inputs.parent_size;
    let sizing = table_sizing(style, &inputs);
    match short_circuit(&inputs, sizing.known) {
        Some(out) => {
            return out;
        },
        None => {},
    }
    let child_count = tree.child_count(node_id);
    let margins = Line { start: false, end: false };
    let ghost rows = start.child_ids(node_id);

    // Phase 1: the min-content and max-content width of each row.
    let mut max_widths: Vec<i64> = Vec::new();
    let mut min_widths: Vec<i64> = Vec::new();
    let mut i: usize = 0;
    while i < child_count
        invariant
            i <= child_count,
            child_count == rows.len(),
            rows == start.child_ids(node_id),
            keeps_structure(start, *tree),
            forall|n: NodeId| #[trigger]
                tree.unrounded_layout_of(n) == start.unrounded_layout_of(n),
            max_widths.len() == i,
            min_widths.len() == i,
            forall|j: int| 0 <= j < i ==> max_widths@[j] == #[trigger] measured_row_widths(
                start,
                node_id,
                parent_size,
                AvailableSpace::MaxContent,
            )[j],
            forall|j: int| 0 <= j < i ==> min_widths@[j] == #[trigger] measured_row_widths(
                start,
                node_id,
                parent_size,
                AvailableSpace::MinContent,
            )[j],
            margins == no_collapse(),
            parent_size == inputs.parent_size,
        decreases child_count - i,
    {
        let child = tree.get_child_id(node_id, i);
        let max_size = tree.measure_child_size_both(
            child,
            Size::none(),
            parent_size,
            Size { width: AvailableSpace::MaxContent, height: AvailableSpace::MaxContent },
            SizingMode::InherentSize,
            margins,
        );
        max_widths.push(max_size.width);
        let min_size = tree.measure_child_size_both(
            child,
            Size::none(),
            parent_size,
            Size { width: AvailableSpace::MinContent, height: AvailableSpace::MinContent },
            SizingMode::InherentSize,
            margins,
        );
        min_widths.push(min_size.width);
        i = i + 1;
    }
    let ghost max_seq = measured_row_widths(start, node_id, parent_size, AvailableSpace::MaxContent);
    let ghost min_seq = measured_row_widths(start, node_id, parent_size, AvailableSpace::MinContent);
    assert(max_widths@ == max_seq);
    assert(min_widths@ == min_seq);

    let max_content = intrinsic_width(&max_widths, sizing.spacing.width);
    let min_content = intrinsic_width(&min_widths, sizing.spacing.width);
    let content_width = resolve_content_width(
        &sizing,
        inputs.available_space.width,
        min_content,
        max_content,
    );
    let row_width = row_content_width(content_width, sizing.spacing.width);
    assert(row_width == table_row_width(start, node_id, inputs, *style));

    // Phase 2: the height of each row at the row width.
    let mut heights: Vec<i64> = Vec::new();
    let mut i: usize = 0;
    while i < child_count
        invariant
            i <= child_count,
            child_count == rows.len(),
            rows == start.child_ids(node_id),
            keeps_structure(start, *tree),
            forall|n: NodeId| #[trigger]
                tree.unrounded_layout_of(n) == start.unrounded_layout_of(n),
            heights.len() == i,
            forall|j: int| 0 <= j < i ==> heights@[j] == #[trigger] measured_row_heights(
                start,
                node_id,
                parent_size,
                row_width,
            )[j],
            margins == no_collapse(),
            parent_size == inputs.parent_size,
        decreases child_count - i,
    {
        let child = tree.get_child_id(node_id, i);
        let row_size = tree.measure_child_size_both(
            child,
            Size { width: Some(row_width), height: None },
            parent_size,
            Size { width: AvailableSpace::Definite(row_width), height: AvailableSpace::MaxContent },
            SizingMode::InherentSize,
            margins,
        );
        heights.push(row_size.height);
        i = i + 1;
    }
    assert(heights@ == measured_row_heights(start, node_id, parent_size, row_width));

    let output = table_output(style, &inputs, &max_widths, &min_widths, &heights);
    assert(output == table_layout_spec(start, node_id, inputs, *style));

    match inputs.run_mode {
        RunMode::ComputeSize => {
            return output;
        },
        _ => {},
    }

    // Phase 3: lay out each row and stack the rows vertically; each row starts
    // at `row_y_spec` of the heights of the rows above it.
    let content_height = output.content_size.height;
    let origin = first_row_origin(style, sizing.spacing);
    let ghost outputs = performed_rows(start, node_id, inputs, *style);
    let mut y = origin.y;
    let mut i: usize = 0;
    while i < child_count
        invariant
            i <= child_count,
            child_count == rows.len(),
            rows == start.child_ids(node_id),
            keeps_structure(start, *tree),
            outputs == performed_rows(start, node_id, inputs, *style),
            row_width == table_row_width(start, node_id, inputs, *style),
            content_height == table_layout_spec(start, node_id, inputs, *style).content_size.height,
            sizing == table_sizing_spec(*style, inputs),
            origin == first_row_origin_spec(*style, sizing.spacing),
            y == row_y_spec(origin.y, heights_of(outputs).take(i as int), sizing.spacing.height),
            rows_apart(start, node_id) ==> forall|j: int|
                0 <= j < i ==> #[trigger] tree.unrounded_layout_of(rows[j]) == stored_row_layout(
                    start,
                    node_id,
                    inputs,
                    *style,
                    j,
                ),
            subtrees_apart(start, node_id) ==> forall|j: int, n: NodeId|
                0 <= j < i && #[trigger] start.is_descendant(n, rows[j]) && n != rows[j]
                    ==> tree.unrounded_layout_of(n) == stored_subtree_layout(
                    start,
                    node_id,
                    inputs,
                    *style,
                    j,
                    n,
                ),
            forall|n: NodeId| #[trigger]
                outside_table(start, node_id, n) ==> tree.unrounded_layout_of(n)
                    == start.unrounded_layout_of(n),
            margins == no_collapse(),
            parent_size == inputs.parent_size,
        decreases child_count - i,
    {
        let ghost before = *tree;
        let child = tree.get_child_id(node_id, i);
        let known_height = row_known_height(child_count, content_height, sizing.spacing.height);
        let row_output = tree.perform_child_layout(
            child,
            Size { width: Some(row_width), height: known_height },
            parent_size,
            Size { width: AvailableSpace::Definite(row_width), height: AvailableSpace::MaxContent },
            SizingMode::InherentSize,
            margins,
        );
        assert(row_output == outputs[i as int]);
        #[verifier::truncate]
        let order = i as u32;
        let layout = row_layout(order, Point { x: origin.x, y }, &row_output);
        tree.set_unrounded_layout(child, &layout);
        proof {
            assert(heights_of(outputs).take(i + 1).drop_last() == heights_of(outputs).take(
                i as int,
            ));
            if rows_apart(start, node_id) {
                assert forall|j: int| 0 <= j < i + 1 implies #[trigger] tree.unrounded_layout_of(
                    rows[j],
                ) == stored_row_layout(start, node_id, inputs, *style, j) by {
                    if j < i {
                        assert(rows[j] != rows[i as int]);
                    }
                }
            }
        }
        y = next_row_offset(y, row_output.size.height, sizing.spacing.height);
        i = i + 1;
    }

    let table_layout = table_node_layout(style, &output);
    tree.set_unrounded_layout(node_id, &table_layout);
    output
}

} // verus!
