//! Properties of table layout that span its parts.
use vstd::prelude::*;
use crate::geometry::{Line, Size};
use crate::compute::{
    heights_of, measured_row_heights, measured_row_widths, performed_rows, stored_row_layout,
    row_known_size, table_layout_spec, table_row_width,
    TableSizing, content_height_spec, content_width_spec, first_row_origin_spec, fit_width,
    intrinsic_width_spec, is_table_output, padding_border_of, row_y_spec, seq_max0, seq_sum,
    seq_total, short_circuit_spec, table_output_spec, table_sizing_spec, next_row_y,
};
use crate::style::{BorderCollapse, BoxSizing, TableStyle};
use crate::tree::{
    AvailableSpace, LayoutInput, LayoutOutput, LayoutTableContainer, NodeId, RequestedAxis, RunMode,
    SizingMode,
};

verus! {

/// The table's intrinsic width comes from its widest row: no row is wider than
/// the maximum, which is zero or the width of some row.
pub proof fn lemma_widest_row(widths: Seq<i64>)
    ensures
        seq_max0(widths) >= 0,
        forall|i: int| 0 <= i < widths.len() ==> widths[i] <= seq_max0(widths),
        seq_max0(widths) == 0 || exists|i: int|
            0 <= i < widths.len() && widths[i] == seq_max0(widths),
    decreases widths.len(),
{
    if widths.len() > 0 {
        let rest = widths.drop_last();
        lemma_widest_row(rest);
        assert forall|i: int| 0 <= i < widths.len() implies widths[i] <= seq_max0(widths) by {
            if i < widths.len() - 1 {
                assert(widths[i] == rest[i]);
            }
        }
        if seq_max0(widths) != 0 {
            if seq_max0(widths) == widths.last() {
                assert(widths[widths.len() - 1] == seq_max0(widths));
            } else {
                let i = choose|i: int| 0 <= i < rest.len() && rest[i] == seq_max0(rest);
                assert(widths[i] == rest[i]);
            }
        }
    }
}

/// Shrink-to-fit: where the min-content width does not exceed the max-content
/// width, a table whose width is not fixed takes the available width, but no
/// less than its min-content and no more than its max-content width.
pub proof fn lemma_shrink_to_fit(available: AvailableSpace, min_content: i64, max_content: i64)
    requires
        min_content <= max_content,
    ensures
        min_content <= fit_width(available, min_content, max_content) <= max_content,
        available is Definite && min_content <= available->0 <= max_content ==> fit_width(
            available,
            min_content,
            max_content,
        ) == available->0,
        available is MinContent ==> fit_width(available, min_content, max_content) == min_content,
        available is MaxContent ==> fit_width(available, min_content, max_content) == max_content,
{
}

/// More available space never makes a table narrower.
pub proof fn lemma_more_space_not_narrower(
    sizing: TableSizing,
    narrow: i64,
    wide: i64,
    min_content: i64,
    max_content: i64,
)
    requires
        narrow <= wide,
    ensures
        content_width_spec(sizing, AvailableSpace::Definite(narrow), min_content, max_content)
            <= content_width_spec(sizing, AvailableSpace::Definite(wide), min_content, max_content),
{
}

/// The content width is never negative, never less than the minimum content
/// width, and never more than the maximum content width where that maximum
/// is consistent with the minimum and with zero.
pub proof fn lemma_content_width_bounds(
    sizing: TableSizing,
    available: AvailableSpace,
    min_content: i64,
    max_content: i64,
)
    ensures
        ({
            let w = content_width_spec(sizing, available, min_content, max_content);
            &&& w >= 0
            &&& sizing.content_min.width is Some ==> w >= sizing.content_min.width->0
            &&& sizing.content_max.width is Some && sizing.content_max.width->0 >= 0 && (
            sizing.content_min.width is Some ==> sizing.content_min.width->0
                <= sizing.content_max.width->0) ==> w <= sizing.content_max.width->0
        }),
{
}

/// The content height is never negative, never less than the minimum content
/// height, and never more than the maximum content height where that maximum
/// is consistent with the minimum and with zero.
pub proof fn lemma_content_height_bounds(sizing: TableSizing, heights: Seq<i64>)
    ensures
        ({
            let h = content_height_spec(sizing, heights);
            &&& h >= 0
            &&& sizing.content_min.height is Some ==> h >= sizing.content_min.height->0
            &&& sizing.content_max.height is Some && sizing.content_max.height->0 >= 0 && (
            sizing.content_min.height is Some ==> sizing.content_min.height->0
                <= sizing.content_max.height->0) ==> h <= sizing.content_max.height->0
        }),
{
}

/// A fixed width or height does not depend on the rows: where the content
/// width (height) is fixed by the inputs or the style, any two measurements
/// of the rows give the same table width (height).
pub proof fn lemma_fixed_size_ignores_rows(
    style: TableStyle,
    inputs: LayoutInput,
    max_widths_a: Seq<i64>,
    min_widths_a: Seq<i64>,
    heights_a: Seq<i64>,
    max_widths_b: Seq<i64>,
    min_widths_b: Seq<i64>,
    heights_b: Seq<i64>,
)
    ensures
        table_sizing_spec(style, inputs).inner.width is Some ==> table_output_spec(
            style,
            inputs,
            max_widths_a,
            min_widths_a,
            heights_a,
        ).size.width == table_output_spec(
            style,
            inputs,
            max_widths_b,
            min_widths_b,
            heights_b,
        ).size.width,
        table_sizing_spec(style, inputs).inner.height is Some ==> table_output_spec(
            style,
            inputs,
            max_widths_a,
            min_widths_a,
            heights_a,
        ).size.height == table_output_spec(
            style,
            inputs,
            max_widths_b,
            min_widths_b,
            heights_b,
        ).size.height,
{
}

/// A size computation and a full layout of the same table with the same
/// measurements give the same output, where the size computation measures the
/// rows.
pub proof fn lemma_size_computation_matches_layout(
    style: TableStyle,
    sizing_inputs: LayoutInput,
    layout_inputs: LayoutInput,
    max_widths: Seq<i64>,
    min_widths: Seq<i64>,
    heights: Seq<i64>,
)
    requires
        sizing_inputs.run_mode == RunMode::ComputeSize,
        layout_inputs.run_mode == RunMode::PerformLayout,
        sizing_inputs.sizing_mode == layout_inputs.sizing_mode,
        sizing_inputs.known_dimensions == layout_inputs.known_dimensions,
        sizing_inputs.available_space == layout_inputs.available_space,
        short_circuit_spec(sizing_inputs, table_sizing_spec(style, sizing_inputs).known) is None,
    ensures
        short_circuit_spec(layout_inputs, table_sizing_spec(style, layout_inputs).known) is None,
        table_output_spec(style, sizing_inputs, max_widths, min_widths, heights)
            == table_output_spec(style, layout_inputs, max_widths, min_widths, heights),
{
}

/// A table's border box is never narrower than its padding and border, and,
/// unless only its width was asked for and known, never shorter than them.
pub proof fn lemma_never_smaller_than_padding_border(
    style: TableStyle,
    inputs: LayoutInput,
    output: LayoutOutput,
)
    requires
        is_table_output(style, inputs, output),
    ensures
        output.size.width >= padding_border_of(style).width,
        short_circuit_spec(inputs, table_sizing_spec(style, inputs).known) is None
            || table_sizing_spec(style, inputs).known.height is Some ==> output.size.height
            >= padding_border_of(style).height,
{
    let sizing = table_sizing_spec(style, inputs);
    if short_circuit_spec(inputs, sizing.known) is None {
        let (a, b, c) = choose|a: Seq<i64>, b: Seq<i64>, c: Seq<i64>|
            {
                &&& b.len() == a.len()
                &&& c.len() == a.len()
                &&& output == #[trigger] table_output_spec(style, inputs, a, b, c)
            };
        let max_content = intrinsic_width_spec(a, sizing.spacing.width);
        let min_content = intrinsic_width_spec(b, sizing.spacing.width);
        lemma_content_width_bounds(sizing, inputs.available_space.width, min_content, max_content);
        lemma_content_height_bounds(sizing, c);
    }
}

/// Saturating sums of non-negative lengths are exact while the exact sum fits.
pub proof fn lemma_sum_exact(s: Seq<i64>)
    requires
        forall|i: int| 0 <= i < s.len() ==> s[i] >= 0,
        seq_total(s) <= i64::MAX,
    ensures
        seq_sum(s) == seq_total(s),
        seq_total(s) >= 0,
    decreases s.len(),
{
    if s.len() > 0 {
        let rest = s.drop_last();
        assert forall|i: int| 0 <= i < rest.len() implies rest[i] >= 0 by {
            assert(rest[i] == s[i]);
        }
        assert(s.last() == s[s.len() - 1]);
        lemma_total_nonneg(rest);
        lemma_sum_exact(rest);
    }
}

/// The exact sum of non-negative lengths is non-negative.
proof fn lemma_total_nonneg(s: Seq<i64>)
    requires
        forall|i: int| 0 <= i < s.len() ==> s[i] >= 0,
    ensures
        seq_total(s) >= 0,
    decreases s.len(),
{
    if s.len() > 0 {
        let rest = s.drop_last();
        assert forall|i: int| 0 <= i < rest.len() implies rest[i] >= 0 by {
            assert(rest[i] == s[i]);
        }
        assert(s.last() == s[s.len() - 1]);
        lemma_total_nonneg(rest);
    }
}

/// A table of `n` rows of non-negative heights, with no fixed, minimum or
/// maximum height, is as tall as its rows plus `n + 1` vertical border
/// spacings, while that fits.
pub proof fn lemma_auto_height(sizing: TableSizing, heights: Seq<i64>)
    requires
        sizing.inner.height is None,
        sizing.content_min.height is None,
        sizing.content_max.height is None,
        sizing.spacing.height >= 0,
        forall|i: int| 0 <= i < heights.len() ==> heights[i] >= 0,
        seq_total(heights) + (heights.len() + 1) * sizing.spacing.height <= i64::MAX,
    ensures
        content_height_spec(sizing, heights) == seq_total(heights) + (heights.len() + 1)
            * sizing.spacing.height,
{
    let sv = sizing.spacing.height;
    let n = heights.len();
    assert((n + 1) * sv >= 0) by (nonlinear_arith)
        requires
            sv >= 0,
    ;
    lemma_total_nonneg(heights);
    lemma_sum_exact(heights);
}

/// Rows are stacked one below the other: with non-negative heights and
/// spacing, the row after the rows of `heights` starts below the first by
/// their heights plus one spacing per row, while that fits.
pub proof fn lemma_rows_stacked(start: i64, heights: Seq<i64>, spacing: i64)
    requires
        start >= 0,
        spacing >= 0,
        forall|i: int| 0 <= i < heights.len() ==> heights[i] >= 0,
        start + seq_total(heights) + heights.len() * spacing <= i64::MAX,
    ensures
        row_y_spec(start, heights, spacing) == start + seq_total(heights) + heights.len()
            * spacing,
    decreases heights.len(),
{
    if heights.len() > 0 {
        let rest = heights.drop_last();
        let n = heights.len();
        let last = heights.last();
        assert(last == heights[n - 1]);
        assert forall|i: int| 0 <= i < rest.len() implies rest[i] >= 0 by {
            assert(rest[i] == heights[i]);
        }
        lemma_total_nonneg(rest);
        assert((n - 1) * spacing + spacing == n * spacing) by (nonlinear_arith);
        assert((n - 1) * spacing >= 0) by (nonlinear_arith)
            requires
                n >= 1,
                spacing >= 0,
        ;
        lemma_rows_stacked(start, rest, spacing);
    }
}

/// The rows fill the table's content box: with non-negative padding, border,
/// heights and spacing, and no fixed, minimum or maximum height, the row after
/// the last (that is, the bottom of the last row and the spacing below it)
/// lies at the bottom of the content box, while that fits.
pub proof fn lemma_rows_fill_content_box(style: TableStyle, sizing: TableSizing, heights: Seq<i64>)
    requires
        style.padding.top >= 0,
        style.border.top >= 0,
        sizing.inner.height is None,
        sizing.content_min.height is None,
        sizing.content_max.height is None,
        sizing.spacing.height >= 0,
        forall|i: int| 0 <= i < heights.len() ==> heights[i] >= 0,
        style.padding.top + style.border.top + seq_total(heights) + (heights.len() + 1)
            * sizing.spacing.height <= i64::MAX,
    ensures
        row_y_spec(first_row_origin_spec(style, sizing.spacing).y, heights, sizing.spacing.height)
            == style.padding.top + style.border.top + content_height_spec(sizing, heights),
{
    let sv = sizing.spacing.height;
    let n = heights.len();
    lemma_total_nonneg(heights);
    assert((n + 1) * sv == n * sv + sv) by (nonlinear_arith);
    assert(n * sv >= 0) by (nonlinear_arith)
        requires
            sv >= 0,
    ;
    let start = first_row_origin_spec(style, sizing.spacing).y;
    assert(start == style.padding.top + style.border.top + sv);
    lemma_rows_stacked(start, heights, sv);
    lemma_auto_height(sizing, heights);
}

/// A table whose width is not fixed or bounded, sized to its max-content
/// width, is as wide as its widest row plus the horizontal border spacing on
/// the left and on the right, while that fits.
pub proof fn lemma_max_content_width_is_widest_row(
    style: TableStyle,
    inputs: LayoutInput,
    max_widths: Seq<i64>,
    min_widths: Seq<i64>,
    heights: Seq<i64>,
)
    requires
        inputs.available_space.width is MaxContent,
        table_sizing_spec(style, inputs).inner.width is None,
        table_sizing_spec(style, inputs).content_min.width is None,
        table_sizing_spec(style, inputs).content_max.width is None,
        table_sizing_spec(style, inputs).spacing.width >= 0,
        seq_max0(max_widths) + 2 * table_sizing_spec(style, inputs).spacing.width <= i64::MAX,
    ensures
        ({
            let spacing = table_sizing_spec(style, inputs).spacing.width;
            let width = table_output_spec(
                style,
                inputs,
                max_widths,
                min_widths,
                heights,
            ).content_size.width;
            &&& width == seq_max0(max_widths) + 2 * spacing
            &&& forall|i: int| 0 <= i < max_widths.len() ==> max_widths[i] + 2 * spacing <= width
        }),
{
    lemma_widest_row(max_widths);
}

/// The border box of a laid-out table is its content box plus its padding and
/// border, while that fits.
pub proof fn lemma_outer_is_content_plus_padding_border(
    style: TableStyle,
    inputs: LayoutInput,
    max_widths: Seq<i64>,
    min_widths: Seq<i64>,
    heights: Seq<i64>,
)
    requires
        ({
            let out = table_output_spec(style, inputs, max_widths, min_widths, heights);
            let pb = padding_border_of(style);
            &&& i64::MIN <= out.content_size.width + pb.width <= i64::MAX
            &&& i64::MIN <= out.content_size.height + pb.height <= i64::MAX
        }),
    ensures
        ({
            let out = table_output_spec(style, inputs, max_widths, min_widths, heights);
            let pb = padding_border_of(style);
            &&& out.size.width == out.content_size.width + pb.width
            &&& out.size.height == out.content_size.height + pb.height
        }),
{
}

/// In a tree, a size computation of a table gives the same output as a full
/// layout of it with the same inputs, where the size computation measures the
/// rows.
pub proof fn lemma_tree_size_computation_matches_layout<T: LayoutTableContainer>(
    tree: T,
    node: NodeId,
    style: TableStyle,
    sizing_inputs: LayoutInput,
    layout_inputs: LayoutInput,
)
    requires
        sizing_inputs.run_mode == RunMode::ComputeSize,
        layout_inputs.run_mode == RunMode::PerformLayout,
        sizing_inputs.sizing_mode == layout_inputs.sizing_mode,
        sizing_inputs.known_dimensions == layout_inputs.known_dimensions,
        sizing_inputs.parent_size == layout_inputs.parent_size,
        sizing_inputs.available_space == layout_inputs.available_space,
        short_circuit_spec(sizing_inputs, table_sizing_spec(style, sizing_inputs).known) is None,
    ensures
        table_layout_spec(tree, node, sizing_inputs, style) == table_layout_spec(
            tree,
            node,
            layout_inputs,
            style,
        ),
{
}

/// The rows of a laid-out table are stacked: each row after the first starts
/// at the same horizontal position as the row before it, below it by that
/// row's height and the vertical border spacing.
pub proof fn lemma_stored_rows_stacked<T: LayoutTableContainer>(
    tree: T,
    node: NodeId,
    inputs: LayoutInput,
    style: TableStyle,
    i: int,
)
    requires
        0 <= i,
        i + 1 < tree.child_ids(node).len(),
    ensures
        ({
            let above = stored_row_layout(tree, node, inputs, style, i);
            let below = stored_row_layout(tree, node, inputs, style, i + 1);
            &&& below.location.x == above.location.x
            &&& below.location.y == next_row_y(
                above.location.y,
                above.size.height,
                table_sizing_spec(style, inputs).spacing.height,
            )
        }),
{
    let heights = heights_of(performed_rows(tree, node, inputs, style));
    assert(heights.take(i + 1).drop_last() == heights.take(i));
}

/// A maximum width only caps: where the table's width is not fixed and the
/// width it takes without a maximum is within the maximum, the maximum
/// changes nothing.
pub proof fn lemma_max_width_only_caps(
    sizing: TableSizing,
    available: AvailableSpace,
    min_content: i64,
    max_content: i64,
)
    requires
        sizing.inner.width is None,
        sizing.content_max.width is Some,
        content_width_spec(
            TableSizing {
                content_max: Size { width: None, height: sizing.content_max.height },
                ..sizing
            },
            available,
            min_content,
            max_content,
        ) <= sizing.content_max.width->0,
    ensures
        content_width_spec(sizing, available, min_content, max_content) == content_width_spec(
            TableSizing {
                content_max: Size { width: None, height: sizing.content_max.height },
                ..sizing
            },
            available,
            min_content,
            max_content,
        ),
{
}

/// A minimum width only raises: where the table's width is not fixed and the
/// width it takes without a minimum is at least the minimum, the minimum
/// changes nothing.
pub proof fn lemma_min_width_only_raises(
    sizing: TableSizing,
    available: AvailableSpace,
    min_content: i64,
    max_content: i64,
)
    requires
        sizing.inner.width is None,
        sizing.content_min.width is Some,
        content_width_spec(
            TableSizing {
                content_min: Size { width: None, height: sizing.content_min.height },
                ..sizing
            },
            available,
            min_content,
            max_content,
        ) >= sizing.content_min.width->0,
    ensures
        content_width_spec(sizing, available, min_content, max_content) == content_width_spec(
            TableSizing {
                content_min: Size { width: None, height: sizing.content_min.height },
                ..sizing
            },
            available,
            min_content,
            max_content,
        ),
{
}

/// An unfixed, unbounded table sized to its max-content width is as wide as
/// its max-content width (and at least zero), whatever its min-content width.
pub proof fn lemma_max_content_space_gives_max_content(
    sizing: TableSizing,
    min_content: i64,
    max_content: i64,
)
    requires
        sizing.inner.width is None,
        sizing.content_min.width is None,
        sizing.content_max.width is None,
        max_content >= 0,
    ensures
        content_width_spec(sizing, AvailableSpace::MaxContent, min_content, max_content)
            == max_content,
{
}

/// A minimum height only raises: where the table's height is not fixed and
/// the height it takes without a minimum is at least the minimum, the minimum
/// changes nothing.
pub proof fn lemma_min_height_only_raises(sizing: TableSizing, heights: Seq<i64>)
    requires
        sizing.inner.height is None,
        sizing.content_min.height is Some,
        content_height_spec(
            TableSizing {
                content_min: Size { width: sizing.content_min.width, height: None },
                ..sizing
            },
            heights,
        ) >= sizing.content_min.height->0,
    ensures
        content_height_spec(sizing, heights) == content_height_spec(
            TableSizing {
                content_min: Size { width: sizing.content_min.width, height: None },
                ..sizing
            },
            heights,
        ),
{
}

/// A maximum height only caps: where the table's height is not fixed and the
/// height it takes without a maximum is within the maximum, the maximum
/// changes nothing.
pub proof fn lemma_max_height_only_caps(sizing: TableSizing, heights: Seq<i64>)
    requires
        sizing.inner.height is None,
        sizing.content_max.height is Some,
        content_height_spec(
            TableSizing {
                content_max: Size { width: sizing.content_max.width, height: None },
                ..sizing
            },
            heights,
        ) <= sizing.content_max.height->0,
    ensures
        content_height_spec(sizing, heights) == content_height_spec(
            TableSizing {
                content_max: Size { width: sizing.content_max.width, height: None },
                ..sizing
            },
            heights,
        ),
{
}

/// A border-box table stays within its minimum and maximum sizes: its border
/// box is never wider (taller) than a maximum width (height) that is at least
/// its padding and border and not below the minimum, and never narrower
/// (shorter) than a non-negative minimum width (height). Padding and border
/// are taken non-negative and small enough to add up exactly.
pub proof fn lemma_border_box_within_bounds(
    style: TableStyle,
    inputs: LayoutInput,
    max_widths: Seq<i64>,
    min_widths: Seq<i64>,
    heights: Seq<i64>,
)
    requires
        style.box_sizing == BoxSizing::BorderBox,
        0 <= style.padding.left <= 0x1000_0000_0000_0000,
        0 <= style.padding.right <= 0x1000_0000_0000_0000,
        0 <= style.padding.top <= 0x1000_0000_0000_0000,
        0 <= style.padding.bottom <= 0x1000_0000_0000_0000,
        0 <= style.border.left <= 0x1000_0000_0000_0000,
        0 <= style.border.right <= 0x1000_0000_0000_0000,
        0 <= style.border.top <= 0x1000_0000_0000_0000,
        0 <= style.border.bottom <= 0x1000_0000_0000_0000,
    ensures
        ({
            let out = table_output_spec(style, inputs, max_widths, min_widths, heights);
            let horizontal = style.padding.left + style.padding.right + style.border.left
                + style.border.right;
            let vertical = style.padding.top + style.padding.bottom + style.border.top
                + style.border.bottom;
            &&& style.max_size.width is Some && style.max_size.width->0 >= horizontal && (
            style.min_size.width is Some ==> style.min_size.width->0 <= style.max_size.width->0)
                ==> out.size.width <= style.max_size.width->0
            &&& style.min_size.width is Some && style.min_size.width->0 >= 0 ==> out.size.width
                >= style.min_size.width->0
            &&& style.max_size.height is Some && style.max_size.height->0 >= vertical && (
            style.min_size.height is Some ==> style.min_size.height->0
                <= style.max_size.height->0) ==> out.size.height <= style.max_size.height->0
            &&& style.min_size.height is Some && style.min_size.height->0 >= 0
                ==> out.size.height >= style.min_size.height->0
        }),
{
    let sizing = table_sizing_spec(style, inputs);
    let max_content = intrinsic_width_spec(max_widths, sizing.spacing.width);
    let min_content = intrinsic_width_spec(min_widths, sizing.spacing.width);
    lemma_content_width_bounds(sizing, inputs.available_space.width, min_content, max_content);
    lemma_content_height_bounds(sizing, heights);
}

/// Row heights are measured at the row width: in a full layout of a table
/// whose height is not fixed or bounded, where `row_width` is the content
/// width less the horizontal spacing on both sides (and at least zero) and
/// `heights` are the heights the tree measures for the rows with known width
/// and definite available width both `row_width`, the content height is the
/// sum of `heights` plus one vertical spacing per row and one more, while that
/// fits.
pub proof fn lemma_heights_measured_at_row_width<T: LayoutTableContainer>(
    tree: T,
    node: NodeId,
    inputs: LayoutInput,
    style: TableStyle,
    h_spacing: i64,
    v_spacing: i64,
    row_width: i64,
    heights: Seq<i64>,
)
    requires
        inputs.run_mode == RunMode::PerformLayout,
        inputs.known_dimensions.height is None,
        style.size.height is None,
        style.min_size.height is None,
        style.max_size.height is None,
        style.border_collapse == BorderCollapse::Separate,
        style.border_spacing == (Size { width: Some(h_spacing), height: Some(v_spacing) }),
        0 <= h_spacing <= 0x1000_0000_0000_0000,
        0 <= v_spacing,
        row_width == if table_layout_spec(tree, node, inputs, style).content_size.width - 2
            * h_spacing > 0 {
            table_layout_spec(tree, node, inputs, style).content_size.width - 2 * h_spacing
        } else {
            0
        },
        heights.len() == tree.child_ids(node).len(),
        forall|i: int|
            0 <= i < heights.len() ==> heights[i] == #[trigger] tree.measured_size(
                tree.child_ids(node)[i],
                Size { width: Some(row_width), height: None },
                inputs.parent_size,
                Size { width: AvailableSpace::Definite(row_width), height: AvailableSpace::MaxContent },
                SizingMode::InherentSize,
                Line { start: false, end: false },
            ).height,
        forall|i: int| 0 <= i < heights.len() ==> heights[i] >= 0,
        seq_total(heights) + (heights.len() + 1) * v_spacing <= i64::MAX,
    ensures
        table_layout_spec(tree, node, inputs, style).content_size.height == seq_total(heights) + (
        heights.len() + 1) * v_spacing,
{
    let sizing = table_sizing_spec(style, inputs);
    let max_content = intrinsic_width_spec(
        measured_row_widths(tree, node, inputs.parent_size, AvailableSpace::MaxContent),
        sizing.spacing.width,
    );
    let min_content = intrinsic_width_spec(
        measured_row_widths(tree, node, inputs.parent_size, AvailableSpace::MinContent),
        sizing.spacing.width,
    );
    lemma_content_width_bounds(sizing, inputs.available_space.width, min_content, max_content);
    assert(table_row_width(tree, node, inputs, style) == row_width);
    assert(measured_row_heights(tree, node, inputs.parent_size, row_width) == heights);
    lemma_auto_height(sizing, heights);
}

/// Shrink-to-fit over the measured widths: in a full layout of a table whose
/// width is not fixed or bounded, in definite available space that is at
/// least every row's measured min-content width and at most some row's
/// measured max-content width (each plus the horizontal spacing on both
/// sides), the content width is the available width.
pub proof fn lemma_definite_space_between_row_widths<T: LayoutTableContainer>(
    tree: T,
    node: NodeId,
    inputs: LayoutInput,
    style: TableStyle,
    available: i64,
    h_spacing: i64,
)
    requires
        inputs.run_mode == RunMode::PerformLayout,
        inputs.available_space.width == AvailableSpace::Definite(available),
        inputs.known_dimensions.width is None,
        style.size.width is None,
        style.min_size.width is None,
        style.max_size.width is None,
        style.border_collapse == BorderCollapse::Separate,
        style.border_spacing.width == Some(h_spacing),
        0 <= h_spacing <= 0x1000_0000_0000_0000,
        2 * h_spacing <= available,
        forall|i: int|
            0 <= i < tree.child_ids(node).len() ==> #[trigger] tree.measured_size(
                tree.child_ids(node)[i],
                Size { width: None, height: None },
                inputs.parent_size,
                Size { width: AvailableSpace::MinContent, height: AvailableSpace::MinContent },
                SizingMode::InherentSize,
                Line { start: false, end: false },
            ).width + 2 * h_spacing <= available,
        exists|j: int|
            0 <= j < tree.child_ids(node).len() && #[trigger] tree.measured_size(
                tree.child_ids(node)[j],
                Size { width: None, height: None },
                inputs.parent_size,
                Size { width: AvailableSpace::MaxContent, height: AvailableSpace::MaxContent },
                SizingMode::InherentSize,
                Line { start: false, end: false },
            ).width + 2 * h_spacing >= available,
    ensures
        table_layout_spec(tree, node, inputs, style).content_size.width == available,
{
    let mins = measured_row_widths(tree, node, inputs.parent_size, AvailableSpace::MinContent);
    let maxs = measured_row_widths(tree, node, inputs.parent_size, AvailableSpace::MaxContent);
    lemma_widest_row(mins);
    lemma_widest_row(maxs);
    let j = choose|j: int|
        0 <= j < tree.child_ids(node).len() && #[trigger] tree.measured_size(
            tree.child_ids(node)[j],
            Size { width: None, height: None },
            inputs.parent_size,
            Size { width: AvailableSpace::MaxContent, height: AvailableSpace::MaxContent },
            SizingMode::InherentSize,
            Line { start: false, end: false },
        ).width + 2 * h_spacing >= available;
    assert(maxs[j] + 2 * h_spacing >= available);
    if seq_max0(mins) != 0 {
        let i = choose|i: int| 0 <= i < mins.len() && mins[i] == seq_max0(mins);
        assert(mins[i] + 2 * h_spacing <= available);
    }
}

/// A border-box table's minimum and maximum width bound its border box
/// exactly: with a non-negative minimum and no maximum, the border-box width
/// is the larger of the minimum and the width it has without the minimum; with
/// a maximum at least the padding and border and no minimum, it is the
/// smaller of the maximum and the width it has without the maximum (padding and
/// border non-negative and small, and the sizes without the bound fitting).
pub proof fn lemma_width_bounds_apply(
    style: TableStyle,
    inputs: LayoutInput,
    max_widths: Seq<i64>,
    min_widths: Seq<i64>,
    heights: Seq<i64>,
)
    requires
        style.box_sizing == BoxSizing::BorderBox,
        0 <= style.padding.left <= 0x1000_0000_0000_0000,
        0 <= style.padding.right <= 0x1000_0000_0000_0000,
        0 <= style.border.left <= 0x1000_0000_0000_0000,
        0 <= style.border.right <= 0x1000_0000_0000_0000,
    ensures
        ({
            let out = table_output_spec(style, inputs, max_widths, min_widths, heights);
            let edges = style.padding.left + style.padding.right + style.border.left + style.border.right;
            let unbounded_below = table_output_spec(
                TableStyle {
                    min_size: Size { width: None, height: style.min_size.height },
                    ..style
                },
                inputs,
                max_widths,
                min_widths,
                heights,
            );
            let unbounded_above = table_output_spec(
                TableStyle {
                    max_size: Size { width: None, height: style.max_size.height },
                    ..style
                },
                inputs,
                max_widths,
                min_widths,
                heights,
            );
            &&& style.min_size.width is Some && style.min_size.width->0 >= 0
                && style.max_size.width is None && unbounded_below.content_size.width + edges
                <= i64::MAX ==> out.size.width == if style.min_size.width->0
                >= unbounded_below.size.width {
                style.min_size.width->0
            } else {
                unbounded_below.size.width
            }
            &&& style.max_size.width is Some && style.max_size.width->0 >= edges
                && style.min_size.width is None && unbounded_above.content_size.width + edges
                <= i64::MAX ==> out.size.width == if style.max_size.width->0
                <= unbounded_above.size.width {
                style.max_size.width->0
            } else {
                unbounded_above.size.width
            }
        }),
{
}

/// A border-box table's minimum and maximum height bound its border box
/// exactly: with a non-negative minimum and no maximum, the border-box height
/// is the larger of the minimum and the height it has without the minimum; with
/// a maximum at least the padding and border and no minimum, it is the
/// smaller of the maximum and the height it has without the maximum (padding and
/// border non-negative and small, and the sizes without the bound fitting).
pub proof fn lemma_height_bounds_apply(
    style: TableStyle,
    inputs: LayoutInput,
    max_widths: Seq<i64>,
    min_widths: Seq<i64>,
    heights: Seq<i64>,
)
    requires
        style.box_sizing == BoxSizing::BorderBox,
        0 <= style.padding.top <= 0x1000_0000_0000_0000,
        0 <= style.padding.bottom <= 0x1000_0000_0000_0000,
        0 <= style.border.top <= 0x1000_0000_0000_0000,
        0 <= style.border.bottom <= 0x1000_0000_0000_0000,
    ensures
        ({
            let out = table_output_spec(style, inputs, max_widths, min_widths, heights);
            let edges = style.padding.top + style.padding.bottom + style.border.top + style.border.bottom;
            let unbounded_below = table_output_spec(
                TableStyle {
                    min_size: Size { height: None, width: style.min_size.width },
                    ..style
                },
                inputs,
                max_widths,
                min_widths,
                heights,
            );
            let unbounded_above = table_output_spec(
                TableStyle {
                    max_size: Size { height: None, width: style.max_size.width },
                    ..style
                },
                inputs,
                max_widths,
                min_widths,
                heights,
            );
            &&& style.min_size.height is Some && style.min_size.height->0 >= 0
                && style.max_size.height is None && unbounded_below.content_size.height + edges
                <= i64::MAX ==> out.size.height == if style.min_size.height->0
                >= unbounded_below.size.height {
                style.min_size.height->0
            } else {
                unbounded_below.size.height
            }
            &&& style.max_size.height is Some && style.max_size.height->0 >= edges
                && style.min_size.height is None && unbounded_above.content_size.height + edges
                <= i64::MAX ==> out.size.height == if style.max_size.height->0
                <= unbounded_above.size.height {
                style.max_size.height->0
            } else {
                unbounded_above.size.height
            }
        }),
{
}

/// Rows are placed inside the padding and border, past the border spacing:
/// every row of a laid-out table starts at the same horizontal position, the
/// left padding and border plus the horizontal spacing; the first row starts
/// below the top padding and border by the vertical spacing; each further row
/// starts below the previous one by that row's height and the vertical
/// spacing (where that fits); and each row keeps its order and the size its
/// own layout gave it.
pub proof fn lemma_row_placement<T: LayoutTableContainer>(
    tree: T,
    node: NodeId,
    inputs: LayoutInput,
    style: TableStyle,
    h_spacing: i64,
    v_spacing: i64,
)
    requires
        style.border_collapse == BorderCollapse::Separate,
        style.border_spacing == (Size { width: Some(h_spacing), height: Some(v_spacing) }),
        0 <= h_spacing <= 0x1000_0000_0000_0000,
        0 <= v_spacing <= 0x1000_0000_0000_0000,
        0 <= style.padding.left <= 0x1000_0000_0000_0000,
        0 <= style.padding.top <= 0x1000_0000_0000_0000,
        0 <= style.border.left <= 0x1000_0000_0000_0000,
        0 <= style.border.top <= 0x1000_0000_0000_0000,
    ensures
        forall|i: int|
            0 <= i < tree.child_ids(node).len() ==> {
                let row = #[trigger] stored_row_layout(tree, node, inputs, style, i);
                &&& row.location.x == style.padding.left + style.border.left + h_spacing
                &&& row.order == i as u32
                &&& row.size == performed_rows(tree, node, inputs, style)[i].size
            },
        tree.child_ids(node).len() >= 1 ==> stored_row_layout(
            tree,
            node,
            inputs,
            style,
            0,
        ).location.y == style.padding.top + style.border.top + v_spacing,
        forall|i: int|
            0 <= i && i + 1 < tree.child_ids(node).len() && #[trigger] stored_row_layout(
                tree,
                node,
                inputs,
                style,
                i,
            ).size.height >= 0 && stored_row_layout(tree, node, inputs, style, i).location.y
                + stored_row_layout(tree, node, inputs, style, i).size.height + v_spacing
                <= i64::MAX ==> stored_row_layout(tree, node, inputs, style, i + 1).location.y
                == stored_row_layout(tree, node, inputs, style, i).location.y
                + stored_row_layout(tree, node, inputs, style, i).size.height + v_spacing,
{
    let heights = heights_of(performed_rows(tree, node, inputs, style));
    assert(heights.take(0) == Seq::<i64>::empty());
    assert forall|i: int|
        0 <= i && i + 1 < tree.child_ids(node).len() && #[trigger] stored_row_layout(
            tree,
            node,
            inputs,
            style,
            i,
        ).size.height >= 0 && stored_row_layout(tree, node, inputs, style, i).location.y
            + stored_row_layout(tree, node, inputs, style, i).size.height + v_spacing
            <= i64::MAX implies stored_row_layout(tree, node, inputs, style, i + 1).location.y
        == stored_row_layout(tree, node, inputs, style, i).location.y + stored_row_layout(
        tree,
        node,
        inputs,
        style,
        i,
    ).size.height + v_spacing by {
        assert(heights.take(i + 1).drop_last() == heights.take(i));
    }
}

/// A single row is stretched to the table: each row is laid out with the row
/// width (the content width less the horizontal spacing on both sides, and at
/// least zero) as its known width; in a table of one row its known height is
/// the content height less the vertical spacing above and below it, and in
/// any other table it has no known height.
pub proof fn lemma_rows_known_size<T: LayoutTableContainer>(
    tree: T,
    node: NodeId,
    inputs: LayoutInput,
    style: TableStyle,
    h_spacing: i64,
    v_spacing: i64,
)
    requires
        inputs.run_mode == RunMode::PerformLayout,
        style.border_collapse == BorderCollapse::Separate,
        style.border_spacing == (Size { width: Some(h_spacing), height: Some(v_spacing) }),
        0 <= h_spacing <= 0x1000_0000_0000_0000,
        0 <= v_spacing <= 0x1000_0000_0000_0000,
    ensures
        ({
            let out = table_layout_spec(tree, node, inputs, style);
            let known = row_known_size(tree, node, inputs, style);
            &&& known.width == Some(
                if out.content_size.width - 2 * h_spacing > 0 {
                    (out.content_size.width - 2 * h_spacing) as i64
                } else {
                    0i64
                },
            )
            &&& tree.child_ids(node).len() == 1 ==> known.height == Some(
                (out.content_size.height - 2 * v_spacing) as i64,
            )
            &&& tree.child_ids(node).len() != 1 ==> known.height is None
        }),
{
    let sizing = table_sizing_spec(style, inputs);
    let max_content = intrinsic_width_spec(
        measured_row_widths(tree, node, inputs.parent_size, AvailableSpace::MaxContent),
        sizing.spacing.width,
    );
    let min_content = intrinsic_width_spec(
        measured_row_widths(tree, node, inputs.parent_size, AvailableSpace::MinContent),
        sizing.spacing.width,
    );
    lemma_content_width_bounds(sizing, inputs.available_space.width, min_content, max_content);
    lemma_content_height_bounds(
        sizing,
        measured_row_heights(
            tree,
            node,
            inputs.parent_size,
            table_row_width(tree, node, inputs, style),
        ),
    );
}

/// A known size answers a size computation: asked for the size of a table
/// whose width and height are both known (and at least its padding and
/// border), the answer is that size, with no content size; asked for the
/// width only, with the width known and the height not fixed by the style,
/// the answer is that width and zero height.
pub proof fn lemma_known_size_answers<T: LayoutTableContainer>(
    tree: T,
    node: NodeId,
    inputs: LayoutInput,
    style: TableStyle,
    width: i64,
    height: i64,
)
    requires
        inputs.run_mode == RunMode::ComputeSize,
        0 <= style.padding.left <= 0x1000_0000_0000_0000,
        0 <= style.padding.right <= 0x1000_0000_0000_0000,
        0 <= style.padding.top <= 0x1000_0000_0000_0000,
        0 <= style.padding.bottom <= 0x1000_0000_0000_0000,
        0 <= style.border.left <= 0x1000_0000_0000_0000,
        0 <= style.border.right <= 0x1000_0000_0000_0000,
        0 <= style.border.top <= 0x1000_0000_0000_0000,
        0 <= style.border.bottom <= 0x1000_0000_0000_0000,
        width >= style.padding.left + style.padding.right + style.border.left + style.border.right,
        height >= style.padding.top + style.padding.bottom + style.border.top
            + style.border.bottom,
    ensures
        inputs.known_dimensions == (Size { width: Some(width), height: Some(height) })
            ==> table_layout_spec(tree, node, inputs, style).size == (Size {
            width,
            height,
        }) && table_layout_spec(tree, node, inputs, style).content_size == (Size {
            width: 0i64,
            height: 0i64,
        }),
        inputs.known_dimensions == (Size { width: Some(width), height: None }) && inputs.axis
            == RequestedAxis::Horizontal && style.size.height is None
            && style.min_size.height is None ==> table_layout_spec(
            tree,
            node,
            inputs,
            style,
        ).size == (Size { width, height: 0i64 }),
{
}

} // verus!
