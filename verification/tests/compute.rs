//! Tests of the steps of table layout, each on plain values.

use tablelayout::compute::{
    first_row_origin, intrinsic_width, next_row_offset, resolve_content_height,
    resolve_content_width, row_content_width, row_known_height, row_layout, short_circuit,
    spacing_total, sum_heights, table_node_layout, table_sizing, TableSizing,
};
use tablelayout::geometry::{Line, Point, Rect, Size};
use tablelayout::length::{add_len, len_clamp, opt_add, opt_clamp, opt_max, opt_or, opt_sub, sub_len};
use tablelayout::style::{BorderCollapse, BoxSizing, CaptionSide, TableContainerStyle, TableItemStyle, TableStyle};
use tablelayout::tree::{AvailableSpace, LayoutInput, LayoutOutput, RequestedAxis, RunMode, SizingMode};

/// A style that keeps every default.
struct Plain;

impl TableContainerStyle for Plain {}

impl TableItemStyle for Plain {}

fn no_size() -> Size<Option<i64>> {
    Size { width: None, height: None }
}

fn inputs(run_mode: RunMode, axis: RequestedAxis, known: Size<Option<i64>>) -> LayoutInput {
    LayoutInput {
        run_mode,
        sizing_mode: SizingMode::InherentSize,
        axis,
        known_dimensions: known,
        parent_size: no_size(),
        available_space: Size { width: AvailableSpace::MaxContent, height: AvailableSpace::MaxContent },
        vertical_margins_are_collapsible: Line { start: false, end: false },
    }
}

fn sizing() -> TableSizing {
    table_sizing(&TableStyle::default(), &inputs(RunMode::PerformLayout, RequestedAxis::Both, no_size()))
}

#[test]
fn saturating_lengths() {
    assert_eq!(add_len(40, 2), 42);
    assert_eq!(add_len(i64::MAX, 1), i64::MAX);
    assert_eq!(add_len(i64::MIN, -1), i64::MIN);
    assert_eq!(sub_len(40, 50), -10);
    assert_eq!(sub_len(i64::MIN, 1), i64::MIN);
    assert_eq!(sub_len(i64::MAX, -1), i64::MAX);
}

#[test]
fn clamping_lengths() {
    assert_eq!(len_clamp(50, Some(60), Some(100)), 60);
    assert_eq!(len_clamp(150, Some(60), Some(100)), 100);
    assert_eq!(len_clamp(80, None, None), 80);
    // Where the bounds cross, the lower bound wins
    assert_eq!(len_clamp(80, Some(120), Some(100)), 120);
    assert_eq!(opt_clamp(Some(10), Some(20), None), Some(20));
    assert_eq!(opt_clamp(None, Some(20), Some(30)), None);
}

#[test]
fn optional_lengths() {
    assert_eq!(opt_add(Some(10), 5), Some(15));
    assert_eq!(opt_add(None, 5), None);
    assert_eq!(opt_sub(Some(10), 15), Some(-5));
    assert_eq!(opt_max(Some(10), 15), Some(15));
    assert_eq!(opt_max(None, 15), None);
    assert_eq!(opt_or(None, Some(3)), Some(3));
    assert_eq!(opt_or(Some(1), Some(3)), Some(1));
}

#[test]
fn sizing_with_padding_border_and_content_box() {
    let mut style = TableStyle::default();
    style.box_sizing = BoxSizing::ContentBox;
    style.padding = Rect { left: 10, right: 10, top: 4, bottom: 4 };
    style.border = Rect { left: 5, right: 5, top: 1, bottom: 1 };
    style.size = Size { width: Some(100), height: None };
    style.min_size = Size { width: None, height: Some(20) };
    style.border_spacing = Size { width: Some(3), height: None };
    let s = table_sizing(&style, &inputs(RunMode::PerformLayout, RequestedAxis::Both, no_size()));
    assert_eq!(s.padding_border, Size { width: 30, height: 10 });
    // Content-box sizes are turned into border-box sizes
    assert_eq!(s.known, Size { width: Some(130), height: None });
    assert_eq!(s.inner, Size { width: Some(100), height: None });
    assert_eq!(s.min_size, Size { width: None, height: Some(30) });
    assert_eq!(s.content_min, Size { width: None, height: Some(20) });
    assert_eq!(s.spacing, Size { width: 3, height: 0 });
}

#[test]
fn collapsed_borders_have_no_spacing() {
    let mut style = TableStyle::default();
    style.border_spacing = Size { width: Some(3), height: Some(4) };
    let s = table_sizing(&style, &inputs(RunMode::PerformLayout, RequestedAxis::Both, no_size()));
    assert_eq!(s.spacing, Size { width: 3, height: 4 });
    style.border_collapse = BorderCollapse::Collapse;
    let s = table_sizing(&style, &inputs(RunMode::PerformLayout, RequestedAxis::Both, no_size()));
    assert_eq!(s.spacing, Size { width: 0, height: 0 });
}

#[test]
fn sizing_with_border_box() {
    let mut style = TableStyle::default();
    style.padding = Rect { left: 10, right: 10, top: 10, bottom: 10 };
    style.size = Size { width: Some(100), height: Some(5) };
    let s = table_sizing(&style, &inputs(RunMode::PerformLayout, RequestedAxis::Both, no_size()));
    // The size includes the padding, and is at least the padding
    assert_eq!(s.known, Size { width: Some(100), height: Some(20) });
    assert_eq!(s.inner, Size { width: Some(80), height: Some(0) });
}

#[test]
fn sizing_prefers_known_dimensions_then_bounds_then_style() {
    let mut style = TableStyle::default();
    style.size = Size { width: Some(100), height: Some(100) };
    style.min_size = Size { width: Some(300), height: None };
    style.max_size = Size { width: Some(200), height: Some(50) };
    let s = table_sizing(
        &style,
        &inputs(RunMode::PerformLayout, RequestedAxis::Both, Size { width: None, height: Some(70) }),
    );
    // A maximum not above the minimum fixes the size at the minimum
    assert_eq!(s.known.width, Some(300));
    // A known dimension wins over the style
    assert_eq!(s.known.height, Some(70));

    let mut content_sized = inputs(RunMode::PerformLayout, RequestedAxis::Both, no_size());
    content_sized.sizing_mode = SizingMode::ContentSize;
    let mut style = TableStyle::default();
    style.size = Size { width: Some(100), height: Some(100) };
    let s = table_sizing(&style, &content_sized);
    // In content sizing the styled size is ignored
    assert_eq!(s.known, no_size());

    let s = table_sizing(&style, &inputs(RunMode::PerformLayout, RequestedAxis::Both, no_size()));
    assert_eq!(s.known, Size { width: Some(100), height: Some(100) });
}

#[test]
fn short_circuit_when_size_is_known() {
    let both = Size { width: Some(300), height: Some(100) };
    let out = short_circuit(&inputs(RunMode::ComputeSize, RequestedAxis::Both, both), both);
    assert_eq!(out, Some(LayoutOutput::from_outer_size(Size { width: 300, height: 100 })));

    let width_only = Size { width: Some(300), height: None };
    let out = short_circuit(&inputs(RunMode::ComputeSize, RequestedAxis::Horizontal, no_size()), width_only);
    assert_eq!(out, Some(LayoutOutput::from_outer_size(Size { width: 300, height: 0 })));

    let out = short_circuit(&inputs(RunMode::ComputeSize, RequestedAxis::Vertical, no_size()), width_only);
    assert_eq!(out, None);
    let out = short_circuit(&inputs(RunMode::PerformLayout, RequestedAxis::Both, both), both);
    assert_eq!(out, None);
    let out = short_circuit(&inputs(RunMode::ComputeSize, RequestedAxis::Both, no_size()), no_size());
    assert_eq!(out, None);
}

#[test]
fn intrinsic_width_is_widest_row_plus_spacing() {
    assert_eq!(intrinsic_width(&vec![100, 80, 120], 5), 130);
    assert_eq!(intrinsic_width(&vec![180, 180], 0), 180);
    assert_eq!(intrinsic_width(&vec![], 5), 10);
    // Never less than zero before the spacing is added
    assert_eq!(intrinsic_width(&vec![-40], 0), 0);
    assert_eq!(intrinsic_width(&vec![i64::MAX], 5), i64::MAX);
}

#[test]
fn content_width_shrinks_to_fit() {
    let s = sizing();
    assert_eq!(resolve_content_width(&s, AvailableSpace::Definite(500), 60, 100), 100);
    assert_eq!(resolve_content_width(&s, AvailableSpace::Definite(80), 60, 100), 80);
    assert_eq!(resolve_content_width(&s, AvailableSpace::Definite(20), 60, 100), 60);
    assert_eq!(resolve_content_width(&s, AvailableSpace::MinContent, 60, 100), 60);
    assert_eq!(resolve_content_width(&s, AvailableSpace::MaxContent, 60, 100), 100);
    // Where min-content exceeds max-content, max-content wins
    assert_eq!(resolve_content_width(&s, AvailableSpace::Definite(20), 120, 100), 100);
}

#[test]
fn more_space_is_never_narrower() {
    let s = sizing();
    let mut last = resolve_content_width(&s, AvailableSpace::Definite(-10), 60, 100);
    for available in [0, 59, 60, 61, 99, 100, 101, 1000] {
        let width = resolve_content_width(&s, AvailableSpace::Definite(available), 60, 100);
        assert!(last <= width);
        last = width;
    }
}

#[test]
fn content_width_respects_bounds_and_fixed_width() {
    let mut s = sizing();
    s.content_min = Size { width: Some(150), height: None };
    assert_eq!(resolve_content_width(&s, AvailableSpace::MaxContent, 60, 100), 150);
    let mut s = sizing();
    s.content_max = Size { width: Some(70), height: None };
    assert_eq!(resolve_content_width(&s, AvailableSpace::MaxContent, 60, 100), 70);
    let mut s = sizing();
    s.inner = Size { width: Some(400), height: None };
    assert_eq!(resolve_content_width(&s, AvailableSpace::MinContent, 60, 100), 400);
    // Never negative
    s.inner = Size { width: Some(-30), height: None };
    assert_eq!(resolve_content_width(&s, AvailableSpace::MinContent, 60, 100), 0);
}

#[test]
fn row_width_leaves_out_spacing() {
    assert_eq!(row_content_width(190, 5), 180);
    assert_eq!(row_content_width(100, 0), 100);
    assert_eq!(row_content_width(5, 10), 0);
}

#[test]
fn spacing_between_and_around_rows() {
    assert_eq!(spacing_total(3, 10), 40);
    assert_eq!(spacing_total(1, 3), 6);
    assert_eq!(spacing_total(0, 7), 7);
    assert_eq!(spacing_total(usize::MAX, i64::MAX), i64::MAX);
    assert_eq!(spacing_total(usize::MAX, -5), i64::MIN);
    assert_eq!(spacing_total(usize::MAX, 0), 0);
}

#[test]
fn heights_add_up_with_saturation() {
    assert_eq!(sum_heights(&vec![40, 30, 20]), 90);
    assert_eq!(sum_heights(&vec![]), 0);
    // The running sum saturates, then continues from the bound
    assert_eq!(sum_heights(&vec![i64::MAX, 1, -1]), i64::MAX - 1);
}

#[test]
fn content_height_from_rows() {
    let mut s = sizing();
    s.spacing = Size { width: 5, height: 10 };
    assert_eq!(resolve_content_height(&s, &vec![40, 30, 20]), 130);
    assert_eq!(resolve_content_height(&s, &vec![50]), 70);
    s.inner = Size { width: None, height: Some(200) };
    assert_eq!(resolve_content_height(&s, &vec![40, 30, 20]), 200);
    s.inner = no_size();
    s.content_max = Size { width: None, height: Some(100) };
    assert_eq!(resolve_content_height(&s, &vec![40, 30, 20]), 100);
    s.content_min = Size { width: None, height: Some(150) };
    assert_eq!(resolve_content_height(&s, &vec![40, 30, 20]), 150);
}

#[test]
fn rows_are_placed_one_below_the_other() {
    let mut style = TableStyle::default();
    style.padding = Rect { left: 10, right: 10, top: 10, bottom: 10 };
    style.border = Rect { left: 5, right: 5, top: 5, bottom: 5 };
    let origin = first_row_origin(&style, Size { width: 5, height: 10 });
    assert_eq!(origin, Point { x: 20, y: 25 });
    let y1 = next_row_offset(origin.y, 40, 10);
    assert_eq!(y1, 75);
    assert_eq!(next_row_offset(y1, 30, 10), 115);
    assert_eq!(next_row_offset(i64::MAX, 30, 10), i64::MAX);
}

#[test]
fn only_a_single_row_is_stretched() {
    assert_eq!(row_known_height(1, 200, 0), Some(200));
    assert_eq!(row_known_height(1, 56, 3), Some(50));
    assert_eq!(row_known_height(2, 200, 0), None);
    assert_eq!(row_known_height(0, 200, 0), None);
}

#[test]
fn layouts_of_rows_and_table() {
    let row = LayoutOutput::from_sizes(Size { width: 100, height: 40 }, Size { width: 90, height: 30 });
    let layout = row_layout(2, Point { x: 5, y: 60 }, &row);
    assert_eq!(layout.order, 2);
    assert_eq!(layout.location, Point { x: 5, y: 60 });
    assert_eq!(layout.size, Size { width: 100, height: 40 });
    assert_eq!(layout.content_size, Size { width: 90, height: 30 });
    assert_eq!(layout.padding, Rect::zero());

    let mut style = TableStyle::default();
    style.padding = Rect { left: 1, right: 2, top: 3, bottom: 4 };
    let out = LayoutOutput::from_sizes(Size { width: 110, height: 130 }, Size { width: 107, height: 123 });
    let layout = table_node_layout(&style, &out);
    assert_eq!(layout.order, 0);
    assert_eq!(layout.location, Point { x: 0, y: 0 });
    assert_eq!(layout.size, Size { width: 110, height: 130 });
    assert_eq!(layout.content_size, Size { width: 107, height: 123 });
    assert_eq!(layout.padding, Rect { left: 1, right: 2, top: 3, bottom: 4 });
    assert_eq!(layout.border, Rect::zero());
    assert_eq!(layout.margin, Rect::zero());
}

#[test]
fn output_constructors() {
    let out = LayoutOutput::from_outer_size(Size { width: 3, height: 4 });
    assert_eq!(out.size, Size { width: 3, height: 4 });
    assert_eq!(out.content_size, Size { width: 0, height: 0 });
    assert_eq!(out.first_baselines, Point { x: None, y: None });
}

#[test]
fn style_defaults() {
    assert_eq!(BorderCollapse::default(), BorderCollapse::Separate);
    assert_eq!(CaptionSide::default(), CaptionSide::Top);
    assert_eq!(BoxSizing::default(), BoxSizing::BorderBox);

    assert_eq!(Plain.border_collapse(), BorderCollapse::Separate);
    assert_eq!(Plain.border_spacing(), None);
    assert_eq!(Plain.caption_side(), CaptionSide::Top);
    assert!(!Plain.is_table_cell());
    assert!(!Plain.is_table_row());

    let mut style = TableStyle::default();
    assert_eq!(style.border_collapse(), BorderCollapse::Separate);
    assert_eq!(style.caption_side(), CaptionSide::Top);
    style.border_collapse = BorderCollapse::Collapse;
    assert_eq!(style.border_collapse(), BorderCollapse::Collapse);
}
