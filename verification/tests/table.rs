//! Tests for CSS table layout, run on a small layout tree whose rows are laid
//! out as flex rows (cells side by side, growing cells sharing extra width).

use tablelayout::compute::compute_table_layout;
use tablelayout::geometry::{Line, Point, Rect, Size};
use tablelayout::style::{BorderCollapse, BoxSizing, TableStyle};
use tablelayout::tree::{
    AvailableSpace, Layout, LayoutInput, LayoutOutput, LayoutTableContainer, NodeId, RequestedAxis,
    RunMode, SizingMode,
};

#[derive(Clone, Copy)]
enum Kind {
    Table(TableStyle),
    Row,
    Cell { width: i64, height: i64, grow: bool },
    Block { width: i64, height: i64 },
}

struct Node {
    kind: Kind,
    children: Vec<NodeId>,
    layout: Layout,
}

struct TestTree {
    nodes: Vec<Node>,
}

fn empty_layout() -> Layout {
    Layout {
        order: 0,
        location: Point { x: 0, y: 0 },
        size: Size { width: 0, height: 0 },
        content_size: Size { width: 0, height: 0 },
        scrollbar_size: Size { width: 0, height: 0 },
        border: Rect::zero(),
        padding: Rect::zero(),
        margin: Rect::zero(),
    }
}

fn rect(left: i64, right: i64, top: i64, bottom: i64) -> Rect<i64> {
    Rect { left, right, top, bottom }
}

fn no_size() -> Size<Option<i64>> {
    Size { width: None, height: None }
}

fn table_style() -> TableStyle {
    TableStyle {
        box_sizing: BoxSizing::BorderBox,
        padding: Rect::zero(),
        border: Rect::zero(),
        border_collapse: BorderCollapse::Separate,
        border_spacing: no_size(),
        size: no_size(),
        min_size: no_size(),
        max_size: no_size(),
    }
}

fn max_content() -> Size<AvailableSpace> {
    Size { width: AvailableSpace::MaxContent, height: AvailableSpace::MaxContent }
}

fn input(
    run_mode: RunMode,
    known: Size<Option<i64>>,
    parent: Size<Option<i64>>,
    available: Size<AvailableSpace>,
) -> LayoutInput {
    LayoutInput {
        run_mode,
        sizing_mode: SizingMode::InherentSize,
        axis: RequestedAxis::Both,
        known_dimensions: known,
        parent_size: parent,
        available_space: available,
        vertical_margins_are_collapsible: Line { start: false, end: false },
    }
}

impl TestTree {
    fn new() -> TestTree {
        TestTree { nodes: Vec::new() }
    }

    fn add(&mut self, kind: Kind, children: &[NodeId]) -> NodeId {
        self.nodes.push(Node { kind, children: children.to_vec(), layout: empty_layout() });
        NodeId((self.nodes.len() - 1) as u64)
    }

    fn cell(&mut self, width: i64, height: i64) -> NodeId {
        self.add(Kind::Cell { width, height, grow: false }, &[])
    }

    fn growing_cell(&mut self, width: i64, height: i64) -> NodeId {
        self.add(Kind::Cell { width, height, grow: true }, &[])
    }

    fn row(&mut self, cells: &[NodeId]) -> NodeId {
        self.add(Kind::Row, cells)
    }

    fn table(&mut self, style: TableStyle, rows: &[NodeId]) -> NodeId {
        self.add(Kind::Table(style), rows)
    }

    fn node(&self, id: NodeId) -> &Node {
        &self.nodes[id.0 as usize]
    }

    fn layout(&self, id: NodeId) -> Layout {
        self.node(id).layout
    }

    /// Lays out or measures any node of the tree.
    fn layout_node(&mut self, id: NodeId, inputs: LayoutInput) -> LayoutOutput {
        match self.node(id).kind {
            Kind::Table(_) => compute_table_layout(self, id, inputs),
            Kind::Cell { width, height, .. } => LayoutOutput::from_outer_size(Size {
                width: inputs.known_dimensions.width.unwrap_or(width),
                height: inputs.known_dimensions.height.unwrap_or(height),
            }),
            Kind::Block { width, height } => {
                let children = self.node(id).children.clone();
                for (i, child) in children.iter().enumerate() {
                    let out = self.layout_node(
                        *child,
                        input(
                            inputs.run_mode,
                            no_size(),
                            Size { width: Some(width), height: Some(height) },
                            Size {
                                width: AvailableSpace::Definite(width),
                                height: AvailableSpace::Definite(height),
                            },
                        ),
                    );
                    if inputs.run_mode == RunMode::PerformLayout {
                        let mut layout = empty_layout();
                        layout.order = i as u32;
                        layout.size = out.size;
                        self.nodes[child.0 as usize].layout = layout;
                    }
                }
                LayoutOutput::from_outer_size(Size { width, height })
            }
            Kind::Row => self.layout_row(id, inputs),
        }
    }

    /// A flex row: cells side by side, as wide as their sum and as tall as
    /// the tallest, with extra definite width shared by growing cells.
    fn layout_row(&mut self, id: NodeId, inputs: LayoutInput) -> LayoutOutput {
        let children = self.node(id).children.clone();
        let mut sizes = Vec::new();
        for child in children.iter() {
            let out = self.layout_node(
                *child,
                input(RunMode::ComputeSize, no_size(), inputs.parent_size, max_content()),
            );
            sizes.push(out.size);
        }
        let natural_width: i64 = sizes.iter().map(|s| s.width).sum();
        let natural_height: i64 = sizes.iter().map(|s| s.height).max().unwrap_or(0);
        let width = inputs.known_dimensions.width.unwrap_or(natural_width);
        let height = inputs.known_dimensions.height.unwrap_or(natural_height);
        if inputs.run_mode == RunMode::PerformLayout {
            let growing: Vec<usize> = (0..children.len())
                .filter(|i| matches!(self.node(children[*i]).kind, Kind::Cell { grow: true, .. }))
                .collect();
            if width > natural_width && !growing.is_empty() {
                let extra = (width - natural_width) / growing.len() as i64;
                for i in growing {
                    sizes[i].width += extra;
                }
            }
            let mut x = 0;
            for (i, child) in children.iter().enumerate() {
                let out = self.layout_node(
                    *child,
                    input(
                        RunMode::PerformLayout,
                        Size { width: Some(sizes[i].width), height: Some(sizes[i].height) },
                        Size { width: Some(width), height: Some(height) },
                        max_content(),
                    ),
                );
                let mut layout = empty_layout();
                layout.order = i as u32;
                layout.location = Point { x, y: 0 };
                layout.size = out.size;
                self.nodes[child.0 as usize].layout = layout;
                x += out.size.width;
            }
        }
        LayoutOutput::from_sizes(
            Size { width, height },
            Size { width: natural_width, height: natural_height },
        )
    }

    /// Lays out the tree from `root`: a root table stretches to a definite
    /// available width, as a block-level box does.
    fn compute_layout(&mut self, root: NodeId, available: Size<AvailableSpace>) {
        let known_width = match (self.node(root).kind, available.width) {
            (Kind::Table(_), AvailableSpace::Definite(w)) => Some(w),
            _ => None,
        };
        let parent = Size {
            width: match available.width {
                AvailableSpace::Definite(w) => Some(w),
                _ => None,
            },
            height: match available.height {
                AvailableSpace::Definite(h) => Some(h),
                _ => None,
            },
        };
        let out = self.layout_node(
            root,
            input(RunMode::PerformLayout, Size { width: known_width, height: None }, parent, available),
        );
        let mut layout = self.layout(root);
        layout.size = out.size;
        layout.location = Point { x: 0, y: 0 };
        self.nodes[root.0 as usize].layout = layout;
    }
}

impl LayoutTableContainer for TestTree {
    fn child_count(&self, parent: NodeId) -> usize {
        self.node(parent).children.len()
    }

    fn get_child_id(&self, parent: NodeId, index: usize) -> NodeId {
        self.node(parent).children[index]
    }

    fn get_table_container_style(&self, node: NodeId, _parent_size: Size<Option<i64>>) -> TableStyle {
        match self.node(node).kind {
            Kind::Table(style) => style,
            _ => table_style(),
        }
    }

    fn measure_child_size_both(
        &mut self,
        child: NodeId,
        known_dimensions: Size<Option<i64>>,
        parent_size: Size<Option<i64>>,
        available_space: Size<AvailableSpace>,
        sizing_mode: SizingMode,
        vertical_margins_are_collapsible: Line<bool>,
    ) -> Size<i64> {
        let inputs = LayoutInput {
            run_mode: RunMode::ComputeSize,
            sizing_mode,
            axis: RequestedAxis::Both,
            known_dimensions,
            parent_size,
            available_space,
            vertical_margins_are_collapsible,
        };
        self.layout_node(child, inputs).size
    }

    fn perform_child_layout(
        &mut self,
        child: NodeId,
        known_dimensions: Size<Option<i64>>,
        parent_size: Size<Option<i64>>,
        available_space: Size<AvailableSpace>,
        sizing_mode: SizingMode,
        vertical_margins_are_collapsible: Line<bool>,
    ) -> LayoutOutput {
        let inputs = LayoutInput {
            run_mode: RunMode::PerformLayout,
            sizing_mode,
            axis: RequestedAxis::Both,
            known_dimensions,
            parent_size,
            available_space,
            vertical_margins_are_collapsible,
        };
        self.layout_node(child, inputs)
    }

    fn set_unrounded_layout(&mut self, node: NodeId, layout: &Layout) {
        self.nodes[node.0 as usize].layout = *layout;
    }
}

fn assert_size(tree: &TestTree, node: NodeId, width: i64, height: i64) {
    let layout = tree.layout(node);
    assert_eq!(layout.size.width, width, "width of node {:?}", node);
    assert_eq!(layout.size.height, height, "height of node {:?}", node);
}

fn assert_position(tree: &TestTree, node: NodeId, x: i64, y: i64) {
    let layout = tree.layout(node);
    assert_eq!(layout.location.x, x, "x of node {:?}", node);
    assert_eq!(layout.location.y, y, "y of node {:?}", node);
}

#[test]
fn table_empty() {
    let mut tree = TestTree::new();
    let table = tree.table(table_style(), &[]);
    tree.compute_layout(table, max_content());

    assert_size(&tree, table, 0, 0);
}

#[test]
fn table_single_row_single_cell() {
    let mut tree = TestTree::new();
    let cell = tree.cell(100, 50);
    let row = tree.row(&[cell]);
    let table = tree.table(table_style(), &[row]);
    tree.compute_layout(table, max_content());

    assert_size(&tree, table, 100, 50);
    assert_size(&tree, row, 100, 50);
    assert_size(&tree, cell, 100, 50);
    assert_position(&tree, cell, 0, 0);
}

#[test]
fn table_single_row_multiple_cells() {
    let mut tree = TestTree::new();
    let cell0 = tree.cell(100, 50);
    let cell1 = tree.cell(80, 50);
    let cell2 = tree.cell(120, 50);
    let row = tree.row(&[cell0, cell1, cell2]);
    let table = tree.table(table_style(), &[row]);
    tree.compute_layout(table, max_content());

    // Table width = sum of cell widths = 100 + 80 + 120 = 300
    // Table height = max cell height = 50
    assert_size(&tree, table, 300, 50);
    assert_size(&tree, row, 300, 50);

    // Cells are positioned side by side
    assert_position(&tree, cell0, 0, 0);
    assert_position(&tree, cell1, 100, 0);
    assert_position(&tree, cell2, 180, 0);
}

#[test]
fn table_multiple_rows() {
    let mut tree = TestTree::new();
    let r0c0 = tree.cell(100, 50);
    let r0c1 = tree.cell(80, 50);
    let row0 = tree.row(&[r0c0, r0c1]);

    let r1c0 = tree.cell(60, 40);
    let r1c1 = tree.cell(120, 40);
    let row1 = tree.row(&[r1c0, r1c1]);

    let table = tree.table(table_style(), &[row0, row1]);
    tree.compute_layout(table, max_content());

    // Each row is measured on its own: max(100 + 80, 60 + 120) = 180
    assert_size(&tree, table, 180, 90);

    assert_position(&tree, row0, 0, 0);
    assert_size(&tree, row0, 180, 50);

    assert_position(&tree, row1, 0, 50);
    assert_size(&tree, row1, 180, 40);

    assert_position(&tree, r0c0, 0, 0);
    assert_size(&tree, r0c0, 100, 50);
    assert_position(&tree, r0c1, 100, 0);
    assert_size(&tree, r0c1, 80, 50);

    assert_position(&tree, r1c0, 0, 0);
    assert_size(&tree, r1c0, 60, 40);
    assert_position(&tree, r1c1, 60, 0);
    assert_size(&tree, r1c1, 120, 40);
}

#[test]
fn table_with_padding_and_border() {
    let mut tree = TestTree::new();
    let cell_node = tree.cell(100, 50);
    let row = tree.row(&[cell_node]);
    let mut style = table_style();
    style.padding = rect(10, 10, 10, 10);
    style.border = rect(5, 5, 5, 5);
    let table = tree.table(style, &[row]);
    tree.compute_layout(table, max_content());

    // 100 + 2 * (10 + 5) = 130, 50 + 2 * (10 + 5) = 80
    assert_size(&tree, table, 130, 80);

    // The row is offset by padding + border = 15 on each side
    assert_position(&tree, row, 15, 15);
}

#[test]
fn table_with_explicit_width() {
    let mut tree = TestTree::new();
    let cell0 = tree.growing_cell(100, 50);
    let cell1 = tree.growing_cell(100, 50);
    let row = tree.row(&[cell0, cell1]);
    let mut style = table_style();
    style.size = Size { width: Some(400), height: None };
    let table = tree.table(style, &[row]);
    tree.compute_layout(table, max_content());

    assert_size(&tree, table, 400, 50);

    // Each growing cell gets half of the 400 units
    assert_size(&tree, cell0, 200, 50);
    assert_size(&tree, cell1, 200, 50);
}

#[test]
fn table_with_explicit_height() {
    let mut tree = TestTree::new();
    let cell0 = tree.cell(100, 50);
    let row = tree.row(&[cell0]);
    let mut style = table_style();
    style.size = Size { width: None, height: Some(200) };
    let table = tree.table(style, &[row]);
    tree.compute_layout(table, max_content());

    assert_size(&tree, table, 100, 200);
    // A single row stretches to the table's height
    assert_size(&tree, row, 100, 200);
}

#[test]
fn table_with_min_max_constraints() {
    let mut tree = TestTree::new();
    let cell = tree.cell(100, 50);
    let row = tree.row(&[cell]);
    let mut style = table_style();
    style.min_size = Size { width: Some(150), height: Some(80) };
    let table = tree.table(style, &[row]);
    tree.compute_layout(table, max_content());

    // The minimum size overrides the content size
    assert_size(&tree, table, 150, 80);
}

#[test]
fn table_with_colspan() {
    let mut tree = TestTree::new();
    // The first cell of the first row spans two columns
    let cell0 = tree.cell(200, 50);
    let cell1 = tree.cell(100, 50);
    let row = tree.row(&[cell0, cell1]);

    let r1c0 = tree.cell(80, 40);
    let r1c1 = tree.cell(80, 40);
    let r1c2 = tree.cell(80, 40);
    let row1 = tree.row(&[r1c0, r1c1, r1c2]);

    let table = tree.table(table_style(), &[row, row1]);
    tree.compute_layout(table, max_content());

    assert_size(&tree, table, 300, 90);

    assert_size(&tree, cell0, 200, 50);
    assert_size(&tree, cell1, 100, 50);
}

#[test]
fn table_stretch_to_available_width() {
    let mut tree = TestTree::new();
    let cell = tree.cell(100, 50);
    let row = tree.row(&[cell]);
    let table = tree.table(table_style(), &[row]);

    // At the root, a table stretches to a definite available width
    tree.compute_layout(
        table,
        Size { width: AvailableSpace::Definite(500), height: AvailableSpace::MaxContent },
    );

    assert_size(&tree, table, 500, 50);
    assert_size(&tree, row, 500, 50);
}

#[test]
fn table_compute_size_mode() {
    let mut tree = TestTree::new();
    let cell0 = tree.cell(100, 50);
    let cell1 = tree.cell(80, 50);
    let row = tree.row(&[cell0, cell1]);
    let table = tree.table(table_style(), &[row]);

    tree.compute_layout(table, max_content());

    // The table sizes to its content: 100 + 80 = 180 by 50
    assert_size(&tree, table, 180, 50);
}

#[test]
fn table_as_block_child() {
    let mut tree = TestTree::new();
    let cell = tree.cell(100, 50);
    let row = tree.row(&[cell]);
    let table = tree.table(table_style(), &[row]);
    let block = tree.add(Kind::Block { width: 500, height: 200 }, &[table]);
    tree.compute_layout(block, max_content());

    // Inside a block container the table shrinks to fit its content
    assert_size(&tree, table, 100, 50);
}

#[test]
fn table_with_border_spacing() {
    let mut tree = TestTree::new();
    let cell0 = tree.cell(100, 50);
    let cell1 = tree.cell(80, 50);
    let row = tree.row(&[cell0, cell1]);
    let mut style = table_style();
    style.border_spacing = Size { width: Some(5), height: Some(3) };
    let table = tree.table(style, &[row]);
    tree.compute_layout(table, max_content());

    // Width = 100 + 80 + 2 * 5 = 190; height = 50 + 2 * 3 = 56
    assert_size(&tree, table, 190, 56);

    // The row is offset by the border spacing
    assert_position(&tree, row, 5, 3);
}

#[test]
fn table_nested() {
    let mut tree = TestTree::new();
    let inner_cell = tree.cell(60, 30);
    let inner_row = tree.row(&[inner_cell]);
    let inner_table = tree.table(table_style(), &[inner_row]);

    let outer_cell = tree.row(&[inner_table]);
    let outer_row = tree.row(&[outer_cell]);
    let outer_table = tree.table(table_style(), &[outer_row]);

    tree.compute_layout(outer_table, max_content());

    assert_size(&tree, inner_table, 60, 30);
    assert_size(&tree, outer_table, 60, 30);
}

#[test]
fn table_multiple_rows_with_border_spacing() {
    let mut tree = TestTree::new();
    let r0c0 = tree.cell(100, 40);
    let row0 = tree.row(&[r0c0]);
    let r1c0 = tree.cell(100, 30);
    let row1 = tree.row(&[r1c0]);
    let r2c0 = tree.cell(100, 20);
    let row2 = tree.row(&[r2c0]);

    let mut style = table_style();
    style.border_spacing = Size { width: Some(5), height: Some(10) };
    let table = tree.table(style, &[row0, row1, row2]);
    tree.compute_layout(table, max_content());

    // 3 rows produce 4 vertical gaps of 10: height = 40 + 30 + 20 + 40 = 130
    // Width = 100 + 2 * 5 = 110
    assert_size(&tree, table, 110, 130);

    assert_position(&tree, row0, 5, 10);
    assert_size(&tree, row0, 100, 40);

    assert_position(&tree, row1, 5, 60);
    assert_size(&tree, row1, 100, 30);

    assert_position(&tree, row2, 5, 100);
    assert_size(&tree, row2, 100, 20);
}

fn two_row_table(tree: &mut TestTree, style: TableStyle) -> (NodeId, NodeId, NodeId) {
    let r0c0 = tree.cell(100, 40);
    let r0c1 = tree.cell(80, 40);
    let row0 = tree.row(&[r0c0, r0c1]);
    let r1c0 = tree.cell(120, 30);
    let row1 = tree.row(&[r1c0]);
    let table = tree.table(style, &[row0, row1]);
    (table, row0, row1)
}

#[test]
fn table_size_known_without_measuring_rows() {
    let mut tree = TestTree::new();
    let (table, row0, _) = two_row_table(&mut tree, table_style());
    let known = Size { width: Some(300), height: Some(100) };
    let out = compute_table_layout(
        &mut tree,
        table,
        input(RunMode::ComputeSize, known, no_size(), max_content()),
    );
    assert_eq!(out, LayoutOutput::from_outer_size(Size { width: 300, height: 100 }));
    // Nothing was laid out
    assert_eq!(tree.layout(row0), empty_layout());
}

#[test]
fn table_width_only_asked_for() {
    let mut tree = TestTree::new();
    let (table, _, _) = two_row_table(&mut tree, table_style());
    let mut inputs = input(RunMode::ComputeSize, Size { width: Some(250), height: None }, no_size(), max_content());
    inputs.axis = RequestedAxis::Horizontal;
    let out = compute_table_layout(&mut tree, table, inputs);
    assert_eq!(out, LayoutOutput::from_outer_size(Size { width: 250, height: 0 }));

    // Asked for both axes, the rows are measured for the height
    inputs.axis = RequestedAxis::Both;
    let out = compute_table_layout(&mut tree, table, inputs);
    assert_eq!(out.size, Size { width: 250, height: 70 });
}

#[test]
fn size_computation_matches_full_layout() {
    let mut style = table_style();
    style.border_spacing = Size { width: Some(4), height: Some(6) };
    style.padding = rect(1, 2, 3, 4);
    let mut tree = TestTree::new();
    let (table, row0, row1) = two_row_table(&mut tree, style);
    let sized = compute_table_layout(&mut tree, table, input(RunMode::ComputeSize, no_size(), no_size(), max_content()));
    let laid_out =
        compute_table_layout(&mut tree, table, input(RunMode::PerformLayout, no_size(), no_size(), max_content()));
    assert_eq!(sized, laid_out);
    // 180 + 2 * 4 + 1 + 2 = 191; 40 + 30 + 3 * 6 + 3 + 4 = 95
    assert_eq!(laid_out.size, Size { width: 191, height: 95 });
    assert_eq!(laid_out.content_size, Size { width: 188, height: 88 });
    // Rows: x = 1 + 4, first y = 3 + 6, second y = 9 + 40 + 6
    assert_position(&tree, row0, 5, 9);
    assert_position(&tree, row1, 5, 55);
    assert_size(&tree, row0, 180, 40);
    assert_size(&tree, row1, 180, 30);
    assert_eq!(tree.layout(row1).order, 1);
    // Below the last row and its spacing lies the bottom of the content box
    let last = tree.layout(row1);
    assert_eq!(last.location.y + last.size.height + 6, 3 + laid_out.content_size.height);
    // The table's own layout carries its padding
    assert_eq!(tree.layout(table).padding, rect(1, 2, 3, 4));
    assert_eq!(tree.layout(table).size, Size { width: 191, height: 95 });
}

#[test]
fn table_empty_with_border_spacing() {
    let mut tree = TestTree::new();
    let mut style = table_style();
    style.border_spacing = Size { width: Some(5), height: Some(10) };
    let table = tree.table(style, &[]);
    tree.compute_layout(table, max_content());

    // No rows: the spacing on the left and right, and one vertical gap
    assert_size(&tree, table, 10, 10);
}

#[test]
fn table_with_content_box_sizing() {
    let mut tree = TestTree::new();
    let cell = tree.cell(100, 50);
    let row = tree.row(&[cell]);
    let mut style = table_style();
    style.box_sizing = BoxSizing::ContentBox;
    style.size = Size { width: Some(200), height: None };
    style.padding = rect(10, 10, 10, 10);
    let table = tree.table(style, &[row]);
    tree.compute_layout(table, max_content());

    // The styled width is the content width
    assert_size(&tree, table, 220, 70);
    assert_size(&tree, row, 200, 50);
    assert_position(&tree, row, 10, 10);
}

#[test]
fn table_with_max_size() {
    let mut tree = TestTree::new();
    let cell = tree.cell(300, 50);
    let row = tree.row(&[cell]);
    let mut style = table_style();
    style.max_size = Size { width: Some(200), height: Some(20) };
    let table = tree.table(style, &[row]);
    tree.compute_layout(table, max_content());

    assert_size(&tree, table, 200, 20);
    // A single row is given the table's content height
    assert_size(&tree, row, 200, 20);
}

#[test]
fn table_with_conflicting_min_and_max() {
    let mut tree = TestTree::new();
    let cell = tree.cell(100, 50);
    let row = tree.row(&[cell]);
    let mut style = table_style();
    style.min_size = Size { width: Some(150), height: None };
    style.max_size = Size { width: Some(120), height: None };
    let table = tree.table(style, &[row]);
    tree.compute_layout(table, max_content());

    // Where the maximum is below the minimum, the minimum wins
    assert_size(&tree, table, 150, 50);
}

#[test]
fn table_fixed_width_does_not_depend_on_rows() {
    let mut style = table_style();
    style.size = Size { width: Some(400), height: None };
    let mut narrow = TestTree::new();
    let (narrow_table, _, _) = two_row_table(&mut narrow, style);
    narrow.compute_layout(narrow_table, max_content());

    let mut wide = TestTree::new();
    let cell = wide.cell(900, 10);
    let row = wide.row(&[cell]);
    let wide_table = wide.table(style, &[row]);
    wide.compute_layout(wide_table, max_content());

    assert_eq!(narrow.layout(narrow_table).size.width, 400);
    assert_eq!(wide.layout(wide_table).size.width, 400);
}

#[test]
fn table_in_narrow_block_keeps_min_content_width() {
    let mut tree = TestTree::new();
    let cell = tree.cell(100, 50);
    let row = tree.row(&[cell]);
    let table = tree.table(table_style(), &[row]);
    let block = tree.add(Kind::Block { width: 40, height: 200 }, &[table]);
    tree.compute_layout(block, max_content());

    // Shrink-to-fit stops at the min-content width
    assert_size(&tree, table, 100, 50);
}

#[test]
fn table_never_smaller_than_padding_and_border() {
    let mut tree = TestTree::new();
    let mut style = table_style();
    style.padding = rect(10, 10, 10, 10);
    style.border = rect(2, 2, 2, 2);
    style.max_size = Size { width: Some(5), height: Some(5) };
    let table = tree.table(style, &[]);
    tree.compute_layout(table, max_content());

    assert_size(&tree, table, 24, 24);
}

#[test]
fn table_with_collapsed_borders_ignores_border_spacing() {
    let mut tree = TestTree::new();
    let (table, row0, row1) = {
        let mut style = table_style();
        style.border_collapse = BorderCollapse::Collapse;
        style.border_spacing = Size { width: Some(5), height: Some(10) };
        two_row_table(&mut tree, style)
    };
    tree.compute_layout(table, max_content());

    assert_size(&tree, table, 180, 70);
    assert_position(&tree, row0, 0, 0);
    assert_position(&tree, row1, 0, 40);
}
