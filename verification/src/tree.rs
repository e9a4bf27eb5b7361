//! The interface between a layout algorithm and the tree it lays out.
use vstd::prelude::*;
use crate::geometry::{Line, Point, Rect, Size};
use crate::style::TableStyle;

verus! {

/// The identifier of a node in a layout tree.
#[derive(Debug, Clone, Copy, PartialEq, Eq, Hash, Structural)]
pub struct NodeId(pub u64);

/// The space available to a node along one axis.
#[derive(Debug, Clone, Copy, PartialEq, Eq, Structural)]
pub enum AvailableSpace {
    /// A definite amount of space.
    Definite(i64),
    /// The node is to be sized to its min-content size.
    MinContent,
    /// The node is to be sized to its max-content size.
    MaxContent,
}

/// Whether a layout pass computes only a size or lays out the whole subtree.
#[derive(Debug, Clone, Copy, PartialEq, Eq, Structural)]
pub enum RunMode {
    /// Compute the size and the positions of the children.
    PerformLayout,
    /// Compute the size only.
    ComputeSize,
    /// Lay out a hidden node.
    PerformHiddenLayout,
}

/// Whether a node's own styled size is taken into account.
#[derive(Debug, Clone, Copy, PartialEq, Eq, Structural)]
pub enum SizingMode {
    /// Size the node from its content only.
    ContentSize,
    /// Take the node's own styled size into account.
    InherentSize,
}

/// The axis (or axes) whose size a caller asks for.
#[derive(Debug, Clone, Copy, PartialEq, Eq, Structural)]
pub enum RequestedAxis {
    /// Only the width is asked for.
    Horizontal,
    /// Only the height is asked for.
    Vertical,
    /// Both the width and the height are asked for.
    Both,
}

/// The inputs of a layout pass over one node.
#[derive(Debug, Clone, Copy, PartialEq, Eq)]
pub struct LayoutInput {
    /// Whether to compute the size only or to perform the full layout.
    pub run_mode: RunMode,
    /// Whether the node's own styled size is taken into account.
    pub sizing_mode: SizingMode,
    /// Which axis the caller asks for.
    pub axis: RequestedAxis,
    /// Sizes the caller has already fixed for the node.
    pub known_dimensions: Size<Option<i64>>,
    /// The size of the node's parent, where known.
    pub parent_size: Size<Option<i64>>,
    /// The space available to the node.
    pub available_space: Size<AvailableSpace>,
    /// Whether the node's vertical margins may collapse.
    pub vertical_margins_are_collapsible: Line<bool>,
}

/// The result of a layout pass over one node.
#[derive(Debug, Clone, Copy, PartialEq, Eq)]
pub struct LayoutOutput {
    /// The size of the node's border box.
    pub size: Size<i64>,
    /// The size of the node's content.
    pub content_size: Size<i64>,
    /// The first baselines of the node, where it has them.
    pub first_baselines: Point<Option<i64>>,
}

/// The output of a layout pass with the given sizes and no baselines.
pub open spec fn output_of(size: Size<i64>, content_size: Size<i64>) -> LayoutOutput {
    LayoutOutput {
        size,
        content_size,
        first_baselines: Point { x: None, y: None },
    }
}

impl LayoutOutput {
    /// An output with the given border-box size, no content size and no baselines.
    pub fn from_outer_size(size: Size<i64>) -> (r: LayoutOutput)
        ensures
            r == output_of(size, Size { width: 0, height: 0 }),
    {
        LayoutOutput {
            size,
            content_size: Size { width: 0, height: 0 },
            first_baselines: Point { x: None, y: None },
        }
    }

    /// An output with the given border-box and content sizes and no baselines.
    pub fn from_sizes(size: Size<i64>, content_size: Size<i64>) -> (r: LayoutOutput)
        ensures
            r == output_of(size, content_size),
    {
        LayoutOutput { size, content_size, first_baselines: Point { x: None, y: None } }
    }
}

/// The final layout of one node, relative to its parent.
#[derive(Debug, Clone, Copy, PartialEq, Eq)]
pub struct Layout {
    /// The painting order of the node among its siblings.
    pub order: u32,
    /// The position of the node's top-left corner.
    pub location: Point<i64>,
    /// The size of the node's border box.
    pub size: Size<i64>,
    /// The size of the node's content.
    pub content_size: Size<i64>,
    /// The size of the node's scrollbars.
    pub scrollbar_size: Size<i64>,
    /// The node's border widths.
    pub border: Rect<i64>,
    /// The node's padding.
    pub padding: Rect<i64>,
    /// The node's margins.
    pub margin: Rect<i64>,
}

/// A tree that a table container can be laid out in.
///
/// The tree knows each node's children and style, measures and lays out the
/// table's rows with whatever algorithm they use, and stores the layouts that
/// the table algorithm hands it.
///
/// An implementation describes itself through the spec functions below, and a
/// verified implementation defines them from its own state. Their default
/// bodies leave them unspecified; they exist so that an implementation in
/// plain Rust, which cannot define spec functions, still compiles. Measuring a node and laying it out
/// are functions of the tree's structure and styles: none of the methods that
/// take `&mut self` changes what the spec functions other than
/// `unrounded_layout_of` say.
pub trait LayoutTableContainer {
    /// The children of `node`, in order.
    open spec fn child_ids(&self, node: NodeId) -> Seq<NodeId> {
        arbitrary()
    }

    /// Whether `node` lies in the subtree of `ancestor`, below it.
    open spec fn is_descendant(&self, node: NodeId, ancestor: NodeId) -> bool {
        arbitrary()
    }

    /// The style of the table container `node`, resolved against `parent_size`.
    open spec fn table_style_of(&self, node: NodeId, parent_size: Size<Option<i64>>) -> TableStyle {
        arbitrary()
    }

    /// The size that measuring `child` under the given constraints gives.
    open spec fn measured_size(
        &self,
        child: NodeId,
        known_dimensions: Size<Option<i64>>,
        parent_size: Size<Option<i64>>,
        available_space: Size<AvailableSpace>,
        sizing_mode: SizingMode,
        vertical_margins_are_collapsible: Line<bool>,
    ) -> Size<i64> {
        arbitrary()
    }

    /// The output that laying out `child` under the given constraints gives.
    open spec fn performed_output(
        &self,
        child: NodeId,
        known_dimensions: Size<Option<i64>>,
        parent_size: Size<Option<i64>>,
        available_space: Size<AvailableSpace>,
        sizing_mode: SizingMode,
        vertical_margins_are_collapsible: Line<bool>,
    ) -> LayoutOutput {
        arbitrary()
    }

    /// The layout that laying out `child` under the given constraints leaves
    /// on `node`, for `child` and each node below it.
    open spec fn performed_layout(
        &self,
        child: NodeId,
        known_dimensions: Size<Option<i64>>,
        parent_size: Size<Option<i64>>,
        available_space: Size<AvailableSpace>,
        sizing_mode: SizingMode,
        vertical_margins_are_collapsible: Line<bool>,
        node: NodeId,
    ) -> Layout {
        arbitrary()
    }

    /// The layout last stored for `node`.
    open spec fn unrounded_layout_of(&self, node: NodeId) -> Layout {
        arbitrary()
    }

    /// The number of children of `parent`.
    fn child_count(&self, parent: NodeId) -> (r: usize)
        ensures
            r == self.child_ids(parent).len(),
    ;

    /// The child of `parent` at `index`.
    fn get_child_id(&self, parent: NodeId, index: usize) -> (r: NodeId)
        requires
            index < self.child_ids(parent).len(),
        ensures
            r == self.child_ids(parent)[index as int],
    ;

    /// The style of the table container `node`, resolved against `parent_size`.
    fn get_table_container_style(&self, node: NodeId, parent_size: Size<Option<i64>>) -> (r:
        TableStyle)
        ensures
            r == self.table_style_of(node, parent_size),
    ;

    /// Measures the size of `child` under the given constraints, without
    /// storing any layout.
    fn measure_child_size_both(
        &mut self,
        child: NodeId,
        known_dimensions: Size<Option<i64>>,
        parent_size: Size<Option<i64>>,
        available_space: Size<AvailableSpace>,
        sizing_mode: SizingMode,
        vertical_margins_are_collapsible: Line<bool>,
    ) -> (r: Size<i64>)
        ensures
            r == old(self).measured_size(
                child,
                known_dimensions,
                parent_size,
                available_space,
                sizing_mode,
                vertical_margins_are_collapsible,
            ),
            forall|n: NodeId| #[trigger] final(self).child_ids(n) == old(self).child_ids(n),
            forall|n: NodeId, a: NodeId| #[trigger]
                final(self).is_descendant(n, a) == old(self).is_descendant(n, a),
            forall|n: NodeId, p: Size<Option<i64>>| #[trigger]
                final(self).table_style_of(n, p) == old(self).table_style_of(n, p),
            forall|
                c: NodeId,
                k: Size<Option<i64>>,
                p: Size<Option<i64>>,
                a: Size<AvailableSpace>,
                s: SizingMode,
                v: Line<bool>,
            | #[trigger] final(self).measured_size(c, k, p, a, s, v) == old(self).measured_size(
                c,
                k,
                p,
                a,
                s,
                v,
            ),
            forall|
                c: NodeId,
                k: Size<Option<i64>>,
                p: Size<Option<i64>>,
                a: Size<AvailableSpace>,
                s: SizingMode,
                v: Line<bool>,
            | #[trigger] final(self).performed_output(c, k, p, a, s, v)
                == old(self).performed_output(c, k, p, a, s, v),
            forall|
                c: NodeId,
                k: Size<Option<i64>>,
                p: Size<Option<i64>>,
                a: Size<AvailableSpace>,
                s: SizingMode,
                v: Line<bool>,
                n: NodeId,
            | #[trigger] final(self).performed_layout(c, k, p, a, s, v, n)
                == old(self).performed_layout(c, k, p, a, s, v, n),
            forall|n: NodeId| #[trigger]
                final(self).unrounded_layout_of(n) == old(self).unrounded_layout_of(n),
    ;

    /// Lays out `child` and its subtree under the given constraints, leaving
    /// `performed_layout` on `child` and each node below it and changing no
    /// other stored layout.
    fn perform_child_layout(
        &mut self,
        child: NodeId,
        known_dimensions: Size<Option<i64>>,
        parent_size: Size<Option<i64>>,
        available_space: Size<AvailableSpace>,
        sizing_mode: SizingMode,
        vertical_margins_are_collapsible: Line<bool>,
    ) -> (r: LayoutOutput)
        ensures
            r == old(self).performed_output(
                child,
                known_dimensions,
                parent_size,
                available_space,
                sizing_mode,
                vertical_margins_are_collapsible,
            ),
            forall|n: NodeId| #[trigger] final(self).child_ids(n) == old(self).child_ids(n),
            forall|n: NodeId, a: NodeId| #[trigger]
                final(self).is_descendant(n, a) == old(self).is_descendant(n, a),
            forall|n: NodeId, p: Size<Option<i64>>| #[trigger]
                final(self).table_style_of(n, p) == old(self).table_style_of(n, p),
            forall|
                c: NodeId,
                k: Size<Option<i64>>,
                p: Size<Option<i64>>,
                a: Size<AvailableSpace>,
                s: SizingMode,
                v: Line<bool>,
            | #[trigger] final(self).measured_size(c, k, p, a, s, v) == old(self).measured_size(
                c,
                k,
                p,
                a,
                s,
                v,
            ),
            forall|
                c: NodeId,
                k: Size<Option<i64>>,
                p: Size<Option<i64>>,
                a: Size<AvailableSpace>,
                s: SizingMode,
                v: Line<bool>,
            | #[trigger] final(self).performed_output(c, k, p, a, s, v)
                == old(self).performed_output(c, k, p, a, s, v),
            forall|
                c: NodeId,
                k: Size<Option<i64>>,
                p: Size<Option<i64>>,
                a: Size<AvailableSpace>,
                s: SizingMode,
                v: Line<bool>,
                n: NodeId,
            | #[trigger] final(self).performed_layout(c, k, p, a, s, v, n)
                == old(self).performed_layout(c, k, p, a, s, v, n),
            forall|n: NodeId|
                n != child && !old(self).is_descendant(n, child)
                    ==> #[trigger] final(self).unrounded_layout_of(n)
                    == old(self).unrounded_layout_of(n),
            forall|n: NodeId|
                n == child || old(self).is_descendant(n, child)
                    ==> #[trigger] final(self).unrounded_layout_of(n)
                    == old(self).performed_layout(
                    child,
                    known_dimensions,
                    parent_size,
                    available_space,
                    sizing_mode,
                    vertical_margins_are_collapsible,
                    n,
                ),
    ;

    /// Stores `layout` as the layout of `node`.
    fn set_unrounded_layout(&mut self, node: NodeId, layout: &Layout)
        ensures
            forall|n: NodeId| #[trigger] final(self).child_ids(n) == old(self).child_ids(n),
            forall|n: NodeId, a: NodeId| #[trigger]
                final(self).is_descendant(n, a) == old(self).is_descendant(n, a),
            forall|n: NodeId, p: Size<Option<i64>>| #[trigger]
                final(self).table_style_of(n, p) == old(self).table_style_of(n, p),
            forall|
                c: NodeId,
                k: Size<Option<i64>>,
                p: Size<Option<i64>>,
                a: Size<AvailableSpace>,
                s: SizingMode,
                v: Line<bool>,
            | #[trigger] final(self).measured_size(c, k, p, a, s, v) == old(self).measured_size(
                c,
                k,
                p,
                a,
                s,
                v,
            ),
            forall|
                c: NodeId,
                k: Size<Option<i64>>,
                p: Size<Option<i64>>,
                a: Size<AvailableSpace>,
                s: SizingMode,
                v: Line<bool>,
            | #[trigger] final(self).performed_output(c, k, p, a, s, v)
                == old(self).performed_output(c, k, p, a, s, v),
            forall|
                c: NodeId,
                k: Size<Option<i64>>,
                p: Size<Option<i64>>,
                a: Size<AvailableSpace>,
                s: SizingMode,
                v: Line<bool>,
                n: NodeId,
            | #[trigger] final(self).performed_layout(c, k, p, a, s, v, n)
                == old(self).performed_layout(c, k, p, a, s, v, n),
            final(self).unrounded_layout_of(node) == *layout,
            forall|n: NodeId|
                n != node ==> #[trigger] final(self).unrounded_layout_of(n)
                    == old(self).unrounded_layout_of(n),
    ;
}

} // verus!
