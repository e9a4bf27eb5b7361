# tablelayout

CSS table layout (`display: table`), verified with Verus.

- `src/compute.rs`: the algorithm (`compute_table_layout`) and the model it is
  proved against: the table's sizing from its style and inputs, its intrinsic
  widths from its rows, its content size, and the placement of its rows.
- `src/laws.rs`: properties proved over that model (widest row, shrink-to-fit,
  bounds, stacking of rows, agreement of size computation and layout, ...).
- `src/length.rs`, `src/geometry.rs`: saturating integer lengths and the
  sizes, rectangles and points built from them.
- `src/style.rs`, `src/tree.rs`: style types and the tree interface that the
  table's rows are measured and laid out through.
- `app/lib.rs`: resolution of floating-point styles (percentages, aspect
  ratios) into the integer `TableStyle`.
