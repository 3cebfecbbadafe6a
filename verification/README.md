# iced_table

A canvas-rendered `DataTable` widget for [iced](https://iced.rs) 0.14, with its
logic verified by Verus.

- `src/` is the verified library: cells and rows (`data_table/cell.rs`,
  `data_table/row.rs`), column alignment, style resolution
  (`data_table/style.rs`: text colors per role and row status, zebra
  backgrounds), and the widget's decisions (`data_table.rs`): the pointer
  state machine (hover, column drag, row and chevron presses, cursor icon),
  the rows painted as hovered/active, the cache layers to invalidate, and the
  tree column lookup, each with its contract and the laws that tie them
  together.
- `app/` is the iced widget itself: the `f32` layout math (column width
  fitting, transitive resizing, divider hit-testing, row virtualization,
  scrollbar geometry), drawing, and the `Catalog` theme glue. It hit-tests the
  cursor and hands the outcome to the library.
- `tests/` exercises the library on concrete values.
