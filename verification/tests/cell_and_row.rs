use std::borrow::Cow;

use iced_table::{Cell, CellAlign, FontKind, Row, TextRole, Toggle, Weight};

fn text_parts<'a>(cell: &'a Cell<'a>) -> (&'a str, TextRole, Weight, FontKind) {
    match cell {
        Cell::Text {
            text,
            role,
            weight,
            font_kind,
        } => (text.as_ref(), *role, *weight, *font_kind),
        Cell::Empty => panic!("expected a text cell"),
    }
}

#[test]
fn text_cell_is_primary_regular_ui() {
    let cell = Cell::text("Name");
    assert_eq!(
        text_parts(&cell),
        ("Name", TextRole::Primary, Weight::Regular, FontKind::Ui)
    );
}

#[test]
fn text_cell_accepts_owned_strings() {
    let cell = Cell::text(String::from("0x1000"));
    assert_eq!(text_parts(&cell).0, "0x1000");
    let owned: Cow<'static, str> = Cow::Owned(String::from("abc"));
    let cell = Cell::text(owned);
    assert_eq!(text_parts(&cell).0, "abc");
}

#[test]
fn role_overrides_only_the_role() {
    let cell = Cell::text("x").weight(Weight::Bold).role(TextRole::Accent);
    assert_eq!(
        text_parts(&cell),
        ("x", TextRole::Accent, Weight::Bold, FontKind::Ui)
    );
}

#[test]
fn weight_overrides_only_the_weight() {
    let cell = Cell::text("x").role(TextRole::Muted).weight(Weight::Bold);
    assert_eq!(
        text_parts(&cell),
        ("x", TextRole::Muted, Weight::Bold, FontKind::Ui)
    );
}

#[test]
fn font_kind_overrides_only_the_family() {
    let cell = Cell::text("x")
        .role(TextRole::Muted)
        .font_kind(FontKind::Editor);
    assert_eq!(
        text_parts(&cell),
        ("x", TextRole::Muted, Weight::Regular, FontKind::Editor)
    );
}

#[test]
fn builders_leave_an_empty_cell_empty() {
    let cell = Cell::Empty
        .role(TextRole::Accent)
        .weight(Weight::Bold)
        .font_kind(FontKind::Editor);
    assert!(matches!(cell, Cell::Empty));
}

#[test]
fn cloned_cell_keeps_its_content() {
    let cell = Cell::text("copy").role(TextRole::Accent);
    let copy = cell.clone();
    assert_eq!(text_parts(&copy), text_parts(&cell));
}

#[test]
fn enum_defaults_match_the_plain_look() {
    assert_eq!(TextRole::default(), TextRole::Primary);
    assert_eq!(Weight::default(), Weight::Regular);
    assert_eq!(FontKind::default(), FontKind::Ui);
    assert_eq!(Toggle::default(), Toggle::Hidden);
    assert_eq!(CellAlign::default(), CellAlign::Start);
}

#[test]
fn new_row_is_flat_without_chevron() {
    let row = Row::new(vec![Cell::text("a"), Cell::Empty]);
    assert_eq!(row.depth, 0);
    assert_eq!(row.toggle, Toggle::Hidden);
    assert_eq!(row.cells.len(), 2);
    assert!(matches!(row.cells[1], Cell::Empty));
}

#[test]
fn row_builders_set_depth_and_toggle() {
    let row = Row::new(vec![Cell::text("child")])
        .depth(3)
        .toggle(Toggle::Collapsed);
    assert_eq!(row.depth, 3);
    assert_eq!(row.toggle, Toggle::Collapsed);
    assert_eq!(text_parts(&row.cells[0]).0, "child");

    let row = row.toggle(Toggle::Expanded).depth(u16::MAX);
    assert_eq!(row.toggle, Toggle::Expanded);
    assert_eq!(row.depth, u16::MAX);
}
