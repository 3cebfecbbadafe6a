use iced::Color;
use iced_table::style::{Status, Style};
use iced_table::TextRole;

fn gray(level: f32) -> Color {
    Color::from_rgb(level, level, level)
}

fn sample(alternate: Option<Color>) -> Style {
    Style {
        header_background: gray(0.01),
        header_text: gray(0.02),
        row_background: gray(0.03),
        row_background_alternate: alternate,
        hover_background: gray(0.05),
        active_background: gray(0.06),
        divider: gray(0.07),
        indent_guide: gray(0.08),
        text_primary: gray(0.09),
        text_accent: gray(0.10),
        text_muted: gray(0.11),
        text_on_active: gray(0.12),
        scrollbar_track: gray(0.13),
        scrollbar_thumb: gray(0.14),
        scrollbar_thumb_hover: gray(0.15),
    }
}

#[test]
fn regular_rows_use_the_role_color() {
    let style = sample(None);
    assert_eq!(style.text_color(TextRole::Primary, Status::Regular), gray(0.09));
    assert_eq!(style.text_color(TextRole::Accent, Status::Regular), gray(0.10));
    assert_eq!(style.text_color(TextRole::Muted, Status::Regular), gray(0.11));
}

#[test]
fn hovered_and_active_rows_flip_every_role_to_on_active() {
    let style = sample(None);
    for role in [TextRole::Primary, TextRole::Accent, TextRole::Muted] {
        assert_eq!(style.text_color(role, Status::Hovered), gray(0.12));
        assert_eq!(style.text_color(role, Status::Active), gray(0.12));
    }
}

#[test]
fn hover_and_active_backgrounds_ignore_the_zebra() {
    let style = sample(Some(gray(0.04)));
    for index in [0, 1, 2, 7] {
        assert_eq!(style.row_background(Status::Hovered, index), Some(gray(0.05)));
        assert_eq!(style.row_background(Status::Active, index), Some(gray(0.06)));
    }
}

#[test]
fn odd_regular_rows_take_the_alternate_background() {
    let style = sample(Some(gray(0.04)));
    assert_eq!(style.row_background(Status::Regular, 0), Some(gray(0.03)));
    assert_eq!(style.row_background(Status::Regular, 1), Some(gray(0.04)));
    assert_eq!(style.row_background(Status::Regular, 2), Some(gray(0.03)));
    assert_eq!(style.row_background(Status::Regular, 3), Some(gray(0.04)));
}

#[test]
fn without_alternate_every_regular_row_uses_the_base_background() {
    let style = sample(None);
    assert_eq!(style.row_background(Status::Regular, 0), Some(gray(0.03)));
    assert_eq!(style.row_background(Status::Regular, 1), Some(gray(0.03)));
    assert_eq!(
        style.row_background(Status::Regular, usize::MAX),
        Some(gray(0.03))
    );
}

#[test]
fn status_defaults_to_regular() {
    assert_eq!(Status::default(), Status::Regular);
}
