//! Styling: resolving text roles and row backgrounds to colors.

use vstd::prelude::*;

use iced::Color;

use crate::data_table::cell::TextRole;

verus! {

/// The color type of iced, carried through unchanged.
#[verifier::external_type_specification]
#[verifier::external_body]
pub struct ExternalColor(iced::Color);

/// The visual status of a row, used to resolve text and background colors.
#[derive(Debug, Clone, Copy, PartialEq, Eq, Structural)]
pub enum Status {
    /// Neither hovered nor active.
    Regular,
    /// The cursor is over the row.
    Hovered,
    /// The row is the consumer-resolved active/selected row.
    Active,
}

impl Default for Status {
    /// A row is regular unless hovered or active.
    fn default() -> (status: Self)
        ensures
            status == Status::Regular,
    {
        Status::Regular
    }
}

/// The resolved appearance of a table.
#[derive(Debug, Clone, Copy)]
pub struct Style {
    /// Header strip background.
    pub header_background: Color,
    /// Header text color.
    pub header_text: Color,
    /// Default row background.
    pub row_background: Color,
    /// Optional zebra background for odd rows.
    pub row_background_alternate: Option<Color>,
    /// Background painted under a hovered row.
    pub hover_background: Color,
    /// Background painted under the active row.
    pub active_background: Color,
    /// Vertical column divider color.
    pub divider: Color,
    /// Indent guide color in the tree column.
    pub indent_guide: Color,
    /// [`TextRole::Primary`] color on a regular row.
    pub text_primary: Color,
    /// [`TextRole::Accent`] color on a regular row.
    pub text_accent: Color,
    /// [`TextRole::Muted`] color on a regular row.
    pub text_muted: Color,
    /// Text color used for every role on a hovered/active row.
    pub text_on_active: Color,
    /// Scrollbar track (the groove the thumb slides within).
    pub scrollbar_track: Color,
    /// Scrollbar thumb at rest.
    pub scrollbar_thumb: Color,
    /// Scrollbar thumb while hovered or dragged.
    pub scrollbar_thumb_hover: Color,
}

impl Style {
    /// Resolves a [`TextRole`] to a concrete color for the given row [`Status`].
    ///
    /// On a hovered or active row every role flips to `text_on_active`, so an
    /// accent or primary cell stays legible against the highlight fill.
    pub fn text_color(&self, role: TextRole, status: Status) -> (color: Color)
        ensures
            status != Status::Regular ==> color == self.text_on_active,
            status == Status::Regular && role == TextRole::Primary ==> color == self.text_primary,
            status == Status::Regular && role == TextRole::Accent ==> color == self.text_accent,
            status == Status::Regular && role == TextRole::Muted ==> color == self.text_muted,
    {
        match status {
            Status::Hovered | Status::Active => self.text_on_active,
            Status::Regular => match role {
                TextRole::Primary => self.text_primary,
                TextRole::Accent => self.text_accent,
                TextRole::Muted => self.text_muted,
            },
        }
    }

    /// The background fill for a row in the given [`Status`], if any.
    ///
    /// `row_index` selects the zebra band for regular rows: an odd row takes
    /// the alternate background when the style has one.
    pub fn row_background(&self, status: Status, row_index: usize) -> (fill: Option<Color>)
        ensures
            status == Status::Hovered ==> fill == Some(self.hover_background),
            status == Status::Active ==> fill == Some(self.active_background),
            status == Status::Regular && row_index % 2 == 0 ==> fill == Some(self.row_background),
            status == Status::Regular && row_index % 2 == 1 ==> fill == Some(
                match self.row_background_alternate {
                    Some(alternate) => alternate,
                    None => self.row_background,
                },
            ),
    {
        match status {
            Status::Hovered => Some(self.hover_background),
            Status::Active => Some(self.active_background),
            Status::Regular => {
                if row_index % 2 == 1 {
                    match self.row_background_alternate {
                        Some(alternate) => Some(alternate),
                        None => Some(self.row_background),
                    }
                } else {
                    Some(self.row_background)
                }
            },
        }
    }
}

} // verus!
