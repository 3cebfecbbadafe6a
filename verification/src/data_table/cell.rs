//! Cell contents for a [`Row`](crate::Row).

use std::borrow::Cow;

use vstd::prelude::*;
use vstd::std_specs::convert::IntoSpec;

verus! {

/// `Clone::clone` of std's `Cow`, which the derived `Clone` of [`Cell`] calls.
/// Nothing is claimed of the copy: for an owned value it is whatever the
/// borrowed type's `to_owned` gives.
pub assume_specification<'a, B: ?Sized + ToOwned>[ <Cow<'a, B> as Clone>::clone ](
    c: &Cow<'a, B>,
) -> Cow<'a, B>;

/// One cell's worth of content. The widget resolves [`TextRole`] to a concrete
/// color through the active style, so consumers never pass raw colors.
#[derive(Debug, Clone)]
pub enum Cell<'a> {
    /// Renders nothing.
    Empty,
    /// Renders a single line of text.
    Text {
        /// The string to draw (borrowed or owned).
        text: Cow<'a, str>,
        /// Semantic role, resolved to a color together with the row's status.
        role: TextRole,
        /// Font weight.
        weight: Weight,
        /// Which font family to use.
        font_kind: FontKind,
    },
}

impl<'a> Cell<'a> {
    /// A primary, regular-weight, UI-font text cell.
    pub fn text<S: Into<Cow<'a, str>>>(text: S) -> (cell: Self)
        ensures
            cell matches Cell::Text { text: t, role, weight, font_kind } && {
                &&& role == TextRole::Primary
                &&& weight == Weight::Regular
                &&& font_kind == FontKind::Ui
                &&& call_ensures(S::into, (text,), t)
                &&& S::obeys_into_spec() ==> t == text.into_spec()
            },
    {
        Cell::Text {
            text: text.into(),
            role: TextRole::Primary,
            weight: Weight::Regular,
            font_kind: FontKind::Ui,
        }
    }

    /// Overrides the text role. An empty cell stays empty.
    pub fn role(self, role: TextRole) -> (cell: Self)
        ensures
            match self {
                Cell::Empty => cell is Empty,
                Cell::Text { text, weight, font_kind, .. } => cell == (Cell::Text {
                    text,
                    role,
                    weight,
                    font_kind,
                }),
            },
    {
        match self {
            Cell::Empty => Cell::Empty,
            Cell::Text { text, weight, font_kind, .. } => Cell::Text {
                text,
                role,
                weight,
                font_kind,
            },
        }
    }

    /// Overrides the font weight. An empty cell stays empty.
    pub fn weight(self, weight: Weight) -> (cell: Self)
        ensures
            match self {
                Cell::Empty => cell is Empty,
                Cell::Text { text, role, font_kind, .. } => cell == (Cell::Text {
                    text,
                    role,
                    weight,
                    font_kind,
                }),
            },
    {
        match self {
            Cell::Empty => Cell::Empty,
            Cell::Text { text, role, font_kind, .. } => Cell::Text {
                text,
                role,
                weight,
                font_kind,
            },
        }
    }

    /// Overrides the font family. An empty cell stays empty.
    pub fn font_kind(self, font_kind: FontKind) -> (cell: Self)
        ensures
            match self {
                Cell::Empty => cell is Empty,
                Cell::Text { text, role, weight, .. } => cell == (Cell::Text {
                    text,
                    role,
                    weight,
                    font_kind,
                }),
            },
    {
        match self {
            Cell::Empty => Cell::Empty,
            Cell::Text { text, role, weight, .. } => Cell::Text {
                text,
                role,
                weight,
                font_kind,
            },
        }
    }
}

/// Semantic text color, resolved by the style together with the row's status.
///
/// A `Primary` or `Accent` cell automatically flips to the on-active color when
/// its row is hovered or active.
#[derive(Debug, Clone, Copy, PartialEq, Eq, Structural)]
pub enum TextRole {
    /// Default foreground.
    Primary,
    /// Emphasized, accent-colored text (e.g. a type badge).
    Accent,
    /// De-emphasized text (e.g. an address).
    Muted,
}

impl Default for TextRole {
    /// Text is primary unless told otherwise.
    fn default() -> (role: Self)
        ensures
            role == TextRole::Primary,
    {
        TextRole::Primary
    }
}

/// Font weight for a text cell.
#[derive(Debug, Clone, Copy, PartialEq, Eq, Structural)]
pub enum Weight {
    /// Regular weight.
    Regular,
    /// Bold weight.
    Bold,
}

impl Default for Weight {
    /// Text is regular weight unless told otherwise.
    fn default() -> (weight: Self)
        ensures
            weight == Weight::Regular,
    {
        Weight::Regular
    }
}

/// Which font family a text cell uses.
#[derive(Debug, Clone, Copy, PartialEq, Eq, Structural)]
pub enum FontKind {
    /// The proportional UI font.
    Ui,
    /// The monospace editor font (e.g. for addresses).
    Editor,
}

impl Default for FontKind {
    /// Text uses the UI font unless told otherwise.
    fn default() -> (kind: Self)
        ensures
            kind == FontKind::Ui,
    {
        FontKind::Ui
    }
}

} // verus!
