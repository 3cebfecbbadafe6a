//! The decisions the table widget takes that do not depend on pixel geometry.
//!
//! The widget hit-tests the cursor against its float layout and hands the
//! outcome here as a [`Hit`]; [`PointerState::step`] then decides which row is
//! hovered, whether a column drag starts or ends, which consumer callback is
//! fired and whether the event is captured. The same split holds for the
//! cursor icon, the highlighted rows and the invalidation of cached layers.

pub mod cell;
pub mod column;
pub mod row;
pub mod style;

use vstd::prelude::*;

verus! {

/// What the cursor is over, as hit-tested by the widget inside its bounds.
#[derive(Debug, Clone, Copy, PartialEq, Eq, Structural)]
pub struct Hit {
    /// The internal, resizable divider within grab distance of the cursor.
    pub divider: Option<usize>,
    /// The body row under the cursor (never the header, never past the last row).
    pub row: Option<usize>,
    /// Whether the cursor lies in the chevron zone of that row.
    pub on_chevron: bool,
}

/// Which consumer callbacks the table was given.
#[derive(Debug, Clone, Copy, PartialEq, Eq, Structural)]
pub struct Handlers {
    /// A row press callback is set.
    pub row_press: bool,
    /// A chevron (collapse/expand) callback is set.
    pub toggle_press: bool,
    /// A hover-change callback is set.
    pub hover: bool,
    /// A column-resize callback is set.
    pub column_resize: bool,
}

/// A pointer event, with the cursor already hit-tested.
#[derive(Debug, Clone, Copy, PartialEq, Eq, Structural)]
pub enum PointerEvent {
    /// The cursor moved. `hit` is `None` when it is outside the table;
    /// `located` is false when the cursor position is not known at all.
    Moved { located: bool, hit: Option<Hit> },
    /// The left button was pressed; `hit` is `None` outside the table.
    Pressed { hit: Option<Hit> },
    /// The left button was released.
    Released,
}

/// A consumer callback to fire, with its index argument.
#[derive(Debug, Clone, Copy, PartialEq, Eq, Structural)]
pub enum Emit {
    /// The hovered row changed to this one (or to none).
    Hover(Option<usize>),
    /// This row was pressed.
    RowPress(usize),
    /// This row's chevron was pressed.
    TogglePress(usize),
    /// This column is being resized; the widget supplies the new width.
    ColumnResize(usize),
}

/// What the widget must do after an event.
#[derive(Debug, Clone, Copy, PartialEq, Eq, Structural)]
pub struct Effects {
    /// The callback to fire, if any.
    pub emit: Option<Emit>,
    /// Whether the event is captured (not passed on to other widgets).
    pub capture: bool,
    /// Whether a redraw is requested.
    pub redraw: bool,
}

/// The cursor icon the table asks for.
#[derive(Debug, Clone, Copy, PartialEq, Eq, Structural)]
pub enum CursorIcon {
    /// A horizontal resize arrow (over a divider, or while dragging one).
    ResizingHorizontally,
    /// A pointing hand (over a pressable row).
    Pointer,
    /// The regular arrow inside the table.
    Idle,
    /// The table has no opinion: the cursor is outside it.
    Outside,
}

/// The pointer part of the widget's persistent state.
#[derive(Debug, Clone, Copy, PartialEq, Eq, Structural)]
pub struct PointerState {
    /// The row last reported as hovered.
    pub hovered_row: Option<usize>,
    /// The column whose right divider is being dragged.
    pub drag_column: Option<usize>,
}

/// Nothing to do.
pub open spec fn no_effects() -> Effects {
    Effects { emit: None, capture: false, redraw: false }
}

/// The row under the cursor, if the cursor is inside the table.
pub open spec fn hit_row(hit: Option<Hit>) -> Option<usize> {
    match hit {
        Some(h) => h.row,
        None => None,
    }
}

/// A cursor move: a drag in progress reports a resize and freezes the hover;
/// otherwise the hovered row follows the cursor and a change is reported.
pub open spec fn after_move(s: PointerState, located: bool, hit: Option<Hit>, handlers: Handlers) -> (
    PointerState,
    Effects,
) {
    match s.drag_column {
        Some(column) => if located {
            (
                s,
                Effects {
                    emit: if handlers.column_resize {
                        Some(Emit::ColumnResize(column))
                    } else {
                        None
                    },
                    capture: false,
                    redraw: true,
                },
            )
        } else {
            (s, no_effects())
        },
        None => {
            let next = hit_row(hit);
            if next != s.hovered_row {
                (
                    PointerState { hovered_row: next, ..s },
                    Effects {
                        emit: if handlers.hover {
                            Some(Emit::Hover(next))
                        } else {
                            None
                        },
                        capture: false,
                        redraw: true,
                    },
                )
            } else {
                (s, no_effects())
            }
        },
    }
}

/// A press: a divider starts a drag; otherwise a chevron fires the toggle
/// callback and anywhere else on a row fires the row callback.
pub open spec fn after_press(s: PointerState, hit: Option<Hit>, handlers: Handlers) -> (
    PointerState,
    Effects,
) {
    match hit {
        None => (s, no_effects()),
        Some(h) => match h.divider {
            Some(column) => (
                PointerState { drag_column: Some(column), ..s },
                Effects { emit: None, capture: true, redraw: false },
            ),
            None => match h.row {
                None => (s, no_effects()),
                Some(row) => if h.on_chevron {
                    if handlers.toggle_press {
                        (s, Effects { emit: Some(Emit::TogglePress(row)), capture: true, redraw: false })
                    } else {
                        (s, no_effects())
                    }
                } else if handlers.row_press {
                    (s, Effects { emit: Some(Emit::RowPress(row)), capture: true, redraw: false })
                } else {
                    (s, no_effects())
                },
            },
        },
    }
}

/// A release ends a drag in progress (and captures the event doing so).
pub open spec fn after_release(s: PointerState) -> (PointerState, Effects) {
    if s.drag_column is Some {
        (PointerState { drag_column: None, ..s }, Effects { emit: None, capture: true, redraw: false })
    } else {
        (s, no_effects())
    }
}

/// The state after an event, and what the widget must do.
pub open spec fn transition(s: PointerState, event: PointerEvent, handlers: Handlers) -> (
    PointerState,
    Effects,
) {
    match event {
        PointerEvent::Moved { located, hit } => after_move(s, located, hit, handlers),
        PointerEvent::Pressed { hit } => after_press(s, hit, handlers),
        PointerEvent::Released => after_release(s),
    }
}

/// The cursor icon for a pointer state and what the cursor is over.
pub open spec fn icon_for(s: PointerState, hit: Option<Hit>, handlers: Handlers) -> CursorIcon {
    if s.drag_column is Some {
        CursorIcon::ResizingHorizontally
    } else {
        match hit {
            None => CursorIcon::Outside,
            Some(h) => if h.divider is Some {
                CursorIcon::ResizingHorizontally
            } else if h.row is Some && (handlers.row_press || handlers.toggle_press) {
                CursorIcon::Pointer
            } else {
                CursorIcon::Idle
            },
        }
    }
}

/// The first column flagged as the tree column (the one hosting indent guides
/// and the expand/collapse chevron), given each column's flag in order.
pub fn tree_column(tree_flags: &[bool]) -> (index: Option<usize>)
    ensures
        match index {
            Some(i) => {
                &&& i < tree_flags@.len()
                &&& tree_flags@[i as int]
                &&& forall|j: int| 0 <= j < i ==> !tree_flags@[j]
            },
            None => forall|j: int| 0 <= j < tree_flags@.len() ==> !tree_flags@[j],
        },
{
    let mut i: usize = 0;
    while i < tree_flags.len()
        invariant
            i <= tree_flags@.len(),
            forall|j: int| 0 <= j < i ==> !tree_flags@[j],
        decreases tree_flags@.len() - i,
    {
        if tree_flags[i] {
            return Some(i);
        }
        i = i + 1;
    }
    None
}

/// `row` if it names one of the `row_count` rows.
pub open spec fn within(row: Option<usize>, row_count: usize) -> Option<usize> {
    match row {
        Some(i) => if i < row_count {
            Some(i)
        } else {
            None
        },
        None => None,
    }
}

/// The rows painted in the highlight layer, and in which status.
#[derive(Debug, Clone, Copy, PartialEq, Eq, Structural)]
pub struct Highlight {
    /// The row painted as active.
    pub active: Option<usize>,
    /// The row painted as hovered (on top of the active one).
    pub hovered: Option<usize>,
}

/// Which rows the highlight layer paints: the active and the hovered row,
/// each only if it exists. A row that is both hovered and active is painted
/// once, as hovered, so the hover shows on top.
pub fn highlight_rows(active_row: Option<usize>, hovered_row: Option<usize>, row_count: usize) -> (h:
    Highlight)
    ensures
        h.hovered == within(hovered_row, row_count),
        h.active == (match within(active_row, row_count) {
            Some(a) => if h.hovered == Some(a) {
                None
            } else {
                Some(a)
            },
            None => None,
        }),
        h.active matches Some(a) ==> a < row_count,
        h.hovered matches Some(i) ==> i < row_count,
        h.active is Some && h.hovered is Some ==> h.active != h.hovered,
        hovered_row matches Some(i) ==> (i < row_count && active_row == Some(i) ==> h.hovered
            == Some(i) && h.active is None),
        hovered_row matches Some(i) ==> (i < row_count ==> h.hovered == Some(i)),
        hovered_row is None ==> h.hovered is None,
        active_row matches Some(a) ==> (a < row_count && hovered_row != Some(a) ==> h.active
            == Some(a)),
        active_row is None ==> h.active is None,
{
    let hovered = match hovered_row {
        Some(i) => if i < row_count {
            Some(i)
        } else {
            None
        },
        None => None,
    };
    let active = match active_row {
        Some(a) => if a < row_count && hovered != Some(a) {
            Some(a)
        } else {
            None
        },
        None => None,
    };
    Highlight { active, hovered }
}

/// The integer inputs a frame was drawn against, for cache invalidation.
#[derive(Debug, Clone, Copy, PartialEq, Eq, Structural)]
pub struct FrameKeys {
    /// The consumer's row-content revision.
    pub revision: u64,
    /// The hovered row.
    pub hover: Option<usize>,
    /// The active row.
    pub active: Option<usize>,
}

impl FrameKeys {
    /// Keys for a cache that was never drawn.
    pub fn stale() -> (keys: Self)
        ensures
            keys.revision == u64::MAX,
            keys.hover is None,
            keys.active is None,
    {
        FrameKeys { revision: u64::MAX, hover: None, active: None }
    }
}

/// Which cached layers must be cleared before drawing.
#[derive(Debug, Clone, Copy, PartialEq, Eq, Structural)]
pub struct StaleLayers {
    /// The body rows layer.
    pub rows: bool,
    /// The header strip layer.
    pub header: bool,
    /// The hover/active highlight layer.
    pub highlight: bool,
}

/// Which layers are stale, given the keys of the last drawn frame, those of
/// this frame, and whether the size, scroll offset or column widths changed.
///
/// Rows depend on the revision, size, scroll and widths; the header on the
/// size and widths only; the highlight on everything the rows depend on plus
/// the hovered and active rows.
pub fn stale_layers(
    previous: FrameKeys,
    current: FrameKeys,
    size_changed: bool,
    scroll_changed: bool,
    widths_changed: bool,
) -> (stale: StaleLayers)
    ensures
        stale.rows == (previous.revision != current.revision || size_changed || scroll_changed
            || widths_changed),
        stale.header == (size_changed || widths_changed),
        stale.highlight == (stale.rows || previous.hover != current.hover || previous.active
            != current.active),
        stale.rows ==> stale.highlight,
        stale.header ==> stale.rows,
        previous == current && !size_changed && !scroll_changed && !widths_changed ==> !stale.rows
            && !stale.header && !stale.highlight,
{
    let rows = previous.revision != current.revision || size_changed || scroll_changed
        || widths_changed;
    let header = size_changed || widths_changed;
    let highlight = rows || previous.hover != current.hover || previous.active != current.active;
    StaleLayers { rows, header, highlight }
}

impl PointerState {
    /// No row hovered, no drag in progress.
    pub fn new() -> (s: Self)
        ensures
            s.hovered_row is None,
            s.drag_column is None,
    {
        PointerState { hovered_row: None, drag_column: None }
    }

    /// Applies a pointer event and returns what the widget must do.
    pub fn step(&mut self, event: PointerEvent, handlers: Handlers) -> (effects: Effects)
        ensures
            (*final(self), effects) == transition(*old(self), event, handlers),
    {
        match event {
            PointerEvent::Moved { located, hit } => {
                if let Some(column) = self.drag_column {
                    if !located {
                        return Effects { emit: None, capture: false, redraw: false };
                    }
                    let emit = if handlers.column_resize {
                        Some(Emit::ColumnResize(column))
                    } else {
                        None
                    };
                    return Effects { emit, capture: false, redraw: true };
                }
                let next = match hit {
                    Some(h) => h.row,
                    None => None,
                };
                if next != self.hovered_row {
                    self.hovered_row = next;
                    let emit = if handlers.hover {
                        Some(Emit::Hover(next))
                    } else {
                        None
                    };
                    Effects { emit, capture: false, redraw: true }
                } else {
                    Effects { emit: None, capture: false, redraw: false }
                }
            },
            PointerEvent::Pressed { hit } => {
                let h = match hit {
                    Some(h) => h,
                    None => {
                        return Effects { emit: None, capture: false, redraw: false };
                    },
                };
                if let Some(column) = h.divider {
                    self.drag_column = Some(column);
                    return Effects { emit: None, capture: true, redraw: false };
                }
                let row = match h.row {
                    Some(row) => row,
                    None => {
                        return Effects { emit: None, capture: false, redraw: false };
                    },
                };
                if h.on_chevron {
                    if handlers.toggle_press {
                        return Effects {
                            emit: Some(Emit::TogglePress(row)),
                            capture: true,
                            redraw: false,
                        };
                    }
                    return Effects { emit: None, capture: false, redraw: false };
                }
                if handlers.row_press {
                    Effects { emit: Some(Emit::RowPress(row)), capture: true, redraw: false }
                } else {
                    Effects { emit: None, capture: false, redraw: false }
                }
            },
            PointerEvent::Released => {
                if self.drag_column.is_some() {
                    self.drag_column = None;
                    Effects { emit: None, capture: true, redraw: false }
                } else {
                    Effects { emit: None, capture: false, redraw: false }
                }
            },
        }
    }

    /// The cursor icon to show: a resize arrow while dragging or over a
    /// divider, a pointing hand over a row that reacts to presses.
    pub fn cursor_icon(&self, hit: Option<Hit>, handlers: Handlers) -> (icon: CursorIcon)
        ensures
            icon == icon_for(*self, hit, handlers),
    {
        if self.drag_column.is_some() {
            return CursorIcon::ResizingHorizontally;
        }
        let h = match hit {
            Some(h) => h,
            None => {
                return CursorIcon::Outside;
            },
        };
        if h.divider.is_some() {
            return CursorIcon::ResizingHorizontally;
        }
        if h.row.is_some() && (handlers.row_press || handlers.toggle_press) {
            CursorIcon::Pointer
        } else {
            CursorIcon::Idle
        }
    }
}

/// Releasing the button always ends a column drag, leaves the hovered row as
/// it was, and fires no callback.
pub proof fn lemma_release_ends_drag(s: PointerState, handlers: Handlers)
    ensures
        transition(s, PointerEvent::Released, handlers).0.drag_column is None,
        transition(s, PointerEvent::Released, handlers).0.hovered_row == s.hovered_row,
        transition(s, PointerEvent::Released, handlers).1.emit is None,
{
}

/// While a column is dragged, moving the cursor keeps the state as it is and
/// only ever reports a resize of the dragged column, never a hover change.
pub proof fn lemma_drag_freezes_hover(
    s: PointerState,
    located: bool,
    hit: Option<Hit>,
    handlers: Handlers,
)
    requires
        s.drag_column is Some,
    ensures
        transition(s, PointerEvent::Moved { located, hit }, handlers).0 == s,
        transition(s, PointerEvent::Moved { located, hit }, handlers).1.emit is None || transition(
            s,
            PointerEvent::Moved { located, hit },
            handlers,
        ).1.emit == Some(Emit::ColumnResize(s.drag_column->0)),
{
}

/// Pressing on a divider and releasing again returns to the state before the
/// press, and neither event fires a callback.
pub proof fn lemma_divider_press_release_round_trip(s: PointerState, hit: Hit, handlers: Handlers)
    requires
        s.drag_column is None,
        hit.divider is Some,
    ensures
        transition(s, PointerEvent::Pressed { hit: Some(hit) }, handlers).0.drag_column
            == hit.divider,
        transition(
            transition(s, PointerEvent::Pressed { hit: Some(hit) }, handlers).0,
            PointerEvent::Released,
            handlers,
        ).0 == s,
        transition(s, PointerEvent::Pressed { hit: Some(hit) }, handlers).1.emit is None,
        transition(
            transition(s, PointerEvent::Pressed { hit: Some(hit) }, handlers).0,
            PointerEvent::Released,
            handlers,
        ).1.emit is None,
{
}

/// The hovered row follows the cursor, and a change is reported once: moving
/// again over the same spot changes nothing and fires nothing.
pub proof fn lemma_hover_reported_once(
    s: PointerState,
    located: bool,
    hit: Option<Hit>,
    handlers: Handlers,
)
    requires
        s.drag_column is None,
    ensures
        transition(s, PointerEvent::Moved { located, hit }, handlers).0.hovered_row == hit_row(hit),
        (hit_row(hit) != s.hovered_row && handlers.hover) <==> transition(
            s,
            PointerEvent::Moved { located, hit },
            handlers,
        ).1.emit == Some(Emit::Hover(hit_row(hit))),
        transition(
            transition(s, PointerEvent::Moved { located, hit }, handlers).0,
            PointerEvent::Moved { located, hit },
            handlers,
        ) == (transition(s, PointerEvent::Moved { located, hit }, handlers).0, no_effects()),
{
}

/// A press never moves the hover; a press on a row fires the chevron callback
/// on the chevron and the row callback elsewhere, never the other one, and
/// always for the row under the cursor.
pub proof fn lemma_press_targets_the_hit_row(
    s: PointerState,
    hit: Hit,
    handlers: Handlers,
)
    ensures
        transition(s, PointerEvent::Pressed { hit: Some(hit) }, handlers).0.hovered_row
            == s.hovered_row,
        hit.on_chevron ==> !(transition(
            s,
            PointerEvent::Pressed { hit: Some(hit) },
            handlers,
        ).1.emit matches Some(Emit::RowPress(_))),
        !hit.on_chevron ==> !(transition(
            s,
            PointerEvent::Pressed { hit: Some(hit) },
            handlers,
        ).1.emit matches Some(Emit::TogglePress(_))),
        transition(s, PointerEvent::Pressed { hit: Some(hit) }, handlers).1.emit matches Some(
            Emit::RowPress(r),
        ) ==> hit.row == Some(r),
        transition(s, PointerEvent::Pressed { hit: Some(hit) }, handlers).1.emit matches Some(
            Emit::TogglePress(r),
        ) ==> hit.row == Some(r),
{
}

/// While a column is dragged the cursor shows the resize arrow wherever it is.
pub proof fn lemma_drag_shows_resize_cursor(s: PointerState, hit: Option<Hit>, handlers: Handlers)
    requires
        s.drag_column is Some,
    ensures
        icon_for(s, hit, handlers) == CursorIcon::ResizingHorizontally,
{
}

/// With no drag in progress, a cursor move makes the row under the cursor the
/// hovered row. When that changes the hovered row, a redraw is requested
/// (whatever the old and new rows are), the hover callback, when set, gets the
/// new row, and the event is not captured; when it does not, nothing happens.
pub proof fn lemma_move_tracks_hover(
    s: PointerState,
    located: bool,
    hit: Option<Hit>,
    handlers: Handlers,
)
    requires
        s.drag_column is None,
    ensures
        ({
            let (next, fx) = transition(s, PointerEvent::Moved { located, hit }, handlers);
            let under = match hit {
                Some(h) => h.row,
                None => None,
            };
            &&& next.hovered_row == under
            &&& next.drag_column is None
            &&& !fx.capture
            &&& under != s.hovered_row ==> fx.redraw
            &&& under != s.hovered_row && handlers.hover ==> fx.emit == Some(
                Emit::Hover(under),
            )
            &&& !handlers.hover ==> fx.emit is None
            &&& under == s.hovered_row ==> fx.emit is None && !fx.redraw
        }),
{
}

/// While a column is dragged and the cursor is located, every move (inside
/// the table or not) reports a resize of the dragged column exactly when the
/// resize callback is set, requests a redraw, captures nothing and leaves the
/// state as it is. Without a cursor position nothing happens.
pub proof fn lemma_drag_move_reports_resize(
    s: PointerState,
    column: usize,
    located: bool,
    hit: Option<Hit>,
    handlers: Handlers,
)
    requires
        s.drag_column == Some(column),
    ensures
        ({
            let (next, fx) = transition(s, PointerEvent::Moved { located, hit }, handlers);
            &&& next == s
            &&& !fx.capture
            &&& located ==> fx.redraw
            &&& located ==> (fx.emit == Some(Emit::ColumnResize(column)) <==> handlers.column_resize)
            &&& located && !handlers.column_resize ==> fx.emit is None
            &&& !located ==> fx.emit is None && !fx.redraw
        }),
{
}

/// A press on a divider starts dragging that column, captures the event and
/// fires nothing, whatever else is under the cursor and whichever callbacks
/// are set; the hovered row is kept.
pub proof fn lemma_divider_press_starts_drag(
    s: PointerState,
    hit: Hit,
    column: usize,
    handlers: Handlers,
)
    requires
        hit.divider == Some(column),
    ensures
        ({
            let (next, fx) = transition(s, PointerEvent::Pressed { hit: Some(hit) }, handlers);
            &&& next.drag_column == Some(column)
            &&& next.hovered_row == s.hovered_row
            &&& fx.emit is None
            &&& fx.capture
            &&& !fx.redraw
        }),
{
}

/// A press off any divider, on row `r` and off its chevron, fires the row
/// callback for `r` and captures the event exactly when that callback is set,
/// regardless of the other callbacks; otherwise nothing happens. The state is
/// kept either way.
pub proof fn lemma_row_press_fires_row_callback(
    s: PointerState,
    hit: Hit,
    r: usize,
    handlers: Handlers,
)
    requires
        hit.divider is None,
        hit.row == Some(r),
        !hit.on_chevron,
    ensures
        ({
            let (next, fx) = transition(s, PointerEvent::Pressed { hit: Some(hit) }, handlers);
            &&& next == s
            &&& !fx.redraw
            &&& handlers.row_press ==> fx.emit == Some(Emit::RowPress(r)) && fx.capture
            &&& !handlers.row_press ==> fx.emit is None && !fx.capture
        }),
{
}

/// A press off any divider, on the chevron of row `r`, fires the toggle
/// callback for `r` and captures the event exactly when that callback is set,
/// regardless of the other callbacks; it never fires the row callback. The
/// state is kept either way.
pub proof fn lemma_chevron_press_fires_toggle_callback(
    s: PointerState,
    hit: Hit,
    r: usize,
    handlers: Handlers,
)
    requires
        hit.divider is None,
        hit.row == Some(r),
        hit.on_chevron,
    ensures
        ({
            let (next, fx) = transition(s, PointerEvent::Pressed { hit: Some(hit) }, handlers);
            &&& next == s
            &&& !fx.redraw
            &&& handlers.toggle_press ==> fx.emit == Some(Emit::TogglePress(r)) && fx.capture
            &&& !handlers.toggle_press ==> fx.emit is None && !fx.capture
        }),
{
}

/// A press outside the table, or inside it on neither a divider nor a row,
/// changes nothing and fires nothing.
pub proof fn lemma_press_elsewhere_is_ignored(
    s: PointerState,
    hit: Option<Hit>,
    handlers: Handlers,
)
    requires
        hit matches Some(h) ==> h.divider is None && h.row is None,
    ensures
        ({
            let (next, fx) = transition(s, PointerEvent::Pressed { hit }, handlers);
            &&& next == s
            &&& fx.emit is None
            &&& !fx.capture
            &&& !fx.redraw
        }),
{
}

/// A release ends any drag, keeps the hovered row, fires nothing, never
/// redraws, and captures the event exactly when it ended a drag.
pub proof fn lemma_release_captures_only_a_drag(s: PointerState, handlers: Handlers)
    ensures
        ({
            let (next, fx) = transition(s, PointerEvent::Released, handlers);
            &&& next.drag_column is None
            &&& next.hovered_row == s.hovered_row
            &&& fx.emit is None
            &&& !fx.redraw
            &&& fx.capture == (s.drag_column is Some)
        }),
{
}

/// The cursor icon: a resize arrow while dragging or over a divider; outside
/// the table no opinion; over a body row a pointing hand whenever a row or a
/// chevron callback is set (either one suffices), the idle arrow otherwise.
pub proof fn lemma_cursor_icon_choice(s: PointerState, hit: Option<Hit>, handlers: Handlers)
    ensures
        s.drag_column is Some ==> icon_for(s, hit, handlers) == CursorIcon::ResizingHorizontally,
        s.drag_column is None && hit is None ==> icon_for(s, hit, handlers) == CursorIcon::Outside,
        s.drag_column is None && (hit matches Some(h) && h.divider is Some) ==> icon_for(
            s,
            hit,
            handlers,
        ) == CursorIcon::ResizingHorizontally,
        s.drag_column is None && (hit matches Some(h) && h.divider is None && h.row is Some) ==> (
        icon_for(s, hit, handlers) == CursorIcon::Pointer <==> (handlers.row_press
            || handlers.toggle_press)),
        s.drag_column is None && (hit matches Some(h) && h.divider is None && h.row is Some) && !(
        handlers.row_press || handlers.toggle_press) ==> icon_for(s, hit, handlers)
            == CursorIcon::Idle,
        s.drag_column is None && (hit matches Some(h) && h.divider is None && h.row is None) ==> icon_for(
            s,
            hit,
            handlers,
        ) == CursorIcon::Idle,
{
}

} // verus!
