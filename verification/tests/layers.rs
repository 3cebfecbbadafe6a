use iced_table::data_table::{
    highlight_rows, stale_layers, tree_column, FrameKeys, Highlight, StaleLayers,
};

#[test]
fn highlight_paints_hovered_over_active() {
    assert_eq!(
        highlight_rows(Some(3), Some(3), 5),
        Highlight {
            active: None,
            hovered: Some(3)
        }
    );
    assert_eq!(
        highlight_rows(Some(1), Some(3), 5),
        Highlight {
            active: Some(1),
            hovered: Some(3)
        }
    );
}

#[test]
fn highlight_drops_rows_past_the_end() {
    assert_eq!(
        highlight_rows(Some(5), Some(9), 5),
        Highlight {
            active: None,
            hovered: None
        }
    );
    assert_eq!(
        highlight_rows(Some(4), Some(5), 5),
        Highlight {
            active: Some(4),
            hovered: None
        }
    );
    assert_eq!(
        highlight_rows(Some(0), None, 0),
        Highlight {
            active: None,
            hovered: None
        }
    );
}

#[test]
fn first_draw_marks_every_layer_stale() {
    let current = FrameKeys {
        revision: 0,
        hover: None,
        active: None,
    };
    // A never-drawn cache has an unknown scroll offset, so it differs.
    let stale = stale_layers(FrameKeys::stale(), current, true, true, true);
    assert_eq!(
        stale,
        StaleLayers {
            rows: true,
            header: true,
            highlight: true
        }
    );
}

#[test]
fn unchanged_frame_reuses_every_layer() {
    let keys = FrameKeys {
        revision: 4,
        hover: Some(1),
        active: Some(2),
    };
    assert_eq!(
        stale_layers(keys, keys, false, false, false),
        StaleLayers {
            rows: false,
            header: false,
            highlight: false
        }
    );
}

#[test]
fn hover_change_only_redraws_the_highlight() {
    let before = FrameKeys {
        revision: 4,
        hover: Some(1),
        active: Some(2),
    };
    let after = FrameKeys {
        hover: Some(3),
        ..before
    };
    assert_eq!(
        stale_layers(before, after, false, false, false),
        StaleLayers {
            rows: false,
            header: false,
            highlight: true
        }
    );
}

#[test]
fn scrolling_or_new_revision_redraws_rows_but_not_header() {
    let before = FrameKeys {
        revision: 4,
        hover: None,
        active: None,
    };
    let bumped = FrameKeys {
        revision: 5,
        ..before
    };
    let expected = StaleLayers {
        rows: true,
        header: false,
        highlight: true,
    };
    assert_eq!(stale_layers(before, bumped, false, false, false), expected);
    assert_eq!(stale_layers(before, before, false, true, false), expected);
}

#[test]
fn resizing_redraws_header_and_rows() {
    let keys = FrameKeys {
        revision: 1,
        hover: None,
        active: None,
    };
    let all = StaleLayers {
        rows: true,
        header: true,
        highlight: true,
    };
    assert_eq!(stale_layers(keys, keys, true, false, false), all);
    assert_eq!(stale_layers(keys, keys, false, false, true), all);
}

#[test]
fn stale_keys_use_the_maximum_revision() {
    let keys = FrameKeys::stale();
    assert_eq!(keys.revision, u64::MAX);
    assert_eq!(keys.hover, None);
    assert_eq!(keys.active, None);
}

#[test]
fn tree_column_is_the_first_flagged_column() {
    assert_eq!(tree_column(&[false, true, true]), Some(1));
    assert_eq!(tree_column(&[true, false]), Some(0));
    assert_eq!(tree_column(&[false, false]), None);
    assert_eq!(tree_column(&[]), None);
}
