//! How the two cells that a pointer drag names become a stored highlight: each
//! end moves onto its glyph, and a word or line highlight grows outward to whole
//! words or lines.

use vstd::prelude::*;

use crate::command::{GridPosition, Selection, SelectionKind};
use crate::text_view::{compute_glyph_cell, TextModel, TextView};

verus! {

/// The drag runs forward: its anchor's glyph stands at or before its cursor's.
pub open spec fn is_forward(text: TextModel, selection: Selection) -> bool {
    text.glyph_cell(selection.anchor).is_at_or_before(text.glyph_cell(selection.cursor))
}

/// The glyph that comes first in reading order of the two that a drag names.
pub open spec fn first_glyph(text: TextModel, selection: Selection) -> GridPosition {
    if is_forward(text, selection) {
        text.glyph_cell(selection.anchor)
    } else {
        text.glyph_cell(selection.cursor)
    }
}

/// The glyph that comes last in reading order of the two that a drag names.
pub open spec fn last_glyph(text: TextModel, selection: Selection) -> GridPosition {
    if is_forward(text, selection) {
        text.glyph_cell(selection.cursor)
    } else {
        text.glyph_cell(selection.anchor)
    }
}

/// Where a highlight of the given kind begins when `first` is its first glyph.
pub open spec fn grown_start(
    text: TextModel,
    selection_kind: SelectionKind,
    first: GridPosition,
) -> GridPosition {
    match selection_kind {
        SelectionKind::Character => first,
        SelectionKind::Block => first,
        SelectionKind::Word => text.word_start(first),
        SelectionKind::Line => GridPosition {
            row_index: text.line_start(first.row_index),
            column_index: 0,
        },
    }
}

/// Where a highlight of the given kind ends when `last` is its last glyph.
pub open spec fn grown_end(
    text: TextModel,
    selection_kind: SelectionKind,
    last: GridPosition,
) -> GridPosition {
    match selection_kind {
        SelectionKind::Character => last,
        SelectionKind::Block => last,
        SelectionKind::Word => text.word_end(last),
        SelectionKind::Line => GridPosition {
            row_index: text.line_end(last.row_index),
            column_index: text.last_column(),
        },
    }
}

/// The start of the stored highlight in reading order.
pub open spec fn snapped_start(text: TextModel, selection: Selection) -> GridPosition {
    grown_start(text, selection.selection_kind, first_glyph(text, selection))
}

/// The end of the stored highlight in reading order.
pub open spec fn snapped_end(text: TextModel, selection: Selection) -> GridPosition {
    grown_end(text, selection.selection_kind, last_glyph(text, selection))
}

/// The highlight that a drag over `text` stores. The anchor stays the end that
/// the drag began at.
pub open spec fn snapped(text: TextModel, selection: Selection) -> Selection {
    if is_forward(text, selection) {
        Selection {
            selection_kind: selection.selection_kind,
            anchor: snapped_start(text, selection),
            cursor: snapped_end(text, selection),
        }
    } else {
        Selection {
            selection_kind: selection.selection_kind,
            anchor: snapped_end(text, selection),
            cursor: snapped_start(text, selection),
        }
    }
}

/// `selection` with each end pulled onto the cell its glyph really lives in, and
/// then, for a word or line selection, grown outward to whole words or whole
/// lines.
pub fn snap_to_text(text_view: &TextView, selection: Selection) -> (r: Selection)
    ensures
        r == snapped(text_view@, selection),
{
    let anchor = compute_glyph_cell(text_view, selection.anchor);
    let cursor = compute_glyph_cell(text_view, selection.cursor);
    // Which end leads decides which way each one grows.
    let is_forward_selection = anchor.precedes(&cursor);
    let (first_grid_position, last_grid_position) = if is_forward_selection {
        (anchor, cursor)
    } else {
        (cursor, anchor)
    };
    let (first_grid_position, last_grid_position) = match selection.selection_kind {
        // A character or block highlight covers the cells the pointer named.
        SelectionKind::Character | SelectionKind::Block => (
            first_grid_position,
            last_grid_position,
        ),
        SelectionKind::Word => {
            let (row_index, column_index) = text_view.get_word_start_position(
                first_grid_position.row_index,
                first_grid_position.column_index,
            );
            let start_grid_position = GridPosition { row_index, column_index };
            let (row_index, column_index) = text_view.get_word_end_position(
                last_grid_position.row_index,
                last_grid_position.column_index,
            );
            (start_grid_position, GridPosition { row_index, column_index })
        },
        SelectionKind::Line => (
            GridPosition {
                row_index: text_view.get_line_start_row_index(first_grid_position.row_index),
                column_index: 0,
            },
            GridPosition {
                row_index: text_view.get_line_end_row_index(last_grid_position.row_index),
                column_index: text_view.get_column_count().saturating_sub(1),
            },
        ),
    };
    let (anchor, cursor) = if is_forward_selection {
        (first_grid_position, last_grid_position)
    } else {
        (last_grid_position, first_grid_position)
    };
    Selection { selection_kind: selection.selection_kind, anchor, cursor }
}

} // verus!
