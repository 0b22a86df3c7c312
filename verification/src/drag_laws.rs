//! What is stored of a drag, over the cells and rows under its two ends.

use vstd::prelude::*;

use crate::command::{GridPosition, Selection, SelectionKind};
use crate::ids::PaneId;
use crate::server::Server;
use crate::snap::snap_to_text;
use crate::text_view::{compute_glyph_cell, TextView};

verus! {

/// A word drag, however short and whichever way it runs, is stored from
/// the start that the cell of its earlier glyph records to the end that the cell
/// of its later glyph records. A glyph without a cell stays where it is.
pub proof fn law_a_word_drag_takes_in_whole_words(
    text_view: &TextView,
    drag: Selection,
    anchor: GridPosition,
    cursor: GridPosition,
    stored: Selection,
)
    requires
        drag.selection_kind == SelectionKind::Word,
        call_ensures(compute_glyph_cell, (text_view, drag.anchor), anchor),
        call_ensures(compute_glyph_cell, (text_view, drag.cursor), cursor),
        call_ensures(snap_to_text, (text_view, drag), stored),
    ensures
        ({
            let rows = text_view@.rows;
            let is_forward = anchor.row_index < cursor.row_index || (anchor.row_index
                == cursor.row_index && anchor.column_index <= cursor.column_index);
            let (first, last, start, end) = if is_forward {
                (anchor, cursor, stored.anchor, stored.cursor)
            } else {
                (cursor, anchor, stored.cursor, stored.anchor)
            };
            &&& stored.selection_kind == SelectionKind::Word
            &&& if first.row_index < rows.len() && first.column_index
                < rows[first.row_index as int].cells@.len() {
                start == rows[first.row_index as int].cells@[first.column_index as int].word_start
            } else {
                start == first
            }
            &&& if last.row_index < rows.len() && last.column_index
                < rows[last.row_index as int].cells@.len() {
                end == rows[last.row_index as int].cells@[last.column_index as int].word_end
            } else {
                end == last
            }
        }),
{
}

/// A line drag, over one row or many and whichever way it runs, is stored
/// from the first column of the row on which its earlier glyph's line begins to
/// the last column of the row on which its later glyph's line ends.
pub proof fn law_a_line_drag_takes_in_whole_lines(
    text_view: &TextView,
    drag: Selection,
    anchor: GridPosition,
    cursor: GridPosition,
    stored: Selection,
)
    requires
        drag.selection_kind == SelectionKind::Line,
        call_ensures(compute_glyph_cell, (text_view, drag.anchor), anchor),
        call_ensures(compute_glyph_cell, (text_view, drag.cursor), cursor),
        call_ensures(snap_to_text, (text_view, drag), stored),
    ensures
        ({
            let rows = text_view@.rows;
            let is_forward = anchor.row_index < cursor.row_index || (anchor.row_index
                == cursor.row_index && anchor.column_index <= cursor.column_index);
            let (first, last, start, end) = if is_forward {
                (anchor, cursor, stored.anchor, stored.cursor)
            } else {
                (cursor, anchor, stored.cursor, stored.anchor)
            };
            &&& stored.selection_kind == SelectionKind::Line
            &&& start.column_index == 0
            &&& start.row_index == (if first.row_index < rows.len() {
                rows[first.row_index as int].line_start_row_index
            } else {
                first.row_index
            })
            &&& end.row_index == (if last.row_index < rows.len() {
                rows[last.row_index as int].line_end_row_index
            } else {
                last.row_index
            })
            &&& text_view@.column_count > 0 ==> end.column_index == text_view@.column_count - 1
            &&& text_view@.column_count == 0 ==> end.column_index == 0
        }),
{
}

/// A character or block drag is stored from the glyph under its anchor to
/// the glyph under its cursor.
pub proof fn law_a_cell_drag_takes_in_the_glyphs_it_names(
    text_view: &TextView,
    drag: Selection,
    anchor: GridPosition,
    cursor: GridPosition,
    stored: Selection,
)
    requires
        drag.selection_kind == SelectionKind::Character || drag.selection_kind
            == SelectionKind::Block,
        call_ensures(compute_glyph_cell, (text_view, drag.anchor), anchor),
        call_ensures(compute_glyph_cell, (text_view, drag.cursor), cursor),
        call_ensures(snap_to_text, (text_view, drag), stored),
    ensures
        ({
            &&& stored.selection_kind == drag.selection_kind
            &&& stored.anchor == anchor
            &&& stored.cursor == cursor
        }),
{
}

/// A word drag in a pane that has text, however short and whichever way it runs, is stored from
/// the start that the cell of its earlier glyph records to the end that the cell
/// of its later glyph records. A glyph without a cell stays where it is.
pub proof fn law_a_word_drag_takes_in_whole_words_in_its_pane(
    server: &Server,
    pane_id: PaneId,
    text_view: &TextView,
    drag: Selection,
    anchor: GridPosition,
    cursor: GridPosition,
    stored: Selection,
)
    requires
        drag.selection_kind == SelectionKind::Word,
        call_ensures(compute_glyph_cell, (text_view, drag.anchor), anchor),
        call_ensures(compute_glyph_cell, (text_view, drag.cursor), cursor),
        call_ensures(Server::get_text_view, (server, pane_id), Some(text_view)),
        call_ensures(Server::snap_selection, (server, pane_id, drag), stored),
    ensures
        ({
            let rows = text_view@.rows;
            let is_forward = anchor.row_index < cursor.row_index || (anchor.row_index
                == cursor.row_index && anchor.column_index <= cursor.column_index);
            let (first, last, start, end) = if is_forward {
                (anchor, cursor, stored.anchor, stored.cursor)
            } else {
                (cursor, anchor, stored.cursor, stored.anchor)
            };
            &&& stored.selection_kind == SelectionKind::Word
            &&& if first.row_index < rows.len() && first.column_index
                < rows[first.row_index as int].cells@.len() {
                start == rows[first.row_index as int].cells@[first.column_index as int].word_start
            } else {
                start == first
            }
            &&& if last.row_index < rows.len() && last.column_index
                < rows[last.row_index as int].cells@.len() {
                end == rows[last.row_index as int].cells@[last.column_index as int].word_end
            } else {
                end == last
            }
        }),
{
}

/// A line drag in a pane that has text, over one row or many and whichever way it runs, is stored
/// from the first column of the row on which its earlier glyph's line begins to
/// the last column of the row on which its later glyph's line ends.
pub proof fn law_a_line_drag_takes_in_whole_lines_in_its_pane(
    server: &Server,
    pane_id: PaneId,
    text_view: &TextView,
    drag: Selection,
    anchor: GridPosition,
    cursor: GridPosition,
    stored: Selection,
)
    requires
        drag.selection_kind == SelectionKind::Line,
        call_ensures(compute_glyph_cell, (text_view, drag.anchor), anchor),
        call_ensures(compute_glyph_cell, (text_view, drag.cursor), cursor),
        call_ensures(Server::get_text_view, (server, pane_id), Some(text_view)),
        call_ensures(Server::snap_selection, (server, pane_id, drag), stored),
    ensures
        ({
            let rows = text_view@.rows;
            let is_forward = anchor.row_index < cursor.row_index || (anchor.row_index
                == cursor.row_index && anchor.column_index <= cursor.column_index);
            let (first, last, start, end) = if is_forward {
                (anchor, cursor, stored.anchor, stored.cursor)
            } else {
                (cursor, anchor, stored.cursor, stored.anchor)
            };
            &&& stored.selection_kind == SelectionKind::Line
            &&& start.column_index == 0
            &&& start.row_index == (if first.row_index < rows.len() {
                rows[first.row_index as int].line_start_row_index
            } else {
                first.row_index
            })
            &&& end.row_index == (if last.row_index < rows.len() {
                rows[last.row_index as int].line_end_row_index
            } else {
                last.row_index
            })
            &&& text_view@.column_count > 0 ==> end.column_index == text_view@.column_count - 1
            &&& text_view@.column_count == 0 ==> end.column_index == 0
        }),
{
}

/// A character or block drag in a pane that has text is stored from the glyph under its anchor to
/// the glyph under its cursor.
pub proof fn law_a_cell_drag_takes_in_the_glyphs_it_names_in_its_pane(
    server: &Server,
    pane_id: PaneId,
    text_view: &TextView,
    drag: Selection,
    anchor: GridPosition,
    cursor: GridPosition,
    stored: Selection,
)
    requires
        drag.selection_kind == SelectionKind::Character || drag.selection_kind
            == SelectionKind::Block,
        call_ensures(compute_glyph_cell, (text_view, drag.anchor), anchor),
        call_ensures(compute_glyph_cell, (text_view, drag.cursor), cursor),
        call_ensures(Server::get_text_view, (server, pane_id), Some(text_view)),
        call_ensures(Server::snap_selection, (server, pane_id, drag), stored),
    ensures
        ({
            &&& stored.selection_kind == drag.selection_kind
            &&& stored.anchor == anchor
            &&& stored.cursor == cursor
        }),
{
}

/// A word drag with both ends on one glyph is stored as that glyph's word.
pub proof fn law_a_click_on_a_word_takes_it_whole(
    text_view: &TextView,
    drag: Selection,
    glyph: GridPosition,
    stored: Selection,
)
    requires
        drag.selection_kind == SelectionKind::Word,
        call_ensures(compute_glyph_cell, (text_view, drag.anchor), glyph),
        call_ensures(compute_glyph_cell, (text_view, drag.cursor), glyph),
        call_ensures(snap_to_text, (text_view, drag), stored),
        glyph.row_index < text_view@.rows.len(),
        glyph.column_index < text_view@.rows[glyph.row_index as int].cells@.len(),
    ensures
        ({
            let cell = text_view@.rows[glyph.row_index as int].cells@[glyph.column_index as int];
            stored.anchor == cell.word_start && stored.cursor == cell.word_end
        }),
{
}

/// Dragging the other way over two glyphs that differ stores the same text with
/// its ends exchanged.
pub proof fn law_a_drag_back_exchanges_the_ends(
    text_view: &TextView,
    drag: Selection,
    drag_back: Selection,
    anchor: GridPosition,
    cursor: GridPosition,
    stored: Selection,
    stored_back: Selection,
)
    requires
        drag_back.selection_kind == drag.selection_kind,
        drag_back.anchor == drag.cursor,
        drag_back.cursor == drag.anchor,
        call_ensures(compute_glyph_cell, (text_view, drag.anchor), anchor),
        call_ensures(compute_glyph_cell, (text_view, drag.cursor), cursor),
        anchor != cursor,
        call_ensures(snap_to_text, (text_view, drag), stored),
        call_ensures(snap_to_text, (text_view, drag_back), stored_back),
    ensures
        stored_back.anchor == stored.cursor,
        stored_back.cursor == stored.anchor,
{
}

/// A pane with no text keeps the drag as it is, whatever its kind.
pub proof fn law_a_drag_over_no_text_is_kept(
    server: &Server,
    pane_id: PaneId,
    drag: Selection,
    stored: Selection,
)
    requires
        call_ensures(Server::get_text_view, (server, pane_id), None),
        call_ensures(Server::snap_selection, (server, pane_id, drag), stored),
    ensures
        stored == drag,
{
}

/// Every drag over every text is stored as something, and every pointer moves onto
/// some cell.
pub proof fn law_every_drag_is_stored(
    server: &Server,
    pane_id: PaneId,
    text_view: &TextView,
    drag: Selection,
    pointer: GridPosition,
)
    ensures
        call_requires(snap_to_text, (text_view, drag)),
        call_requires(compute_glyph_cell, (text_view, pointer)),
        call_requires(Server::snap_selection, (server, pane_id, drag)),
{
}

} // verus!
