//! What holds of every stored highlight, whatever the drag and the text.

use vstd::prelude::*;

use crate::command::{GridPosition, Selection, SelectionKind};
use crate::snap::{
    first_glyph, is_forward, last_glyph, snapped, snapped_end, snapped_start,
};
use crate::text_view::TextModel;

verus! {

/// A pointer's glyph cell lies on the pointer's row, at or left of it. It draws
/// a glyph of its own unless it is the row's first cell, and it is its own
/// glyph cell.
pub proof fn law_glyph_cell_is_where_the_glyph_lives(text: TextModel, position: GridPosition)
    ensures
        text.glyph_cell(position).row_index == position.row_index,
        text.glyph_cell(position).column_index <= position.column_index,
        text.glyph_cell(position).column_index == 0 || !text.is_glyphless(
            position.row_index as int,
            text.glyph_cell(position).column_index as int,
        ),
        forall|passed: int|
            text.glyph_cell(position).column_index < passed <= position.column_index
                ==> text.is_glyphless(position.row_index as int, passed),
        text.glyph_cell(text.glyph_cell(position)) == text.glyph_cell(position),
{
    text.lemma_glyph_column(position.row_index as int, position.column_index as nat);
}

/// A glyph's own cell at or before `position` stands at or before the glyph cell
/// of `position`.
proof fn lemma_glyph_cell_keeps_order(text: TextModel, glyph: GridPosition, position: GridPosition)
    requires
        text.glyph_cell(glyph) == glyph,
        glyph.is_at_or_before(position),
    ensures
        glyph.is_at_or_before(text.glyph_cell(position)),
{
    law_glyph_cell_is_where_the_glyph_lives(text, glyph);
    law_glyph_cell_is_where_the_glyph_lives(text, position);
    if glyph.row_index == position.row_index && text.glyph_cell(position).column_index
        < glyph.column_index {
        assert(text.is_glyphless(position.row_index as int, glyph.column_index as int));
    }
}

/// The word around any position, in the grid or outside it, lies around it and
/// its ends give themselves back.
proof fn lemma_word_around(text: TextModel, position: GridPosition)
    requires
        text.is_well_formed(),
        text.glyph_cell(position) == position,
    ensures
        text.is_word_consistent_at(position),
{
    if !text.has_cell(position.row_index as int, position.column_index as int) {
        assert(text.is_word_consistent_at(position));
    }
}

/// The line around any row, in the grid or outside it, lies around it and its
/// ends give themselves back.
proof fn lemma_line_around(text: TextModel, row_index: usize)
    requires
        text.is_well_formed(),
    ensures
        text.is_line_consistent_at(row_index),
{
    if row_index >= text.rows.len() {
        assert(text.is_line_consistent_at(row_index));
    }
}

/// The words and lines around the drag's first and last glyph lie around them.
proof fn lemma_text_around_the_drag(text: TextModel, selection: Selection)
    requires
        text.is_well_formed(),
    ensures
        ({
            let first = first_glyph(text, selection);
            let last = last_glyph(text, selection);
            &&& text.glyph_cell(first) == first
            &&& text.glyph_cell(last) == last
            &&& first.is_at_or_before(last)
            &&& text.is_word_consistent_at(first)
            &&& text.is_word_consistent_at(last)
            &&& text.is_line_consistent_at(first.row_index)
            &&& text.is_line_consistent_at(last.row_index)
        }),
{
    law_glyph_cell_is_where_the_glyph_lives(text, selection.anchor);
    law_glyph_cell_is_where_the_glyph_lives(text, selection.cursor);
    lemma_word_around(text, first_glyph(text, selection));
    lemma_word_around(text, last_glyph(text, selection));
    lemma_line_around(text, first_glyph(text, selection).row_index);
    lemma_line_around(text, last_glyph(text, selection).row_index);
}

/// The ends of a highlight stand in reading order, and the anchor stays the end
/// that the drag began at.
pub proof fn law_snapping_keeps_the_direction_of_the_drag(text: TextModel, selection: Selection)
    requires
        text.is_well_formed(),
    ensures
        snapped_start(text, selection).is_at_or_before(snapped_end(text, selection)),
        is_forward(text, selection) ==> snapped(text, selection).anchor == snapped_start(
            text,
            selection,
        ) && snapped(text, selection).cursor == snapped_end(text, selection),
        !is_forward(text, selection) ==> snapped(text, selection).cursor == snapped_start(
            text,
            selection,
        ) && snapped(text, selection).anchor == snapped_end(text, selection),
        snapped(text, selection).selection_kind == selection.selection_kind,
{
    lemma_text_around_the_drag(text, selection);
}

/// A highlight begins at or before both glyphs that the drag names.
pub proof fn law_snapped_highlight_begins_before_the_drag(text: TextModel, selection: Selection)
    requires
        text.is_well_formed(),
    ensures
        snapped_start(text, selection).is_at_or_before(text.glyph_cell(selection.anchor)),
        snapped_start(text, selection).is_at_or_before(text.glyph_cell(selection.cursor)),
{
    lemma_text_around_the_drag(text, selection);
}

/// A highlight ends at or after both glyphs that the drag names. The one drag
/// left out is a line drag whose last glyph lies right of the pane's last
/// column on the last row of its line: a line highlight ends with the pane.
pub proof fn law_snapped_highlight_ends_after_the_drag(text: TextModel, selection: Selection)
    requires
        text.is_well_formed(),
        selection.selection_kind == SelectionKind::Line ==> {
            let last = last_glyph(text, selection);
            last.column_index <= text.last_column() || last.row_index < text.line_end(
                last.row_index,
            )
        },
    ensures
        text.glyph_cell(selection.anchor).is_at_or_before(snapped_end(text, selection)),
        text.glyph_cell(selection.cursor).is_at_or_before(snapped_end(text, selection)),
{
    lemma_text_around_the_drag(text, selection);
}

/// The highlight's last glyph stands at or after its start, strictly after it
/// where the drag's two glyphs differ and the highlight is no line highlight.
proof fn lemma_order_of_snapped_glyphs(text: TextModel, selection: Selection)
    requires
        text.is_well_formed(),
    ensures
        text.glyph_cell(snapped_start(text, selection)) == snapped_start(text, selection),
        snapped_start(text, selection).is_at_or_before(
            text.glyph_cell(snapped_end(text, selection)),
        ),
        selection.selection_kind != SelectionKind::Line ==> {
            &&& snapped_start(text, selection).is_at_or_before(first_glyph(text, selection))
            &&& last_glyph(text, selection).is_at_or_before(
                text.glyph_cell(snapped_end(text, selection)),
            )
        },
{
    let end = snapped_end(text, selection);
    lemma_text_around_the_drag(text, selection);
    law_glyph_cell_is_where_the_glyph_lives(text, end);
    if selection.selection_kind != SelectionKind::Line {
        lemma_glyph_cell_keeps_order(text, last_glyph(text, selection), end);
    }
}

/// Snapping a stored highlight again covers the same text.
pub proof fn law_snapping_again_covers_the_same_text(text: TextModel, selection: Selection)
    requires
        text.is_well_formed(),
    ensures
        snapped_start(text, snapped(text, selection)) == snapped_start(text, selection),
        snapped_end(text, snapped(text, selection)) == snapped_end(text, selection),
{
    lemma_text_around_the_drag(text, selection);
    lemma_order_of_snapped_glyphs(text, selection);
}

/// A backward line drag from right of the pane onto a line whose one row holds
/// a single glyph: both ends of the stored highlight lie on that glyph, so which
/// of them leads is lost.
pub open spec fn is_line_drag_over_one_glyph(text: TextModel, selection: Selection) -> bool {
    &&& selection.selection_kind == SelectionKind::Line
    &&& !is_forward(text, selection)
    &&& text.last_column() > 0
    &&& text.glyph_cell(snapped_end(text, selection)) == snapped_start(text, selection)
}

/// Snapping a stored highlight again changes nothing. The one drag left out is
/// [`is_line_drag_over_one_glyph`], which keeps its text and loses its direction.
pub proof fn law_snapping_again_changes_nothing(text: TextModel, selection: Selection)
    requires
        text.is_well_formed(),
        !is_line_drag_over_one_glyph(text, selection),
    ensures
        snapped(text, snapped(text, selection)) == snapped(text, selection),
{
    law_snapping_again_covers_the_same_text(text, selection);
    lemma_order_of_snapped_glyphs(text, selection);
    lemma_text_around_the_drag(text, selection);
}

/// Snapping a stored highlight again changes it only where the drag was
/// [`is_line_drag_over_one_glyph`]: the two ends then change places.
pub proof fn law_snapping_again_turns_a_line_drag_over_one_glyph(
    text: TextModel,
    selection: Selection,
)
    requires
        text.is_well_formed(),
        is_line_drag_over_one_glyph(text, selection),
    ensures
        snapped(text, snapped(text, selection)) != snapped(text, selection),
        snapped(text, snapped(text, selection)).anchor == snapped(text, selection).cursor,
        snapped(text, snapped(text, selection)).cursor == snapped(text, selection).anchor,
{
    law_snapping_again_covers_the_same_text(text, selection);
    lemma_order_of_snapped_glyphs(text, selection);
}

/// A drag with both ends inside the pane's width is never
/// [`is_line_drag_over_one_glyph`], so snapping its highlight again changes
/// nothing.
pub proof fn law_snapping_again_changes_no_drag_inside_the_pane(
    text: TextModel,
    selection: Selection,
)
    requires
        text.is_well_formed(),
        selection.anchor.column_index < text.column_count,
        selection.cursor.column_index < text.column_count,
    ensures
        !is_line_drag_over_one_glyph(text, selection),
        snapped(text, snapped(text, selection)) == snapped(text, selection),
{
    if is_line_drag_over_one_glyph(text, selection) {
        let end = snapped_end(text, selection);
        lemma_text_around_the_drag(text, selection);
        law_glyph_cell_is_where_the_glyph_lives(text, end);
        law_glyph_cell_is_where_the_glyph_lives(text, selection.anchor);
        law_glyph_cell_is_where_the_glyph_lives(text, selection.cursor);
        // Every column of the row but the first draws no glyph, so both ends of
        // the drag lie on the first.
        assert(text.glyph_cell(selection.anchor).column_index == 0);
        assert(text.glyph_cell(selection.cursor).column_index == 0);
    }
    law_snapping_again_changes_nothing(text, selection);
}

/// A character or block highlight whose ends lie on glyphs is stored exactly as
/// it arrives.
pub proof fn law_cell_highlight_on_glyphs_is_stored_as_it_arrives(
    text: TextModel,
    selection: Selection,
)
    requires
        selection.selection_kind == SelectionKind::Character || selection.selection_kind
            == SelectionKind::Block,
        !text.is_glyphless(
            selection.anchor.row_index as int,
            selection.anchor.column_index as int,
        ),
        !text.is_glyphless(
            selection.cursor.row_index as int,
            selection.cursor.column_index as int,
        ),
    ensures
        snapped(text, selection) == selection,
{
}

/// Both ends of a character or block highlight lie on a glyph's own cell or on
/// the first cell of their row.
pub proof fn law_cell_highlight_ends_on_glyphs(text: TextModel, selection: Selection)
    requires
        selection.selection_kind == SelectionKind::Character || selection.selection_kind
            == SelectionKind::Block,
    ensures
        snapped(text, selection).anchor == text.glyph_cell(selection.anchor),
        snapped(text, selection).cursor == text.glyph_cell(selection.cursor),
{
}

} // verus!
