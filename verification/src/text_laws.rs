//! What the text of a pane answers, over the cells and rows it was made of.

use vstd::prelude::*;

use crate::command::GridPosition;
use crate::snap_laws::law_glyph_cell_is_where_the_glyph_lives;
use crate::text_view::{compute_glyph_cell, TextCell, TextModel, TextRow, TextView};

verus! {

/// A view is made of the rows it was given, and of nothing else. It is refused
/// only for its words and lines, never for its width.
pub proof fn law_a_view_holds_the_rows_it_was_given(
    column_count: usize,
    other_column_count: usize,
    rows: Vec<TextRow>,
    made: Option<TextView>,
    other_made: Option<TextView>,
)
    requires
        call_ensures(TextView::new, (column_count, rows), made),
        call_ensures(TextView::new, (other_column_count, rows), other_made),
    ensures
        made matches Some(text_view) ==> text_view@.column_count == column_count
            && text_view@.rows == rows@,
        made is Some <==> other_made is Some,
{
    let one = TextModel { column_count, rows: rows@ };
    let other = TextModel { column_count: other_column_count, rows: rows@ };
    if one.is_well_formed() {
        lemma_width_does_not_matter(one, other);
    }
    if other.is_well_formed() {
        lemma_width_does_not_matter(other, one);
    }
}

/// Whether a text is well formed does not depend on its width.
proof fn lemma_width_does_not_matter(one: TextModel, other: TextModel)
    requires
        one.rows == other.rows,
        one.is_well_formed(),
    ensures
        other.is_well_formed(),
{
    assert forall|position: GridPosition| one.glyph_cell(position) == #[trigger] other.glyph_cell(
        position,
    ) by {
        lemma_glyph_column_needs_no_width(
            one,
            other,
            position.row_index as int,
            position.column_index as nat,
        );
    }
    assert forall|row_index: usize| row_index < other.rows.len() implies #[trigger]
        other.is_line_consistent_at(row_index) by {
        assert(one.is_line_consistent_at(row_index));
    }
    assert forall|position: GridPosition| other.has_glyph_cell(position) implies #[trigger]
        other.is_word_consistent_at(position) by {
        assert(one.has_glyph_cell(position));
        assert(one.is_word_consistent_at(position));
        assert(one.glyph_cell(other.word_start(position)) == other.glyph_cell(
            other.word_start(position),
        ));
        assert(one.glyph_cell(other.word_end(position)) == other.glyph_cell(
            other.word_end(position),
        ));
    }
}

/// Where a glyph lives does not depend on the width of the text.
proof fn lemma_glyph_column_needs_no_width(
    one: TextModel,
    other: TextModel,
    row_index: int,
    column_index: nat,
)
    requires
        one.rows == other.rows,
    ensures
        one.glyph_column(row_index, column_index) == other.glyph_column(row_index, column_index),
    decreases column_index,
{
    if column_index > 0 && one.is_glyphless(row_index, column_index as int) {
        lemma_glyph_column_needs_no_width(one, other, row_index, (column_index - 1) as nat);
    }
}

/// Every text is accepted whose words and lines divide it: each cell lies in its
/// word, which begins at a cell that draws a glyph or begins its row and ends at
/// a cell, and which every cell in it records alike; and so for rows and lines.
pub proof fn law_words_and_lines_that_divide_the_text_are_accepted(
    column_count: usize,
    rows: Vec<TextRow>,
    made: Option<TextView>,
)
    requires
        call_ensures(TextView::new, (column_count, rows), made),
        forall|row: int|
            0 <= row < rows@.len() ==> (#[trigger] rows@[row]).line_start_row_index <= row
                <= rows@[row].line_end_row_index < rows@.len(),
        forall|row: int, other: int|
            #![trigger rows@[row], rows@[other]]
            0 <= row < rows@.len() && rows@[row].line_start_row_index <= other
                <= rows@[row].line_end_row_index ==> rows@[other].line_start_row_index
                == rows@[row].line_start_row_index && rows@[other].line_end_row_index
                == rows@[row].line_end_row_index,
        forall|row: int, column: int|
            #![trigger rows@[row].cells@[column]]
            0 <= row < rows@.len() && 0 <= column < rows@[row].cells@.len() ==> {
                let start = rows@[row].cells@[column].word_start;
                let end = rows@[row].cells@[column].word_end;
                &&& start.row_index < row || (start.row_index == row && start.column_index
                    <= column)
                &&& row < end.row_index || (row == end.row_index && column <= end.column_index)
                &&& end.row_index < rows@.len()
                &&& end.column_index < rows@[end.row_index as int].cells@.len()
                &&& start.column_index < rows@[start.row_index as int].cells@.len()
                &&& start.column_index == 0 || {
                    let cell = rows@[start.row_index as int].cells@[start.column_index as int];
                    cell.display_width != 0 && !cell.is_wide_wrap_spacer
                }
            },
        forall|row: int, column: int, other_row: int, other_column: int|
            #![trigger rows@[row].cells@[column], rows@[other_row].cells@[other_column]]
            0 <= row < rows@.len() && 0 <= column < rows@[row].cells@.len() && 0 <= other_row
                < rows@.len() && 0 <= other_column < rows@[other_row].cells@.len() && {
                let start = rows@[row].cells@[column].word_start;
                let end = rows@[row].cells@[column].word_end;
                &&& start.row_index < other_row || (start.row_index == other_row
                    && start.column_index <= other_column)
                &&& other_row < end.row_index || (other_row == end.row_index && other_column
                    <= end.column_index)
            } ==> rows@[other_row].cells@[other_column].word_start
                == rows@[row].cells@[column].word_start
                && rows@[other_row].cells@[other_column].word_end
                == rows@[row].cells@[column].word_end,
    ensures
        made is Some,
{
    let text = TextModel { column_count, rows: rows@ };
    assert forall|row_index: usize| row_index < text.rows.len() implies #[trigger]
        text.is_line_consistent_at(row_index) by {
        let row = rows@[row_index as int];
        assert(rows@[row.line_start_row_index as int].line_start_row_index
            == row.line_start_row_index);
        assert(rows@[row.line_end_row_index as int].line_end_row_index == row.line_end_row_index);
    }
    assert forall|position: GridPosition| text.has_glyph_cell(position) implies #[trigger]
        text.is_word_consistent_at(position) by {
        let cell = rows@[position.row_index as int].cells@[position.column_index as int];
        let start = cell.word_start;
        let end = cell.word_end;
        let end_glyph = text.glyph_cell(end);
        law_glyph_cell_is_where_the_glyph_lives(text, start);
        law_glyph_cell_is_where_the_glyph_lives(text, end);
        let first = rows@[start.row_index as int].cells@[start.column_index as int];
        assert(first.word_start == start);
        if start.row_index == end.row_index && end_glyph.column_index < start.column_index {
            assert(text.is_glyphless(end.row_index as int, start.column_index as int));
        }
        let last = rows@[end_glyph.row_index as int].cells@[end_glyph.column_index as int];
        assert(last.word_end == end);
    }
}

/// In a text that is accepted, the word of every glyph lies around it, begins at a
/// glyph that records the same beginning, and ends where its last glyph records
/// its end, which may be that glyph's right half. So too, the line of every row lies
/// around it and has ends that record themselves.
pub proof fn law_an_accepted_text_keeps_glyphs_in_their_words(
    column_count: usize,
    rows: Vec<TextRow>,
    text_view: TextView,
    row: int,
    column: int,
)
    requires
        call_ensures(TextView::new, (column_count, rows), Some(text_view)),
        0 <= row < rows@.len(),
    ensures
        ({
            let start = rows@[row].line_start_row_index;
            let end = rows@[row].line_end_row_index;
            &&& start <= row <= end
            &&& rows@[start as int].line_start_row_index == start
            &&& end < rows@.len() ==> rows@[end as int].line_end_row_index == end
        }),
        0 <= column < rows@[row].cells@.len() && (column == 0 || (rows@[row].cells@[column]
            .display_width != 0 && !rows@[row].cells@[column].is_wide_wrap_spacer)) ==> {
            let start = rows@[row].cells@[column].word_start;
            let end = rows@[row].cells@[column].word_end;
            &&& start.row_index < row || (start.row_index == row && start.column_index <= column)
            &&& row < end.row_index || (row == end.row_index && column <= end.column_index)
            &&& start.column_index < rows@[start.row_index as int].cells@.len() ==> {
                let first = rows@[start.row_index as int].cells@[start.column_index as int];
                &&& first.word_start == start
                &&& start.column_index == 0 || (first.display_width != 0
                    && !first.is_wide_wrap_spacer)
            }
            &&& end.row_index < rows@.len() && end.column_index
                < rows@[end.row_index as int].cells@.len() ==> forall|last: int|
                0 <= last <= end.column_index && (last == 0 || (
                rows@[end.row_index as int].cells@[last].display_width != 0
                    && !rows@[end.row_index as int].cells@[last].is_wide_wrap_spacer)) && (
                forall|passed: int|
                    last < passed <= end.column_index ==> rows@[end.row_index as int].cells@[passed]
                        .display_width == 0
                        || #[trigger] rows@[end.row_index as int].cells@[passed].is_wide_wrap_spacer)
                    ==> #[trigger] rows@[end.row_index as int].cells@[last].word_end == end
        },
{
    let text = TextModel { column_count, rows: rows@ };
    assert(row <= usize::MAX) by {
        vstd::std_specs::vec::axiom_spec_len(&rows);
    }
    assert(text.is_line_consistent_at(row as usize));
    if 0 <= column < rows@[row].cells@.len() && (column == 0 || (rows@[row].cells@[column]
        .display_width != 0 && !rows@[row].cells@[column].is_wide_wrap_spacer)) {
        assert(column <= usize::MAX) by {
            vstd::std_specs::vec::axiom_spec_len(&rows@[row].cells);
        }
        let position = GridPosition { row_index: row as usize, column_index: column as usize };
        assert(text.has_glyph_cell(position));
        assert(text.is_word_consistent_at(position));
        law_glyph_cell_is_where_the_glyph_lives(text, text.word_start(position));
        let end = text.word_end(position);
        law_glyph_cell_is_where_the_glyph_lives(text, end);
        if text.has_cell(end.row_index as int, end.column_index as int) {
            assert forall|last: int|
                0 <= last <= end.column_index && (last == 0 || (
                rows@[end.row_index as int].cells@[last].display_width != 0
                    && !rows@[end.row_index as int].cells@[last].is_wide_wrap_spacer)) && (
                forall|passed: int|
                    last < passed <= end.column_index ==> rows@[end.row_index as int].cells@[passed]
                        .display_width == 0
                        || #[trigger] rows@[end.row_index as int].cells@[passed].is_wide_wrap_spacer)
                implies #[trigger] rows@[end.row_index as int].cells@[last].word_end == end by {
                let glyph_column = text.glyph_cell(end).column_index as int;
                if last < glyph_column {
                    assert(rows@[end.row_index as int].cells@[glyph_column].display_width == 0
                        || rows@[end.row_index as int].cells@[glyph_column].is_wide_wrap_spacer);
                } else if glyph_column < last {
                    assert(text.is_glyphless(end.row_index as int, last));
                }
            }
        }
    }
}

/// A cell is handed out exactly where its row holds one, and as the row holds it.
pub proof fn law_a_cell_is_handed_out_as_its_row_holds_it(
    text_view: &TextView,
    row_index: usize,
    column_index: usize,
    found: Option<&TextCell>,
)
    requires
        call_ensures(TextView::get_cell, (text_view, row_index, column_index), found),
    ensures
        ({
            let rows = text_view@.rows;
            if row_index < rows.len() && column_index < rows[row_index as int].cells@.len() {
                found == Some(&rows[row_index as int].cells@[column_index as int])
            } else {
                found is None
            }
        }),
{
}

/// The word around a position is the one its cell records. A position without a
/// cell is a word of its own.
pub proof fn law_a_word_is_what_its_cell_records(
    text_view: &TextView,
    row_index: usize,
    column_index: usize,
    start: (usize, usize),
    end: (usize, usize),
)
    requires
        call_ensures(
            TextView::get_word_start_position,
            (text_view, row_index, column_index),
            start,
        ),
        call_ensures(TextView::get_word_end_position, (text_view, row_index, column_index), end),
    ensures
        ({
            let rows = text_view@.rows;
            if row_index < rows.len() && column_index < rows[row_index as int].cells@.len() {
                let cell = rows[row_index as int].cells@[column_index as int];
                &&& start.0 == cell.word_start.row_index
                &&& start.1 == cell.word_start.column_index
                &&& end.0 == cell.word_end.row_index
                &&& end.1 == cell.word_end.column_index
            } else {
                start == (row_index, column_index) && end == (row_index, column_index)
            }
        }),
{
}

/// The line around a row is the one the row records. A row index without a row is
/// a line of its own.
pub proof fn law_a_line_is_what_its_row_records(
    text_view: &TextView,
    row_index: usize,
    start: usize,
    end: usize,
)
    requires
        call_ensures(TextView::get_line_start_row_index, (text_view, row_index), start),
        call_ensures(TextView::get_line_end_row_index, (text_view, row_index), end),
    ensures
        ({
            let rows = text_view@.rows;
            if row_index < rows.len() {
                &&& start == rows[row_index as int].line_start_row_index
                &&& end == rows[row_index as int].line_end_row_index
            } else {
                start == row_index && end == row_index
            }
        }),
{
}

/// A pointer moves left within its row, over cells that are the right half of a
/// wide glyph or the blank before one that moved on, and over no others. It stops
/// at the row's first column or at the first cell that is neither, so it never
/// stays on a cell that draws nothing while a column lies left of it.
pub proof fn law_a_pointer_moves_onto_the_glyph_under_it(
    text_view: &TextView,
    pointer: GridPosition,
    moved: GridPosition,
)
    requires
        call_ensures(compute_glyph_cell, (text_view, pointer), moved),
    ensures
        ({
            let rows = text_view@.rows;
            let row = pointer.row_index as int;
            &&& moved.row_index == pointer.row_index
            &&& moved.column_index <= pointer.column_index
            &&& moved.column_index == 0 || row >= rows.len() || moved.column_index
                >= rows[row].cells@.len() || (rows[row].cells@[moved.column_index as int]
                .display_width != 0
                && !rows[row].cells@[moved.column_index as int].is_wide_wrap_spacer)
            &&& forall|passed: int|
                moved.column_index < passed <= pointer.column_index ==> row < rows.len() && passed
                    < rows[row].cells@.len() && (rows[row].cells@[passed].display_width == 0
                    || #[trigger] rows[row].cells@[passed].is_wide_wrap_spacer)
        }),
{
    let text = text_view@;
    law_glyph_cell_is_where_the_glyph_lives(text, pointer);
    assert forall|passed: int|
        moved.column_index < passed <= pointer.column_index implies pointer.row_index
        < text.rows.len() && passed < text.rows[pointer.row_index as int].cells@.len() && (
    text.rows[pointer.row_index as int].cells@[passed].display_width == 0
        || #[trigger] text.rows[pointer.row_index as int].cells@[passed].is_wide_wrap_spacer) by {
        assert(text.is_glyphless(pointer.row_index as int, passed));
    }
}

} // verus!
