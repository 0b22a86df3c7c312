use koshi_visual::command::{GridPosition, Selection, SelectionKind};
use koshi_visual::snap::snap_to_text;
use koshi_visual::text_view::{compute_glyph_cell, TextCell, TextRow, TextView};

fn at(row_index: usize, column_index: usize) -> GridPosition {
    GridPosition {
        row_index,
        column_index,
    }
}

fn drag(
    selection_kind: SelectionKind,
    anchor: (usize, usize),
    cursor: (usize, usize),
) -> Selection {
    Selection {
        selection_kind,
        anchor: at(anchor.0, anchor.1),
        cursor: at(cursor.0, cursor.1),
    }
}

/// A row of the pane as `(glyph, width)` cells, padded with blanks. A width of
/// two adds the empty right half. A width of zero is the blank left before a
/// wide glyph that moved to the next row.
fn build_cells(row_index: usize, glyphs: &[(&str, usize)], column_count: usize) -> Vec<TextCell> {
    let mut cells: Vec<(String, usize, bool)> = Vec::new();
    for (glyph, width) in glyphs {
        match width {
            0 => cells.push((String::new(), 1, true)),
            2 => {
                cells.push((glyph.to_string(), 2, false));
                cells.push((String::new(), 0, false));
            }
            _ => cells.push((glyph.to_string(), 1, false)),
        }
    }
    while cells.len() < column_count {
        cells.push((" ".to_string(), 1, false));
    }
    // A word is a run of cells on one side of being blank.
    let is_blank: Vec<bool> = cells
        .iter()
        .map(|(text, width, _)| *width != 0 && text.trim().is_empty())
        .collect();
    let mut built = Vec::new();
    for (column_index, (text, display_width, is_wide_wrap_spacer)) in cells.into_iter().enumerate()
    {
        let mut start = column_index;
        while start > 0 && is_blank[start - 1] == is_blank[column_index] {
            start -= 1;
        }
        let mut end = column_index;
        while end + 1 < is_blank.len() && is_blank[end + 1] == is_blank[column_index] {
            end += 1;
        }
        built.push(TextCell {
            text,
            display_width,
            is_wide_wrap_spacer,
            word_start: at(row_index, start),
            word_end: at(row_index, end),
        });
    }
    built
}

/// A pane `column_count` cells wide. `lines` gives, for each row, the first and
/// last row of its line.
fn build_text_view(
    column_count: usize,
    rows: &[&[(&str, usize)]],
    lines: &[(usize, usize)],
) -> TextView {
    let rows: Vec<TextRow> = rows
        .iter()
        .enumerate()
        .map(|(row_index, glyphs)| TextRow {
            cells: build_cells(row_index, glyphs, column_count),
            line_start_row_index: lines[row_index].0,
            line_end_row_index: lines[row_index].1,
        })
        .collect();
    TextView::new(column_count, rows).expect("the rows are well formed")
}

/// A pane whose rows hold plain one-column text, each row a line of its own.
fn build_plain_text_view(column_count: usize, texts: &[&str]) -> TextView {
    let glyphs: Vec<Vec<String>> = texts
        .iter()
        .map(|text| text.chars().map(|glyph| glyph.to_string()).collect())
        .collect();
    let rows: Vec<Vec<(&str, usize)>> = glyphs
        .iter()
        .map(|row| row.iter().map(|glyph| (glyph.as_str(), 1)).collect())
        .collect();
    let borrowed: Vec<&[(&str, usize)]> = rows.iter().map(|row| row.as_slice()).collect();
    let lines: Vec<(usize, usize)> = (0..texts.len()).map(|row| (row, row)).collect();
    build_text_view(column_count, &borrowed, &lines)
}

#[test]
fn a_pointer_on_the_right_half_of_a_wide_glyph_names_the_glyph() {
    let text_view = build_text_view(6, &[&[("世", 2), ("界", 2)]], &[(0, 0)]);
    assert_eq!(compute_glyph_cell(&text_view, at(0, 1)), at(0, 0));
    assert_eq!(compute_glyph_cell(&text_view, at(0, 3)), at(0, 2));
    assert_eq!(compute_glyph_cell(&text_view, at(0, 2)), at(0, 2));
    assert_eq!(compute_glyph_cell(&text_view, at(0, 4)), at(0, 4));
}

#[test]
fn a_pointer_outside_the_grid_names_itself() {
    let text_view = build_text_view(2, &[&[("世", 2)]], &[(0, 0)]);
    assert_eq!(compute_glyph_cell(&text_view, at(0, 9)), at(0, 9));
    assert_eq!(compute_glyph_cell(&text_view, at(7, 1)), at(7, 1));
}

#[test]
fn a_pointer_on_the_blank_before_a_wrapped_wide_glyph_names_the_glyph_before_it() {
    let text_view = build_text_view(
        3,
        &[&[("a", 1), ("b", 1), ("", 0)], &[("世", 2)]],
        &[(0, 1), (0, 1)],
    );
    assert_eq!(compute_glyph_cell(&text_view, at(0, 2)), at(0, 1));
}

#[test]
fn a_word_drag_covers_both_words_entire() {
    let text_view = build_plain_text_view(80, &["hello world"]);
    // From the `e` of `hello` to the `o` of `world`.
    assert_eq!(
        snap_to_text(&text_view, drag(SelectionKind::Word, (0, 1), (0, 7))),
        drag(SelectionKind::Word, (0, 0), (0, 10))
    );
    // The same drag backward keeps its anchor on the right.
    assert_eq!(
        snap_to_text(&text_view, drag(SelectionKind::Word, (0, 7), (0, 1))),
        drag(SelectionKind::Word, (0, 10), (0, 0))
    );
}

#[test]
fn a_line_drag_covers_whole_wrapped_lines() {
    let text_view = build_text_view(
        4,
        &[
            &[("a", 1), ("b", 1), ("c", 1), ("d", 1)],
            &[("e", 1)],
            &[("f", 1)],
        ],
        &[(0, 1), (0, 1), (2, 2)],
    );
    assert_eq!(
        snap_to_text(&text_view, drag(SelectionKind::Line, (1, 0), (1, 2))),
        drag(SelectionKind::Line, (0, 0), (1, 3))
    );
    assert_eq!(
        snap_to_text(&text_view, drag(SelectionKind::Line, (2, 1), (0, 2))),
        drag(SelectionKind::Line, (2, 3), (0, 0))
    );
}

#[test]
fn a_pane_without_columns_ends_its_lines_at_column_zero() {
    let text_view = TextView::new(0, Vec::new()).expect("no rows are well formed");
    assert_eq!(
        snap_to_text(&text_view, drag(SelectionKind::Line, (3, 5), (4, 6))),
        drag(SelectionKind::Line, (3, 0), (4, 0))
    );
}

#[test]
fn character_and_block_highlights_on_glyphs_are_stored_as_they_arrive() {
    let text_view = build_plain_text_view(20, &["hello world", "more text"]);
    for selection_kind in [SelectionKind::Character, SelectionKind::Block] {
        for (anchor, cursor) in [((0, 1), (1, 7)), ((1, 7), (0, 1)), ((0, 4), (0, 4))] {
            let selection = drag(selection_kind, anchor, cursor);
            assert_eq!(snap_to_text(&text_view, selection), selection);
        }
    }
}

#[test]
fn character_and_block_highlights_end_on_glyphs() {
    let text_view = build_text_view(6, &[&[("世", 2), ("界", 2), ("x", 1)]], &[(0, 0)]);
    for selection_kind in [SelectionKind::Character, SelectionKind::Block] {
        assert_eq!(
            snap_to_text(&text_view, drag(selection_kind, (0, 1), (0, 3))),
            drag(selection_kind, (0, 0), (0, 2))
        );
    }
}

#[test]
fn snapping_a_stored_highlight_again_changes_nothing() {
    let text_view = build_text_view(
        8,
        &[
            &[("a", 1), (" ", 1), ("世", 2), ("界", 2), (" ", 1), ("z", 1)],
            &[("q", 1), ("r", 1)],
        ],
        &[(0, 1), (0, 1)],
    );
    for selection_kind in [
        SelectionKind::Character,
        SelectionKind::Word,
        SelectionKind::Line,
        SelectionKind::Block,
    ] {
        for anchor_row in 0..3 {
            for anchor_column in 0..10 {
                for cursor_row in 0..3 {
                    for cursor_column in 0..10 {
                        let stored = snap_to_text(
                            &text_view,
                            drag(
                                selection_kind,
                                (anchor_row, anchor_column),
                                (cursor_row, cursor_column),
                            ),
                        );
                        assert_eq!(snap_to_text(&text_view, stored), stored);
                    }
                }
            }
        }
    }
}

#[test]
fn a_line_drag_from_beyond_a_row_of_one_glyph_loses_only_its_direction() {
    let text_view = build_text_view(2, &[&[("世", 2)]], &[(0, 0)]);
    let stored = snap_to_text(&text_view, drag(SelectionKind::Line, (0, 5), (0, 0)));
    assert_eq!(stored, drag(SelectionKind::Line, (0, 1), (0, 0)));
    assert_eq!(
        snap_to_text(&text_view, stored),
        drag(SelectionKind::Line, (0, 0), (0, 1))
    );
}

#[test]
fn a_line_drag_from_beyond_the_pane_ends_with_the_pane() {
    let text_view = build_plain_text_view(4, &["ab"]);
    assert_eq!(
        snap_to_text(&text_view, drag(SelectionKind::Line, (0, 0), (0, 9))),
        drag(SelectionKind::Line, (0, 0), (0, 3))
    );
}

#[test]
fn a_word_drag_that_begins_or_ends_on_a_wide_glyph_covers_it_whole() {
    let text_view = build_text_view(
        8,
        &[&[("a", 1), ("世", 2), ("界", 2), (" ", 1), ("z", 1)]],
        &[(0, 0)],
    );
    assert_eq!(
        snap_to_text(&text_view, drag(SelectionKind::Word, (0, 2), (0, 4))),
        drag(SelectionKind::Word, (0, 0), (0, 4))
    );
}

/// A one-row pane whose single cell records the given word and line.
fn try_one_cell(
    word_start: GridPosition,
    word_end: GridPosition,
    line: (usize, usize),
) -> Option<TextView> {
    TextView::new(
        1,
        vec![TextRow {
            cells: vec![TextCell {
                text: "a".to_string(),
                display_width: 1,
                is_wide_wrap_spacer: false,
                word_start,
                word_end,
            }],
            line_start_row_index: line.0,
            line_end_row_index: line.1,
        }],
    )
}

#[test]
fn words_and_lines_must_lie_around_their_cells_and_rows() {
    assert!(try_one_cell(at(0, 0), at(0, 0), (0, 0)).is_some());
    // A word that begins after its cell, and a line that begins after its row.
    assert_eq!(try_one_cell(at(0, 1), at(0, 1), (0, 0)), None);
    assert_eq!(try_one_cell(at(0, 0), at(0, 0), (1, 1)), None);
    // A line that ends past the grid is its own end there.
    assert!(try_one_cell(at(0, 0), at(0, 0), (0, 5)).is_some());
}

#[test]
fn the_ends_of_words_and_lines_must_give_themselves_back() {
    let build_row = |word_end_columns: [usize; 2], line_end_row_index: usize| TextRow {
        cells: (0..2)
            .map(|column_index| TextCell {
                text: "a".to_string(),
                display_width: 1,
                is_wide_wrap_spacer: false,
                word_start: at(0, 0),
                word_end: at(0, word_end_columns[column_index]),
            })
            .collect(),
        line_start_row_index: 0,
        line_end_row_index,
    };
    assert!(TextView::new(3, vec![build_row([1, 1], 0)]).is_some());
    assert_eq!(TextView::new(3, vec![build_row([1, 2], 0)]), None);
}

#[test]
fn a_view_answers_from_its_cells_and_rows() {
    let text_view = build_plain_text_view(5, &["ab cd"]);
    assert_eq!(text_view.get_cell(0, 3).map(|cell| cell.text.as_str()), Some("c"));
    assert_eq!(text_view.get_cell(0, 5), None);
    assert_eq!(text_view.get_cell(1, 0), None);
    assert_eq!(text_view.get_word_start_position(0, 4), (0, 3));
    assert_eq!(text_view.get_word_end_position(0, 0), (0, 1));
    assert_eq!(text_view.get_word_start_position(4, 9), (4, 9));
    assert_eq!(text_view.get_word_end_position(4, 9), (4, 9));
    assert_eq!(text_view.get_line_start_row_index(6), 6);
    assert_eq!(text_view.get_line_end_row_index(6), 6);
    assert_eq!(text_view.get_column_count(), 5);
}
