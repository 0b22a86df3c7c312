//! The text of one pane as a highlight reads it: which cells hold glyphs, and
//! where the words and lines around each cell begin and end.

use vstd::prelude::*;

use crate::command::GridPosition;

verus! {

/// One cell of a row.
#[derive(Debug, PartialEq, Eq)]
pub struct TextCell {
    /// The glyph drawn in the cell, empty where the cell draws none.
    pub text: String,
    /// How many columns the glyph fills. The right half of a wide glyph is a
    /// cell of width zero.
    pub display_width: usize,
    /// The cell was left blank at the end of a row because the wide glyph that
    /// follows did not fit there.
    pub is_wide_wrap_spacer: bool,
    /// The first cell of the word this cell belongs to.
    pub word_start: GridPosition,
    /// The last cell of the word this cell belongs to.
    pub word_end: GridPosition,
}

/// One row of cells, and the rows that its line runs over.
#[derive(Debug, PartialEq, Eq)]
pub struct TextRow {
    pub cells: Vec<TextCell>,
    /// The row on which the line that this row belongs to begins.
    pub line_start_row_index: usize,
    /// The row on which the line that this row belongs to ends.
    pub line_end_row_index: usize,
}

/// The text of a pane, row by row from the oldest line kept.
///
/// A position that no cell stands at is a word of its own, and a row index that
/// no row has is a line of its own.
#[derive(Debug, PartialEq, Eq)]
pub struct TextView {
    grid: TextGrid,
}

/// Rows of cells whose words and lines may contradict each other.
#[derive(Debug, PartialEq, Eq)]
struct TextGrid {
    column_count: usize,
    rows: Vec<TextRow>,
}

/// What a [`TextView`] holds.
#[verifier::ext_equal]
pub struct TextModel {
    pub column_count: usize,
    pub rows: Seq<TextRow>,
}

impl View for TextView {
    type V = TextModel;

    closed spec fn view(&self) -> TextModel {
        self.grid@
    }
}

impl View for TextGrid {
    type V = TextModel;

    closed spec fn view(&self) -> TextModel {
        TextModel { column_count: self.column_count, rows: self.rows@ }
    }
}

impl TextModel {
    /// A cell stands at `row_index`, `column_index`.
    pub open spec fn has_cell(self, row_index: int, column_index: int) -> bool {
        &&& 0 <= row_index < self.rows.len()
        &&& 0 <= column_index < self.rows[row_index].cells@.len()
    }

    /// The cell at `row_index`, `column_index`, where one stands.
    pub open spec fn cell(self, row_index: int, column_index: int) -> TextCell
        recommends
            self.has_cell(row_index, column_index),
    {
        self.rows[row_index].cells@[column_index]
    }

    /// The cell draws no glyph of its own: it is the right half of a wide
    /// glyph, or the blank left before one that moved to the next row.
    pub open spec fn is_glyphless(self, row_index: int, column_index: int) -> bool {
        self.has_cell(row_index, column_index) && (self.cell(
            row_index,
            column_index,
        ).display_width == 0 || self.cell(row_index, column_index).is_wide_wrap_spacer)
    }

    /// Where the word around `position` begins.
    pub open spec fn word_start(self, position: GridPosition) -> GridPosition {
        if self.has_cell(position.row_index as int, position.column_index as int) {
            self.cell(position.row_index as int, position.column_index as int).word_start
        } else {
            position
        }
    }

    /// Where the word around `position` ends.
    pub open spec fn word_end(self, position: GridPosition) -> GridPosition {
        if self.has_cell(position.row_index as int, position.column_index as int) {
            self.cell(position.row_index as int, position.column_index as int).word_end
        } else {
            position
        }
    }

    /// The row on which the line around `row_index` begins.
    pub open spec fn line_start(self, row_index: usize) -> usize {
        if row_index < self.rows.len() {
            self.rows[row_index as int].line_start_row_index
        } else {
            row_index
        }
    }

    /// The row on which the line around `row_index` ends.
    pub open spec fn line_end(self, row_index: usize) -> usize {
        if row_index < self.rows.len() {
            self.rows[row_index as int].line_end_row_index
        } else {
            row_index
        }
    }

    /// The rightmost column of the pane.
    pub open spec fn last_column(self) -> usize {
        if self.column_count == 0 {
            0
        } else {
            (self.column_count - 1) as usize
        }
    }

    /// The nearest column at or left of `column_index` whose cell draws a glyph
    /// of its own, or column zero where there is none.
    pub open spec fn glyph_column(self, row_index: int, column_index: nat) -> nat
        decreases column_index,
    {
        if column_index > 0 && self.is_glyphless(row_index, column_index as int) {
            self.glyph_column(row_index, (column_index - 1) as nat)
        } else {
            column_index
        }
    }

    /// The cell that the glyph under `position` lives in.
    pub open spec fn glyph_cell(self, position: GridPosition) -> GridPosition {
        GridPosition {
            row_index: position.row_index,
            column_index: self.glyph_column(
                position.row_index as int,
                position.column_index as nat,
            ) as usize,
        }
    }

    /// The word around the cell at `position` runs from a glyph's own cell to
    /// the end of the word that its last glyph belongs to, and lies around
    /// `position`.
    pub open spec fn is_word_consistent_at(self, position: GridPosition) -> bool {
        let start = self.word_start(position);
        let end = self.word_end(position);
        &&& start.is_at_or_before(position)
        &&& position.is_at_or_before(end)
        &&& self.glyph_cell(start) == start
        &&& self.word_start(start) == start
        &&& self.word_end(self.glyph_cell(end)) == end
    }

    /// The line around the row lies around it, and its first and last rows
    /// belong to it.
    pub open spec fn is_line_consistent_at(self, row_index: usize) -> bool {
        let start = self.line_start(row_index);
        let end = self.line_end(row_index);
        &&& start <= row_index <= end
        &&& self.line_start(start) == start
        &&& self.line_end(end) == end
    }

    /// A cell stands at `position` and draws a glyph of its own, or begins its
    /// row.
    pub open spec fn has_glyph_cell(self, position: GridPosition) -> bool {
        self.has_cell(position.row_index as int, position.column_index as int) && self.glyph_cell(
            position,
        ) == position
    }

    /// What every [`TextView`] keeps: words and lines lie around the glyphs
    /// and rows they are recorded for, and asking again at either end of one
    /// gives that end back.
    pub open spec fn is_well_formed(self) -> bool {
        &&& forall|row_index: usize|
            row_index < self.rows.len() ==> #[trigger] self.is_line_consistent_at(row_index)
        &&& forall|position: GridPosition|
            self.has_glyph_cell(position) ==> #[trigger] self.is_word_consistent_at(position)
    }

    /// `glyph_column` never moves right, ends on column zero or on a cell with a
    /// glyph of its own, and passes over cells without one only.
    pub proof fn lemma_glyph_column(self, row_index: int, column_index: nat)
        ensures
            self.glyph_column(row_index, column_index) <= column_index,
            self.glyph_column(row_index, column_index) == 0 || !self.is_glyphless(
                row_index,
                self.glyph_column(row_index, column_index) as int,
            ),
            forall|passed: int|
                self.glyph_column(row_index, column_index) < passed <= column_index
                    ==> self.is_glyphless(row_index, passed),
        decreases column_index,
    {
        if column_index > 0 && self.is_glyphless(row_index, column_index as int) {
            self.lemma_glyph_column(row_index, (column_index - 1) as nat);
        }
    }
}

impl TextGrid {
    /// The cell at `row_index`, `column_index`, where one stands.
    fn get_cell(&self, row_index: usize, column_index: usize) -> (r: Option<&TextCell>)
        ensures
            r is Some <==> self@.has_cell(row_index as int, column_index as int),
            r matches Some(grid_cell) ==> *grid_cell == self@.cell(
                row_index as int,
                column_index as int,
            ),
    {
        if row_index < self.rows.len() {
            let row: &TextRow = &self.rows[row_index];
            if column_index < row.cells.len() {
                return Some(&row.cells[column_index]);
            }
        }
        None
    }

    /// Whether a cell stands there that draws no glyph of its own.
    fn is_glyphless(&self, row_index: usize, column_index: usize) -> (r: bool)
        ensures
            r == self@.is_glyphless(row_index as int, column_index as int),
    {
        match self.get_cell(row_index, column_index) {
            Some(grid_cell) => grid_cell.display_width == 0 || grid_cell.is_wide_wrap_spacer,
            None => false,
        }
    }

    /// The row and column where the word around a cell begins.
    fn get_word_start_position(&self, row_index: usize, column_index: usize) -> (r: (
        usize,
        usize,
    ))
        ensures
            r.0 == self@.word_start(GridPosition { row_index, column_index }).row_index,
            r.1 == self@.word_start(GridPosition { row_index, column_index }).column_index,
    {
        match self.get_cell(row_index, column_index) {
            Some(grid_cell) => (grid_cell.word_start.row_index, grid_cell.word_start.column_index),
            None => (row_index, column_index),
        }
    }

    /// The row and column where the word around a cell ends.
    fn get_word_end_position(&self, row_index: usize, column_index: usize) -> (r: (
        usize,
        usize,
    ))
        ensures
            r.0 == self@.word_end(GridPosition { row_index, column_index }).row_index,
            r.1 == self@.word_end(GridPosition { row_index, column_index }).column_index,
    {
        match self.get_cell(row_index, column_index) {
            Some(grid_cell) => (grid_cell.word_end.row_index, grid_cell.word_end.column_index),
            None => (row_index, column_index),
        }
    }

    /// The row on which the line around a row begins.
    fn get_line_start_row_index(&self, row_index: usize) -> (r: usize)
        ensures
            r == self@.line_start(row_index),
    {
        if row_index < self.rows.len() {
            self.rows[row_index].line_start_row_index
        } else {
            row_index
        }
    }

    /// The row on which the line around a row ends.
    fn get_line_end_row_index(&self, row_index: usize) -> (r: usize)
        ensures
            r == self@.line_end(row_index),
    {
        if row_index < self.rows.len() {
            self.rows[row_index].line_end_row_index
        } else {
            row_index
        }
    }

    /// The cell that the glyph under `position` lives in.
    fn find_glyph_cell(&self, position: GridPosition) -> (r: GridPosition)
        ensures
            r == self@.glyph_cell(position),
    {
        let mut column_index: usize = position.column_index;
        while column_index > 0 && self.is_glyphless(position.row_index, column_index)
            invariant
                self@.glyph_column(position.row_index as int, column_index as nat)
                    == self@.glyph_column(
                    position.row_index as int,
                    position.column_index as nat,
                ),
            decreases column_index,
        {
            column_index = column_index - 1;
        }
        GridPosition { row_index: position.row_index, column_index }
    }

    /// Whether the word recorded for the cell at `position` is consistent.
    fn check_word_at(&self, position: GridPosition) -> (r: bool)
        ensures
            r == self@.is_word_consistent_at(position),
    {
        let (row_index, column_index) = self.get_word_start_position(
            position.row_index,
            position.column_index,
        );
        let start = GridPosition { row_index, column_index };
        let (row_index, column_index) = self.get_word_end_position(
            position.row_index,
            position.column_index,
        );
        let end = GridPosition { row_index, column_index };
        if !start.precedes(&position) || !position.precedes(&end) {
            return false;
        }
        let (start_row_index, start_column_index) = self.get_word_start_position(
            start.row_index,
            start.column_index,
        );
        let end_glyph_cell = self.find_glyph_cell(end);
        let (end_row_index, end_column_index) = self.get_word_end_position(
            end_glyph_cell.row_index,
            end_glyph_cell.column_index,
        );
        self.find_glyph_cell(start) == start && start_row_index == start.row_index
            && start_column_index == start.column_index && end_row_index == end.row_index
            && end_column_index == end.column_index
    }

    /// Whether the line recorded for the row is consistent.
    fn check_line_at(&self, row_index: usize) -> (r: bool)
        ensures
            r == self@.is_line_consistent_at(row_index),
    {
        let start: usize = self.get_line_start_row_index(row_index);
        let end: usize = self.get_line_end_row_index(row_index);
        start <= row_index && row_index <= end && self.get_line_start_row_index(start) == start
            && self.get_line_end_row_index(end) == end
    }

    /// Whether every word recorded for a glyph of the row is consistent.
    fn check_words_in_row(&self, row_index: usize) -> (r: bool)
        requires
            row_index < self@.rows.len(),
        ensures
            r == (forall|position: GridPosition|
                position.row_index == row_index && self@.has_glyph_cell(position)
                    ==> #[trigger] self@.is_word_consistent_at(position)),
    {
        let cell_count: usize = self.rows[row_index].cells.len();
        let mut column_index: usize = 0;
        while column_index < cell_count
            invariant
                row_index < self@.rows.len(),
                cell_count == self@.rows[row_index as int].cells@.len(),
                column_index <= cell_count,
                forall|position: GridPosition|
                    position.row_index == row_index && position.column_index < column_index
                        && self@.has_glyph_cell(position)
                        ==> #[trigger] self@.is_word_consistent_at(position),
            decreases cell_count - column_index,
        {
            let position = GridPosition { row_index, column_index };
            if self.find_glyph_cell(position) == position && !self.check_word_at(position) {
                assert(self@.has_glyph_cell(position));
                return false;
            }
            assert forall|other: GridPosition|
                other.row_index == row_index && other.column_index < column_index + 1
                    && self@.has_glyph_cell(other) implies #[trigger] self@.is_word_consistent_at(
                other,
            ) by {
                if other.column_index == column_index {
                    assert(other == position);
                }
            }
            column_index = column_index + 1;
        }
        true
    }

    /// Whether the view is well formed.
    fn check(&self) -> (r: bool)
        ensures
            r == self@.is_well_formed(),
    {
        let mut row_index: usize = 0;
        while row_index < self.rows.len()
            invariant
                row_index <= self@.rows.len(),
                forall|checked: usize|
                    checked < row_index ==> #[trigger] self@.is_line_consistent_at(checked),
                forall|position: GridPosition|
                    position.row_index < row_index && self@.has_glyph_cell(position)
                        ==> #[trigger] self@.is_word_consistent_at(position),
            decreases self@.rows.len() - row_index,
        {
            if !self.check_line_at(row_index) || !self.check_words_in_row(row_index) {
                return false;
            }
            row_index = row_index + 1;
        }
        true
    }
}

impl TextView {
    /// The words and lines of a view are well formed.
    #[verifier::type_invariant]
    pub open spec fn is_text_well_formed(self) -> bool {
        self@.is_well_formed()
    }

    /// The cell at `row_index`, `column_index`, where one stands.
    pub fn get_cell(&self, row_index: usize, column_index: usize) -> (r: Option<&TextCell>)
        ensures
            r is Some <==> self@.has_cell(row_index as int, column_index as int),
            r matches Some(grid_cell) ==> *grid_cell == self@.cell(
                row_index as int,
                column_index as int,
            ),
    {
        self.grid.get_cell(row_index, column_index)
    }

    /// The row and column where the word around a cell begins.
    pub fn get_word_start_position(&self, row_index: usize, column_index: usize) -> (r: (
        usize,
        usize,
    ))
        ensures
            r.0 == self@.word_start(GridPosition { row_index, column_index }).row_index,
            r.1 == self@.word_start(GridPosition { row_index, column_index }).column_index,
    {
        self.grid.get_word_start_position(row_index, column_index)
    }

    /// The row and column where the word around a cell ends.
    pub fn get_word_end_position(&self, row_index: usize, column_index: usize) -> (r: (
        usize,
        usize,
    ))
        ensures
            r.0 == self@.word_end(GridPosition { row_index, column_index }).row_index,
            r.1 == self@.word_end(GridPosition { row_index, column_index }).column_index,
    {
        self.grid.get_word_end_position(row_index, column_index)
    }

    /// The row on which the line around a row begins.
    pub fn get_line_start_row_index(&self, row_index: usize) -> (r: usize)
        ensures
            r == self@.line_start(row_index),
    {
        self.grid.get_line_start_row_index(row_index)
    }

    /// The row on which the line around a row ends.
    pub fn get_line_end_row_index(&self, row_index: usize) -> (r: usize)
        ensures
            r == self@.line_end(row_index),
    {
        self.grid.get_line_end_row_index(row_index)
    }

    /// The width of the pane in cells.
    pub fn get_column_count(&self) -> (r: usize)
        ensures
            r == self@.column_count,
    {
        self.grid.column_count
    }

    /// The view of a pane `column_count` cells wide with the given rows. Rows
    /// whose words or lines are not well formed give none.
    pub fn new(column_count: usize, rows: Vec<TextRow>) -> (r: Option<TextView>)
        ensures
            r is Some <==> (TextModel { column_count, rows: rows@ }).is_well_formed(),
            r matches Some(view) ==> view@ == (TextModel { column_count, rows: rows@ }),
    {
        let grid = TextGrid { column_count, rows };
        if grid.check() {
            Some(TextView { grid })
        } else {
            None
        }
    }
}

/// `grid_position` moved onto the cell its glyph really occupies.
///
/// A wide glyph fills two columns: its text lives in the left one and the right
/// one is a cell of width zero that is never painted. A pointer on either half
/// names the glyph itself, so a highlight can never cover only an invisible
/// cell. With two wide glyphs at columns 0 to 3, column 1 gives column 0.
pub fn compute_glyph_cell(text_view: &TextView, grid_position: GridPosition) -> (r: GridPosition)
    ensures
        r == text_view@.glyph_cell(grid_position),
{
    text_view.grid.find_glyph_cell(grid_position)
}

} // verus!
