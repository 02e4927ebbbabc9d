//! What the commands share: candidate lines, their columns and colours, and how the git
//! commands behind previews are written.

use unicode_width::UnicodeWidthStr;
use vstd::prelude::*;
use vstd::utf8::encode_utf8;

use crate::cli::{BranchCommand, Command, StashCommand, WorktreeCommand};
use crate::commands::diff::DiffMode;
use crate::commands::fetch::{FetchScope, PruneMode};
use crate::commands::fixup::FixupKind;
use crate::commands::merge::MergeMode;
use crate::commands::pull::PullMode;
use crate::commands::restore::RestoreTarget;
use crate::error::Error;
use crate::finder::{Highlight, HighlightColor};
use crate::git::CommitInfo;
use crate::i18n::Messages;
use crate::text::{
    as_text, byte_len, byte_length, concat2, concat3, concat4, concat5, decimal, decimal_text,
    is_white_space, join, join_texts, lemma_byte_len_concat, lemma_encode_concat, owned_all,
    string_of, text_of, text_of_chars, texts, trim_end, trimmed_end,
};

pub mod add;
pub mod branch;
pub mod branch_manage;
pub mod cherry_pick;
pub mod commit;
pub mod commit_menu;
pub mod confirmation;
pub mod diff;
pub mod fetch;
pub mod file_selection;
pub mod fixup;
pub mod in_progress;
pub mod log;
pub mod merge;
pub mod pr;
pub mod pull;
pub mod push;
pub mod rebase;
pub mod reflog;
pub mod restore;

verus! {

broadcast use crate::text::lemma_texts_push;

/// What stands between two columns of a candidate line.
pub const COLUMN_SEPARATOR: &'static str = "  ";

/// What stands between two sections of a header.
pub const HEADER_SEPARATOR: &'static str = "  |  ";

/// How a header names the key that decides.
pub const DECIDE_KEY: &'static str = "Enter: ";

/// The header of a list that picks one candidate: what is picked, and what happens then.
pub fn selection_header(subject: &str, outcome: &str) -> (header: String)
    ensures
        header@ == subject@ + HEADER_SEPARATOR@ + DECIDE_KEY@ + outcome@,
{
    concat4(subject, HEADER_SEPARATOR, DECIDE_KEY, outcome)
}

/// The number of terminal cells that a text takes, as `unicode_width` counts them.
pub uninterp spec fn display_width(text: Seq<char>) -> nat;

/// Spaces in a row.
pub open spec fn spaces(n: nat) -> Seq<char> {
    Seq::new(n, |i: int| ' ')
}

/// Whether spaces after a text of `width` cells count alone: each of them takes one cell,
/// and what follows them is counted by itself.
pub open spec fn spaces_count_alone(text: Seq<char>, width: nat) -> bool {
    &&& forall|n: nat| #[trigger] display_width(text + spaces(n)) == width + n
    &&& forall|n: nat, rest: Seq<char>|
        n > 0 ==> #[trigger] display_width(text + spaces(n) + rest) == width + n + display_width(
            rest,
        )
}

/// Counts the terminal cells of a text with `unicode_width`'s `UnicodeWidthStr::width`.
///
/// Claimed of it: the count is a function of the text. A space takes one cell, and nothing
/// before a space is counted together with anything after it.
#[verifier::external_body]
fn cell_width(text: &str) -> (width: usize)
    ensures
        width == display_width(text@),
        spaces_count_alone(text@, width as nat),
{
    text.width()
}

/// The cells of each of several rows.
pub open spec fn row_texts(rows: Seq<Vec<String>>) -> Seq<Seq<Seq<char>>> {
    rows.map_values(|row: Vec<String>| texts(row@))
}

/// A cell: its text and the number of terminal cells that it takes.
#[verifier::ext_equal]
pub struct Cell {
    pub text: Seq<char>,
    pub width: nat,
}

/// Rows of cells, their widths given apart.
pub open spec fn given_cells(rows: Seq<Vec<String>>, widths: Seq<Vec<usize>>) -> Seq<Seq<Cell>> {
    Seq::new(
        rows.len(),
        |i: int|
            Seq::new(
                rows[i]@.len(),
                |j: int| Cell { text: rows[i]@[j]@, width: widths[i]@[j] as nat },
            ),
    )
}

/// Whether there is a width for every cell.
pub open spec fn same_shape(rows: Seq<Vec<String>>, widths: Seq<Vec<usize>>) -> bool {
    &&& widths.len() == rows.len()
    &&& forall|i: int| 0 <= i < rows.len() ==> (#[trigger] widths[i])@.len() == rows[i]@.len()
}

/// Rows of cells as wide as they are shown.
pub open spec fn measured(rows: Seq<Seq<Seq<char>>>) -> Seq<Seq<Cell>> {
    rows.map_values(
        |row: Seq<Seq<char>>|
            row.map_values(|text: Seq<char>| Cell { text, width: display_width(text) }),
    )
}

/// The width of a column: that of its widest cell, where another column follows it.
pub open spec fn column_width(rows: Seq<Seq<Cell>>, column: int) -> nat
    decreases rows.len(),
{
    if rows.len() == 0 {
        0
    } else {
        let before = column_width(rows.drop_last(), column);
        let row = rows.last();
        if column + 1 < row.len() && before < row[column].width {
            row[column].width
        } else {
            before
        }
    }
}

/// The number of columns that another column follows.
pub open spec fn leading_columns(rows: Seq<Seq<Cell>>) -> nat
    decreases rows.len(),
{
    if rows.len() == 0 {
        0
    } else {
        let before = leading_columns(rows.drop_last());
        if before + 1 < rows.last().len() {
            (rows.last().len() - 1) as nat
        } else {
            before
        }
    }
}

/// A cell, filled up with spaces to a width.
pub open spec fn padded(cell: Cell, width: nat) -> Seq<char> {
    if cell.width < width {
        cell.text + spaces((width - cell.width) as nat)
    } else {
        cell.text
    }
}

/// The columns `from` up to `to` of a row, each filled up and followed by the separator.
pub open spec fn columns_between(
    rows: Seq<Seq<Cell>>,
    row: Seq<Cell>,
    from: int,
    to: int,
) -> Seq<char>
    decreases to - from,
{
    if from >= to {
        Seq::empty()
    } else {
        padded(row[from], column_width(rows, from)) + COLUMN_SEPARATOR@ + columns_between(
            rows,
            row,
            from + 1,
            to,
        )
    }
}

/// A row in line with the other rows. Its last column is not filled up.
pub open spec fn aligned_line(rows: Seq<Seq<Cell>>, row: Seq<Cell>) -> Seq<char> {
    if row.len() == 0 {
        Seq::empty()
    } else {
        columns_between(rows, row, 0, row.len() - 1) + row.last().text
    }
}

/// All rows, in line with each other.
pub open spec fn aligned_rows(rows: Seq<Seq<Cell>>) -> Seq<Seq<char>> {
    rows.map_values(|row: Seq<Cell>| aligned_line(rows, row))
}

/// All rows, in line with each other as they are shown.
pub open spec fn aligned_lines(rows: Seq<Seq<Seq<char>>>) -> Seq<Seq<char>> {
    aligned_rows(measured(rows))
}

/// Where a column starts: after the columns before it and their separators.
pub open spec fn column_start(rows: Seq<Seq<Cell>>, column: int) -> nat
    decreases column,
{
    if column <= 0 {
        0
    } else {
        column_start(rows, column - 1) + column_width(rows, column - 1) + 2
    }
}

proof fn lemma_columns_append(rows: Seq<Seq<Cell>>, row: Seq<Cell>, from: int, to: int)
    requires
        from <= to,
    ensures
        columns_between(rows, row, from, to + 1) == columns_between(rows, row, from, to) + padded(
            row[to],
            column_width(rows, to),
        ) + COLUMN_SEPARATOR@,
    decreases to - from,
{
    let next = padded(row[to], column_width(rows, to)) + COLUMN_SEPARATOR@;
    if from == to {
        assert(columns_between(rows, row, to + 1, to + 1) =~= Seq::empty());
        assert(columns_between(rows, row, from, to + 1) =~= next);
        assert(columns_between(rows, row, from, to) + padded(row[to], column_width(rows, to))
            + COLUMN_SEPARATOR@ =~= next);
    } else {
        lemma_columns_append(rows, row, from + 1, to);
        assert(columns_between(rows, row, from, to + 1) =~= columns_between(rows, row, from, to)
            + padded(row[to], column_width(rows, to)) + COLUMN_SEPARATOR@);
    }
}

proof fn lemma_width_bounds(rows: Seq<Seq<Cell>>, i: int, column: int)
    requires
        0 <= i < rows.len(),
        0 <= column < rows[i].len() - 1,
    ensures
        rows[i][column].width <= column_width(rows, column),
    decreases rows.len(),
{
    if i < rows.len() - 1 {
        assert(rows.drop_last()[i] == rows[i]);
        lemma_width_bounds(rows.drop_last(), i, column);
    }
}

/// The cells that the columns `from` up to `to` take, with their separators.
spec fn cells_between(rows: Seq<Seq<Cell>>, from: int, to: int) -> nat
    decreases to - from,
{
    if from >= to {
        0
    } else {
        column_width(rows, from) + 2 + cells_between(rows, from + 1, to)
    }
}

proof fn lemma_cells_between_append(rows: Seq<Seq<Cell>>, from: int, to: int)
    requires
        from <= to,
    ensures
        cells_between(rows, from, to + 1) == cells_between(rows, from, to) + column_width(rows, to)
            + 2,
    decreases to - from,
{
    if from < to {
        lemma_cells_between_append(rows, from + 1, to);
    } else {
        assert(cells_between(rows, to + 1, to + 1) == 0);
    }
}

proof fn lemma_column_start(rows: Seq<Seq<Cell>>, column: int)
    requires
        0 <= column,
    ensures
        column_start(rows, column) == cells_between(rows, 0, column),
    decreases column,
{
    if column > 0 {
        lemma_column_start(rows, column - 1);
        lemma_cells_between_append(rows, 0, column - 1);
    }
}

/// Whether spaces after any cell count alone.
spec fn cells_count_alone(rows: Seq<Seq<Cell>>) -> bool {
    forall|i: int, j: int|
        0 <= i < rows.len() && 0 <= j < rows[i].len() ==> #[trigger] counts_alone(rows[i][j])
}

/// Whether a cell is as wide as it is shown, and spaces after it count alone.
spec fn counts_alone(cell: Cell) -> bool {
    cell.width == display_width(cell.text) && spaces_count_alone(cell.text, cell.width)
}

proof fn lemma_columns_width(rows: Seq<Seq<Cell>>, i: int, from: int, to: int)
    requires
        cells_count_alone(rows),
        0 <= i < rows.len(),
        0 <= from < to < rows[i].len(),
    ensures
        display_width(columns_between(rows, rows[i], from, to)) == cells_between(rows, from, to),
    decreases to - from,
{
    let row = rows[i];
    let cell = row[from];
    let width = column_width(rows, from);
    assert(counts_alone(rows[i][from]));
    lemma_width_bounds(rows, i, from);
    let n = (width - cell.width + 2) as nat;
    let rest = columns_between(rows, row, from + 1, to);
    reveal_strlit("  ");
    assert(padded(cell, width) + COLUMN_SEPARATOR@ =~= cell.text + spaces(n));
    if from + 1 == to {
        assert(columns_between(rows, row, from, to) =~= cell.text + spaces(n));
        assert(cells_between(rows, from + 1, to) == 0);
    } else {
        lemma_columns_width(rows, i, from + 1, to);
        assert(columns_between(rows, row, from, to) =~= cell.text + spaces(n) + rest);
    }
}

/// Brings rows of cells in line. In every line a column starts at the same cell.
pub fn align_columns(rows: &Vec<Vec<String>>) -> (lines: Vec<String>)
    ensures
        texts(lines@) == aligned_lines(row_texts(rows@)),
        forall|i: int, column: int|
            0 <= i < rows@.len() && 0 < column < rows@[i]@.len() ==> #[trigger] display_width(
                columns_between(
                    measured(row_texts(rows@)),
                    measured(row_texts(rows@))[i],
                    0,
                    column,
                ),
            ) == column_start(measured(row_texts(rows@)), column),
{
    let widths = measure(rows);
    let lines = align_measured(rows, &widths);
    proof {
        let all = measured(row_texts(rows@));
        let given = given_cells(rows@, widths@);
        assert forall|i: int| 0 <= i < rows@.len() implies given[i] == #[trigger] all[i] by {
            assert forall|j: int| 0 <= j < given[i].len() implies given[i][j] == #[trigger] all[i][j] by {
                assert(counts_alone(given[i][j]));
            }
            assert(given[i] =~= all[i]);
        }
        assert(given =~= all);
        assert forall|i: int, column: int|
            0 <= i < rows@.len() && 0 < column < rows@[i]@.len() implies #[trigger] display_width(
            columns_between(all, all[i], 0, column),
        ) == column_start(all, column) by {
            lemma_columns_width(all, i, 0, column);
            lemma_column_start(all, column);
        }
    }
    lines
}

/// Measures the cells of all rows.
fn measure(rows: &Vec<Vec<String>>) -> (widths: Vec<Vec<usize>>)
    ensures
        same_shape(rows@, widths@),
        cells_count_alone(given_cells(rows@, widths@)),
{
    let mut widths: Vec<Vec<usize>> = Vec::new();
    let mut i: usize = 0;
    while i < rows.len()
        invariant
            i <= rows@.len(),
            widths@.len() == i,
            forall|a: int| 0 <= a < i ==> (#[trigger] widths@[a])@.len() == rows@[a]@.len(),
            forall|a: int, b: int|
                0 <= a < i && 0 <= b < rows@[a]@.len() ==> counts_alone(
                    Cell { text: #[trigger] rows@[a]@[b]@, width: widths@[a]@[b] as nat },
                ),
        decreases rows@.len() - i,
    {
        let row: &Vec<String> = &rows[i];
        let mut own: Vec<usize> = Vec::new();
        let mut j: usize = 0;
        while j < row.len()
            invariant
                j <= row@.len(),
                own@.len() == j,
                forall|b: int|
                    0 <= b < j ==> counts_alone(
                        Cell { text: #[trigger] row@[b]@, width: own@[b] as nat },
                    ),
            decreases row@.len() - j,
        {
            own.push(cell_width(row[j].as_str()));
            j += 1;
        }
        widths.push(own);
        i += 1;
    }
    proof {
        let all = given_cells(rows@, widths@);
        assert forall|a: int, b: int| 0 <= a < all.len() && 0 <= b < all[a].len() implies
            #[trigger] counts_alone(all[a][b]) by {
            assert(all[a][b] == (Cell { text: rows@[a]@[b]@, width: widths@[a]@[b] as nat }));
        }
    }
    widths
}

/// Brings rows of cells of the given widths in line.
pub fn align_measured(rows: &Vec<Vec<String>>, widths: &Vec<Vec<usize>>) -> (lines: Vec<String>)
    requires
        same_shape(rows@, widths@),
    ensures
        texts(lines@) == aligned_rows(given_cells(rows@, widths@)),
{
    let ghost all = given_cells(rows@, widths@);
    let columns = column_widths(rows, widths);
    let mut lines: Vec<String> = Vec::new();
    let mut i: usize = 0;
    while i < rows.len()
        invariant
            i <= rows@.len(),
            same_shape(rows@, widths@),
            all == given_cells(rows@, widths@),
            columns@.len() == leading_columns(all),
            forall|k: int| 0 <= k < columns@.len() ==> columns@[k] == column_width(all, k),
            texts(lines@) == aligned_rows(all).take(i as int),
        decreases rows@.len() - i,
    {
        proof {
            lemma_columns_covered(all, i as int);
        }
        let line = join_row(&rows[i], &widths[i], &columns, Ghost(all), Ghost(all[i as int]));
        assert(line@ == aligned_rows(all)[i as int]);
        lines.push(line);
        i += 1;
        assert(texts(lines@) =~= aligned_rows(all).take(i as int));
    }
    assert(texts(lines@) =~= aligned_rows(all));
    lines
}

proof fn lemma_columns_covered(rows: Seq<Seq<Cell>>, i: int)
    requires
        0 <= i < rows.len(),
    ensures
        rows[i].len() <= leading_columns(rows) + 1,
    decreases rows.len(),
{
    if i < rows.len() - 1 {
        assert(rows.drop_last()[i] == rows[i]);
        lemma_columns_covered(rows.drop_last(), i);
    }
}

/// A column that no row continues past has no width.
proof fn lemma_no_width_past(rows: Seq<Seq<Cell>>, column: int)
    requires
        leading_columns(rows) <= column,
    ensures
        column_width(rows, column) == 0,
    decreases rows.len(),
{
    if rows.len() > 0 {
        lemma_no_width_past(rows.drop_last(), column);
    }
}

/// Finds the widths of the columns that another column follows.
fn column_widths(rows: &Vec<Vec<String>>, widths: &Vec<Vec<usize>>) -> (columns: Vec<usize>)
    requires
        same_shape(rows@, widths@),
    ensures
        columns@.len() == leading_columns(given_cells(rows@, widths@)),
        forall|k: int|
            0 <= k < columns@.len() ==> columns@[k] == column_width(given_cells(rows@, widths@), k),
{
    let ghost all = given_cells(rows@, widths@);
    let mut columns: Vec<usize> = Vec::new();
    let mut i: usize = 0;
    while i < rows.len()
        invariant
            i <= rows@.len(),
            same_shape(rows@, widths@),
            all == given_cells(rows@, widths@),
            columns@.len() == leading_columns(all.take(i as int)),
            forall|k: int|
                0 <= k < columns@.len() ==> columns@[k] == column_width(all.take(i as int), k),
        decreases rows@.len() - i,
    {
        let own: &Vec<usize> = &widths[i];
        let ghost before = all.take(i as int);
        let ghost after = all.take(i + 1);
        proof {
            assert(after.drop_last() =~= before);
            assert(after.last() == all[i as int]);
        }
        let total: usize = own.len();
        let mut j: usize = 0;
        while j + 1 < total
            invariant
                j <= total,
                total == own@.len(),
                total > 0 ==> j <= total - 1,
                after.len() > 0,
                after.drop_last() == before,
                after.last().len() == total,
                forall|k: int| 0 <= k < total ==> (#[trigger] after.last()[k]).width == own@[k],
                columns@.len() == (if leading_columns(before) < j {
                    j as nat
                } else {
                    leading_columns(before)
                }),
                forall|k: int| 0 <= k < j ==> columns@[k] == column_width(after, k),
                forall|k: int| j <= k < columns@.len() ==> columns@[k] == column_width(before, k),
            decreases total - j,
        {
            let width: usize = own[j];
            proof {
                assert(after.last()[j as int].width == width);
                assert(column_width(before, j as int) == column_width(after.drop_last(), j as int));
            }
            if j < columns.len() {
                if columns[j] < width {
                    columns.set(j, width);
                }
            } else {
                proof {
                    lemma_no_width_past(before, j as int);
                }
                columns.push(width);
            }
            j += 1;
        }
        assert forall|k: int| 0 <= k < columns@.len() implies columns@[k] == column_width(
            after,
            k,
        ) by {
            assert(column_width(before, k) == column_width(after.drop_last(), k));
        }
        i += 1;
    }
    assert(all.take(i as int) =~= all);
    columns
}

/// Joins one row, filling its columns up to their widths.
fn join_row(
    row: &Vec<String>,
    widths: &Vec<usize>,
    columns: &Vec<usize>,
    Ghost(rows): Ghost<Seq<Seq<Cell>>>,
    Ghost(cells): Ghost<Seq<Cell>>,
) -> (line: String)
    requires
        widths@.len() == row@.len(),
        cells.len() == row@.len(),
        forall|k: int|
            0 <= k < row@.len() ==> #[trigger] cells[k] == (Cell {
                text: row@[k]@,
                width: widths@[k] as nat,
            }),
        row@.len() <= columns@.len() + 1,
        forall|k: int| 0 <= k < columns@.len() ==> columns@[k] == column_width(rows, k),
    ensures
        line@ == aligned_line(rows, cells),
{
    let mut line = String::new();
    if row.len() == 0 {
        return line;
    }
    let last: usize = row.len() - 1;
    let mut i: usize = 0;
    while i < last
        invariant
            i <= last,
            last == row@.len() - 1,
            widths@.len() == row@.len(),
            cells.len() == row@.len(),
            forall|k: int|
                0 <= k < row@.len() ==> #[trigger] cells[k] == (Cell {
                    text: row@[k]@,
                    width: widths@[k] as nat,
                }),
            row@.len() <= columns@.len() + 1,
            forall|k: int| 0 <= k < columns@.len() ==> columns@[k] == column_width(rows, k),
            line@ == columns_between(rows, cells, 0, i as int),
        decreases last - i,
    {
        proof {
            lemma_columns_append(rows, cells, 0, i as int);
            assert(cells[i as int].text == row@[i as int]@);
        }
        let cell = pad(row[i].as_str(), widths[i], columns[i]);
        line.append(cell.as_str());
        line.append(COLUMN_SEPARATOR);
        i += 1;
    }
    assert(cells.last().text == row@[last as int]@);
    line.append(row[last].as_str());
    line
}

/// Fills a cell up with spaces.
fn pad(cell: &str, own: usize, width: usize) -> (filled: String)
    ensures
        filled@ == padded((Cell { text: cell@, width: own as nat }), width as nat),
{
    let mut filled = cell.to_owned();
    let mut n: usize = own;
    assert(cell@ + spaces(0) =~= cell@);
    while n < width
        invariant
            own <= n,
            n <= width || n == own,
            filled@ == cell@ + spaces((n - own) as nat),
        decreases width - n,
    {
        filled.push(' ');
        n += 1;
        assert(filled@ =~= cell@ + spaces((n - own) as nat));
    }
    filled
}

/// Whether candidates stand beside their lines, the lines being those of rows that `cells`
/// gives for the candidates.
pub open spec fn aligned_by<'a, T, F: Fn(&T) -> Vec<String>>(
    candidates: Seq<T>,
    cells: F,
    rows: Seq<Vec<String>>,
    aligned: Seq<(&'a T, String)>,
) -> bool {
    &&& rows.len() == candidates.len()
    &&& aligned.len() == candidates.len()
    &&& forall|i: int|
        0 <= i < rows.len() ==> call_ensures(cells, (&candidates[i],), #[trigger] rows[i])
    &&& forall|i: int| 0 <= i < aligned.len() ==> *(#[trigger] aligned[i]).0 == candidates[i]
    &&& forall|i: int|
        0 <= i < aligned.len() ==> (#[trigger] aligned[i]).1@ == aligned_lines(row_texts(rows))[i]
}

/// Pairs each candidate with its line, the lines being in line with each other.
pub fn aligned_candidates<'a, T, F: Fn(&T) -> Vec<String>>(candidates: &'a [T], cells: F) -> (aligned:
    Vec<(&'a T, String)>)
    requires
        forall|i: int| 0 <= i < candidates@.len() ==> call_requires(cells, (&candidates@[i],)),
    ensures
        exists|rows: Seq<Vec<String>>| #[trigger]
            aligned_by(candidates@, cells, rows, aligned@),
{
    let mut rows: Vec<Vec<String>> = Vec::new();
    let mut i: usize = 0;
    while i < candidates.len()
        invariant
            i <= candidates@.len(),
            rows@.len() == i,
            forall|i: int| 0 <= i < candidates@.len() ==> call_requires(cells, (&candidates@[i],)),
            forall|k: int|
                0 <= k < i ==> call_ensures(cells, (&candidates@[k],), #[trigger] rows@[k]),
        decreases candidates@.len() - i,
    {
        let row = cells(&candidates[i]);
        rows.push(row);
        i += 1;
    }
    let lines = align_columns(&rows);
    let mut aligned: Vec<(&'a T, String)> = Vec::new();
    let mut j: usize = 0;
    assert(texts(lines@).len() == rows@.len());
    while j < candidates.len()
        invariant
            j <= candidates@.len(),
            lines@.len() == candidates@.len(),
            rows@.len() == candidates@.len(),
            texts(lines@) == aligned_lines(row_texts(rows@)),
            aligned@.len() == j,
            forall|k: int| 0 <= k < j ==> *(#[trigger] aligned@[k]).0 == candidates@[k],
            forall|k: int|
                0 <= k < j ==> (#[trigger] aligned@[k]).1@ == aligned_lines(row_texts(rows@))[k],
        decreases candidates@.len() - j,
    {
        assert(texts(lines@)[j as int] == lines@[j as int]@);
        aligned.push((&candidates[j], lines[j].clone()));
        j += 1;
    }
    assert(aligned_by(candidates@, cells, rows@, aligned@));
    aligned
}

/// The bytes of a line that its last column takes, where `content` is that column: `content`
/// ends where the line does, white space aside.
pub open spec fn last_column_of(line: Seq<char>, content: Seq<char>) -> (nat, nat) {
    let end = byte_len(trimmed_end(line));
    if byte_len(content) <= end {
        ((end - byte_len(content)) as nat, end)
    } else {
        (0, end)
    }
}

/// Finds the bytes of a line that its last column takes.
pub fn last_column_range(line: &str, content: &str) -> (range: (usize, usize))
    ensures
        range.0 == last_column_of(line@, content@).0,
        range.1 == last_column_of(line@, content@).1,
{
    let shown = trim_end(line);
    let end: usize = byte_length(text_of_chars(shown.as_slice()).as_str());
    let length: usize = byte_length(content);
    if length <= end {
        (end - length, end)
    } else {
        (0, end)
    }
}

/// In a line whose last column is `content`, that range holds `content`, byte for byte.
pub proof fn law_last_column_is_found(columns: Seq<char>, content: Seq<char>)
    requires
        content.len() > 0,
        !is_white_space(content.last()),
    ensures
        ({
            let line = columns + content;
            let range = last_column_of(line, content);
            &&& range.1 == byte_len(line)
            &&& encode_utf8(line).subrange(range.0 as int, range.1 as int) == encode_utf8(content)
        }),
{
    let line = columns + content;
    assert(line.last() == content.last());
    lemma_encode_concat(columns, content);
    assert(encode_utf8(line).subrange(
        byte_len(columns) as int,
        byte_len(line) as int,
    ) =~= encode_utf8(content));
}

/// What announces one of several targets: its place, the number of targets and its name.
pub open spec fn progress_text(index: int, total: nat, name: Seq<char>) -> Seq<char> {
    "["@ + decimal((index + 1) as nat) + "/"@ + decimal(total) + "] "@ + name
}

/// Announces one of several targets.
pub fn progress(index: usize, total: usize, name: &str) -> (line: String)
    requires
        index < usize::MAX,
    ensures
        line@ == progress_text(index as int, total as nat, name@),
{
    let place = decimal_text(index + 1);
    let mut line = concat5("[", place.as_str(), "/", decimal_text(total).as_str(), "] ");
    line.append(name);
    line
}

/// What a run over several targets comes to: two counts, and the names of what failed.
pub open spec fn summary_text(messages: Messages, succeeded: usize, failed: Seq<Seq<char>>) -> Seq<
    char,
> {
    let counts = messages.common().run_summary_text(succeeded, failed.len() as usize);
    if failed.len() > 0 {
        counts + messages.common().failed_targets_text(join(failed, ", "@))
    } else {
        counts
    }
}

/// Tells what a run over several targets came to.
pub fn summary(messages: Messages, succeeded: usize, failed: &Vec<String>) -> (line: String)
    ensures
        line@ == summary_text(messages, succeeded, texts(failed@)),
{
    let mut line = messages.common().run_summary(succeeded, failed.len());
    if failed.len() > 0 {
        line.append(messages.common().failed_targets(join_texts(failed, ", ").as_str()).as_str());
    }
    line
}

/// The line of a commit. The summary stands before the author, being what is searched for.
pub open spec fn commit_text(
    short_id: Seq<char>,
    time: Seq<char>,
    summary: Seq<char>,
    author: Seq<char>,
) -> Seq<char> {
    short_id + " "@ + time + " "@ + summary + " ("@ + author + ")"@
}

/// Writes the line of a commit.
pub fn commit_line(commit: &CommitInfo) -> (line: String)
    ensures
        line@ == commit_text(commit.short_id@, commit.time@, commit.summary@, commit.author@),
{
    let mut line = concat4(commit.short_id.as_str(), " ", commit.time.as_str(), " ");
    line.append(commit.summary.as_str());
    line.append(" (");
    line.append(commit.author.as_str());
    line.append(")");
    line
}

/// The coloured parts of the line of a commit: its hash and its day.
pub open spec fn commit_highlights_of(commit: CommitInfo) -> Seq<Highlight> {
    let hash_end = byte_len(commit.short_id@);
    let time_end = hash_end + 1 + byte_len(commit.time@);
    seq![
        Highlight { start: 0, end: hash_end as usize, color: HighlightColor::Yellow },
        Highlight {
            start: (hash_end + 1) as usize,
            end: time_end as usize,
            color: HighlightColor::Green,
        },
    ]
}

/// Finds the coloured parts of the line of a commit. They lie inside the line.
pub fn commit_highlights(commit: &CommitInfo) -> (highlights: Vec<Highlight>)
    ensures
        highlights@ == commit_highlights_of(*commit),
        byte_len(commit.short_id@) + 1 + byte_len(commit.time@) <= usize::MAX,
{
    let start = concat2(commit.short_id.as_str(), " ");
    let time_start: usize = byte_length(start.as_str());
    let hash_end: usize = byte_length(commit.short_id.as_str());
    let both = concat2(start.as_str(), commit.time.as_str());
    let time_end: usize = byte_length(both.as_str());
    proof {
        reveal_strlit(" ");
        lemma_byte_len_concat(commit.short_id@, " "@);
        lemma_byte_len_concat(start@, commit.time@);
        vstd::utf8::is_ascii_chars_encode_utf8(" "@);
    }
    let mut highlights: Vec<Highlight> = Vec::new();
    highlights.push(Highlight::new(0, hash_end, HighlightColor::Yellow));
    highlights.push(Highlight::new(time_start, time_end, HighlightColor::Green));
    assert(highlights@ =~= commit_highlights_of(*commit));
    highlights
}

/// The coloured parts of the line of a commit hold its hash and its day, byte for byte.
pub proof fn law_commit_highlights_match_the_line(
    short_id: Seq<char>,
    time: Seq<char>,
    summary: Seq<char>,
    author: Seq<char>,
)
    ensures
        ({
            let line = encode_utf8(commit_text(short_id, time, summary, author));
            let start = byte_len(short_id) as int + 1;
            &&& start + byte_len(time) <= line.len()
            &&& line.subrange(0, byte_len(short_id) as int) == encode_utf8(short_id)
            &&& line.subrange(start, start + byte_len(time)) == encode_utf8(time)
        }),
{
    let rest = " "@ + summary + " ("@ + author + ")"@;
    let line = encode_utf8(commit_text(short_id, time, summary, author));
    assert(commit_text(short_id, time, summary, author) =~= short_id + (" "@ + (time + rest)));
    lemma_encode_concat(short_id, " "@ + (time + rest));
    lemma_encode_concat(" "@, time + rest);
    lemma_encode_concat(time, rest);
    reveal_strlit(" ");
    vstd::utf8::is_ascii_chars_encode_utf8(" "@);
    let start = byte_len(short_id) as int + 1;
    assert(line =~= encode_utf8(short_id) + (encode_utf8(" "@) + (encode_utf8(time) + encode_utf8(
        rest,
    ))));
    assert(line.subrange(0, byte_len(short_id) as int) =~= encode_utf8(short_id));
    assert(line.subrange(start, start + byte_len(time)) =~= encode_utf8(time));
}

/// How a git command is shown: the word `git` and the arguments. It is never run from
/// this text.
pub fn command_display(args: &Vec<String>) -> (line: String)
    ensures
        line@ == "git "@ + join(texts(args@), " "@),
{
    let words = join_texts(args, " ");
    concat2("git ", words.as_str())
}

/// The arguments that show a commit in a preview.
pub fn commit_preview_args(id: &str) -> (args: Vec<String>)
    ensures
        texts(args@) == seq!["show"@, "--color=always"@, id@, "--"@],
{
    let args = owned_all(&["show", "--color=always", id, "--"]);
    assert(texts(args@) =~= seq!["show"@, "--color=always"@, id@, "--"@]);
    args
}

/// The arguments that show the current state in a preview.
pub fn status_preview_args() -> (args: Vec<String>)
    ensures
        texts(args@) == seq!["-c"@, "color.status=always"@, "status"@, "--short"@, "--branch"@],
{
    let args = owned_all(&["-c", "color.status=always", "status", "--short", "--branch"]);
    assert(texts(args@) =~= seq![
        "-c"@,
        "color.status=always"@,
        "status"@,
        "--short"@,
        "--branch"@,
    ]);
    args
}

/// A file below a directory, as POSIX paths: the path where it is absolute or there is no
/// directory, else the two with one slash between them.
pub open spec fn worktree_file_text(root: Seq<char>, path: Seq<char>) -> Seq<char> {
    if root.len() == 0 || (path.len() > 0 && path[0] == '/') {
        path
    } else if root.last() == '/' {
        root + path
    } else {
        root + "/"@ + path
    }
}

/// Writes where a file of the work tree is, as a POSIX path.
pub fn worktree_file(root: &str, path: &str) -> (file: String)
    ensures
        file@ == worktree_file_text(root@, path@),
{
    let length: usize = root.unicode_len();
    if length == 0 || (!path.is_empty() && path.get_char(0) == '/') {
        path.to_owned()
    } else if root.get_char(length - 1) == '/' {
        concat2(root, path)
    } else {
        concat3(root, "/", path)
    }
}

/// Which branches are offered.
#[derive(Debug, Clone, Copy, PartialEq, Eq, Structural)]
pub enum BranchScope {
    /// Local ones.
    Local,
    /// Those of remotes as well.
    All,
}

/// Which commits are offered.
#[derive(Debug, Clone, Copy, PartialEq, Eq)]
pub enum CommitScope<'a> {
    /// Those of one branch.
    Branch(&'a str),
    /// Those of all branches.
    AllBranches,
}

/// Whether files that git does not know are stashed.
#[derive(Debug, Clone, Copy, PartialEq, Eq, Structural)]
pub enum UntrackedFiles {
    Include,
    Exclude,
}

/// What happens with a picked stash.
#[derive(Debug, Clone, Copy, PartialEq, Eq, Structural)]
pub enum StashAction {
    Apply,
    Pop,
    Drop,
}

/// Whether the message of a revert is edited.
#[derive(Debug, Clone, Copy, PartialEq, Eq, Structural)]
pub enum MessageEditing {
    Interactive,
    Skip,
}

/// What a command line comes to.
#[derive(Debug, PartialEq, Eq)]
pub enum Request<'a> {
    SwitchBranch(BranchScope),
    ManageBranch(&'a BranchCommand),
    Log(usize, log::Decision),
    CherryPick(CommitScope<'a>),
    Restore(RestoreTarget, Option<&'a str>),
    Stage,
    StashPush(Option<&'a str>, UntrackedFiles),
    Stash(StashAction),
    Tag { switch: bool, diff: bool },
    Reflog(reflog::Decision<'a>),
    Commit(Option<&'a str>),
    Fixup(FixupKind),
    Merge(MergeMode),
    Rebase,
    Revert(MessageEditing),
    Status,
    Diff(DiffMode),
    Fetch(FetchScope, PruneMode),
    /// Several branches, by fast-forward.
    Pull,
    /// The current branch, in the given way.
    Sync(PullMode),
    Worktree(Option<&'a WorktreeCommand>),
}

/// Why a command line is refused: it asks for two things that exclude each other.
pub open spec fn refusal(messages: Messages, command: Command) -> Option<Seq<char>> {
    match command {
        Command::Reflog { restore: Some(_), action: true } => Some(
            messages.reflog().conflicting_actions_text(),
        ),
        Command::Merge { no_ff, squash, ff_only } => if (no_ff && squash) || (no_ff && ff_only) || (
        squash && ff_only) {
            Some(merge::CONFLICTING_MODES_MESSAGE@)
        } else {
            None
        },
        Command::Diff { staged, head, upstream, branch, commit } => if (staged && (head || upstream
            || branch || commit)) || (head && (upstream || branch || commit)) || (upstream && (branch
            || commit)) || (branch && commit) {
            Some(messages.diff().conflicting_modes_text())
        } else {
            None
        },
        Command::Sync { rebase, merge } => if rebase && merge {
            Some(messages.pull().conflicting_modes_text())
        } else {
            None
        },
        _ => None,
    }
}

/// Whether a request is what a command line that is not refused comes to.
pub open spec fn is_request(request: Request<'_>, command: Command) -> bool {
    match command {
        Command::Branch { all, command } => match command {
            None => request == Request::SwitchBranch(
                if all {
                    BranchScope::All
                } else {
                    BranchScope::Local
                },
            ),
            Some(command) => request == Request::ManageBranch(&command),
        },
        Command::Log { limit, action } => request == Request::Log(
            limit,
            if action {
                log::Decision::Menu
            } else {
                log::Decision::Print
            },
        ),
        Command::CherryPick { branch } => match branch {
            Some(name) => request matches Request::CherryPick(CommitScope::Branch(given)) && given@
                == name@,
            None => request == Request::CherryPick(CommitScope::AllBranches),
        },
        Command::Restore { source, staged } => request matches Request::Restore(target, given)
            && target == (if staged {
            RestoreTarget::Index
        } else {
            RestoreTarget::Worktree
        }) && text_of(given) == string_of(source),
        Command::Add => request is Stage,
        Command::Stash { command } => match command {
            StashCommand::Push { message, include_untracked } => request matches Request::StashPush(
                given,
                untracked,
            ) && text_of(given) == string_of(message) && untracked == (if include_untracked {
                UntrackedFiles::Include
            } else {
                UntrackedFiles::Exclude
            }),
            StashCommand::Apply => request == Request::Stash(StashAction::Apply),
            StashCommand::Pop => request == Request::Stash(StashAction::Pop),
            StashCommand::Drop => request == Request::Stash(StashAction::Drop),
        },
        Command::Tag { switch, diff } => request == (Request::Tag { switch, diff }),
        Command::Reflog { restore, action } => match restore {
            Some(name) => request matches Request::Reflog(reflog::Decision::Restore(given)) && given@
                == name@,
            None => request == Request::Reflog(
                if action {
                    reflog::Decision::Menu
                } else {
                    reflog::Decision::Print
                },
            ),
        },
        Command::Commit { message } => request matches Request::Commit(given) && text_of(given)
            == string_of(message),
        Command::Fixup { squash } => request == Request::Fixup(
            if squash {
                FixupKind::Squash
            } else {
                FixupKind::Fixup
            },
        ),
        Command::Merge { no_ff, squash, ff_only } => request == Request::Merge(
            if no_ff {
                MergeMode::NoFf
            } else if squash {
                MergeMode::Squash
            } else if ff_only {
                MergeMode::FfOnly
            } else {
                MergeMode::Default
            },
        ),
        Command::Rebase => request is Rebase,
        Command::Revert { no_edit } => request == Request::Revert(
            if no_edit {
                MessageEditing::Skip
            } else {
                MessageEditing::Interactive
            },
        ),
        Command::Status => request is Status,
        Command::Diff { staged, head, upstream, branch, commit } => request == Request::Diff(
            if staged {
                DiffMode::Staged
            } else if head {
                DiffMode::Head
            } else if upstream {
                DiffMode::Upstream
            } else if branch {
                DiffMode::BranchToBranch
            } else if commit {
                DiffMode::CommitToCommit
            } else {
                DiffMode::Unstaged
            },
        ),
        Command::Fetch { prune, siblings } => request == Request::Fetch(
            if siblings {
                FetchScope::Siblings
            } else {
                FetchScope::Current
            },
            if prune {
                PruneMode::Prune
            } else {
                PruneMode::Keep
            },
        ),
        Command::Pull => request is Pull,
        Command::Sync { rebase, merge } => request == Request::Sync(
            if rebase {
                PullMode::Rebase
            } else if merge {
                PullMode::Merge
            } else {
                PullMode::FfOnly
            },
        ),
        Command::Worktree { command } => match command {
            Some(command) => request == Request::Worktree(Some(&command)),
            None => request == Request::Worktree(None),
        },
    }
}

/// Whether a result is what a command line comes to, where opening the repository came to
/// `repository`. A repository that did not open decides before the command line does.
pub open spec fn dispatched<'a>(
    result: Result<Request<'a>, Error>,
    messages: Messages,
    repository: Result<(), Error>,
    command: Command,
) -> bool {
    match repository {
        Err(error) => result == Err::<Request<'a>, Error>(error),
        Ok(_) => match refusal(messages, command) {
            Some(reason) => result matches Err(error) && error.says(reason),
            None => result matches Ok(request) && is_request(request, command),
        },
    }
}

/// Turns a command line into what it comes to: flags become the modes that they stand for.
///
/// Every command works in a repository. Where it did not open, that is told, once and for all
/// commands alike, before the command line is looked at.
pub fn dispatch<'a>(
    messages: Messages,
    repository: Result<(), Error>,
    command: &'a Command,
) -> (request: Result<Request<'a>, Error>)
    ensures
        dispatched(request, messages, repository, *command),
{
    if let Err(error) = repository {
        return Err(error);
    }
    Ok(
        match command {
            Command::Branch { all, command } => match command {
                None => if *all {
                    Request::SwitchBranch(BranchScope::All)
                } else {
                    Request::SwitchBranch(BranchScope::Local)
                },
                Some(command) => Request::ManageBranch(command),
            },
            Command::Log { limit, action } => Request::Log(*limit, log::Decision::from_flag(*action)),
            Command::CherryPick { branch } => match branch {
                Some(name) => Request::CherryPick(CommitScope::Branch(name.as_str())),
                None => Request::CherryPick(CommitScope::AllBranches),
            },
            Command::Restore { source, staged } => Request::Restore(
                RestoreTarget::from_flag(*staged),
                as_text(source),
            ),
            Command::Add => Request::Stage,
            Command::Stash { command } => match command {
                StashCommand::Push { message, include_untracked } => Request::StashPush(
                    as_text(message),
                    if *include_untracked {
                        UntrackedFiles::Include
                    } else {
                        UntrackedFiles::Exclude
                    },
                ),
                StashCommand::Apply => Request::Stash(StashAction::Apply),
                StashCommand::Pop => Request::Stash(StashAction::Pop),
                StashCommand::Drop => Request::Stash(StashAction::Drop),
            },
            Command::Tag { switch, diff } => Request::Tag { switch: *switch, diff: *diff },
            Command::Reflog { restore, action } => {
                match reflog::Decision::from_flags(messages, as_text(restore), *action) {
                    Ok(decision) => Request::Reflog(decision),
                    Err(error) => {
                        return Err(error);
                    },
                }
            },
            Command::Commit { message } => Request::Commit(as_text(message)),
            Command::Fixup { squash } => Request::Fixup(FixupKind::from_flag(*squash)),
            Command::Merge { no_ff, squash, ff_only } => {
                match MergeMode::from_flags(*no_ff, *squash, *ff_only) {
                    Ok(mode) => Request::Merge(mode),
                    Err(error) => {
                        return Err(error);
                    },
                }
            },
            Command::Rebase => Request::Rebase,
            Command::Revert { no_edit } => if *no_edit {
                Request::Revert(MessageEditing::Skip)
            } else {
                Request::Revert(MessageEditing::Interactive)
            },
            Command::Status => Request::Status,
            Command::Diff { staged, head, upstream, branch, commit } => {
                match DiffMode::from_flags(messages, *staged, *head, *upstream, *branch, *commit) {
                    Ok(mode) => Request::Diff(mode),
                    Err(error) => {
                        return Err(error);
                    },
                }
            },
            Command::Fetch { prune, siblings } => Request::Fetch(
                FetchScope::from_flag(*siblings),
                PruneMode::from_flag(*prune),
            ),
            Command::Pull => Request::Pull,
            Command::Sync { rebase, merge } => {
                match PullMode::from_flags(messages, *rebase, *merge) {
                    Ok(mode) => Request::Sync(mode),
                    Err(error) => {
                        return Err(error);
                    },
                }
            },
            Command::Worktree { command } => match command {
                Some(command) => Request::Worktree(Some(command)),
                None => Request::Worktree(None),
            },
        },
    )
}

/// A command line is refused if and only if it asks for two things at once, whatever the
/// language.
pub proof fn law_refusals_do_not_depend_on_the_language(
    messages: Messages,
    others: Messages,
    command: Command,
)
    ensures
        refusal(messages, command) is Some <==> refusal(others, command) is Some,
{
}

/// Where the repository did not open, the error of that is the result, whatever the command
/// and the language: nothing else is told, and no command comes out of it.
pub proof fn law_a_repository_that_did_not_open_comes_first<'a, 'b>(
    error: Error,
    messages: Messages,
    command: Command,
    result: Result<Request<'a>, Error>,
    other_messages: Messages,
    other_command: Command,
    other_result: Result<Request<'b>, Error>,
)
    requires
        dispatched(result, messages, Err(error), command),
        dispatched(other_result, other_messages, Err(error), other_command),
    ensures
        result == Err::<Request<'a>, Error>(error),
        other_result == Err::<Request<'b>, Error>(error),
{
}

/// A column is as wide as the widest of its cells that another column follows: none of those is
/// wider, and one of them is as wide, unless there is none.
pub proof fn law_a_column_is_as_wide_as_its_widest_cell(rows: Seq<Seq<Cell>>, column: int)
    requires
        0 <= column,
    ensures
        forall|i: int|
            0 <= i < rows.len() && column + 1 < (#[trigger] rows[i]).len() ==> rows[i][column].width
                <= column_width(rows, column),
        column_width(rows, column) > 0 ==> exists|i: int|
            0 <= i < rows.len() && column + 1 < (#[trigger] rows[i]).len() && rows[i][column].width
                == column_width(rows, column),
    decreases rows.len(),
{
    if rows.len() > 0 {
        let rest = rows.drop_last();
        law_a_column_is_as_wide_as_its_widest_cell(rest, column);
        assert forall|i: int|
            0 <= i < rows.len() && column + 1 < (#[trigger] rows[i]).len() implies rows[i][column].width
            <= column_width(rows, column) by {
            if i < rest.len() {
                assert(rest[i] == rows[i]);
            }
        }
        if column_width(rows, column) > 0 {
            let last = rows.last();
            if column + 1 < last.len() && column_width(rest, column) < last[column].width {
                assert(rows[rows.len() - 1][column].width == column_width(rows, column));
            } else {
                let i = choose|i: int|
                    0 <= i < rest.len() && column + 1 < (#[trigger] rest[i]).len()
                        && rest[i][column].width == column_width(rest, column);
                assert(rows[i] == rest[i]);
            }
        }
    }
}

/// Every row becomes one line, which starts with the first of its cells and ends with the last:
/// nothing is put behind that.
pub proof fn law_a_line_holds_its_cells(rows: &Vec<Vec<String>>, lines: Vec<String>, i: int)
    requires
        0 <= i < rows@.len(),
        call_ensures(align_columns, (rows,), lines),
    ensures
        lines@.len() == rows@.len(),
        rows@[i]@.len() == 0 ==> lines@[i]@.len() == 0,
        rows@[i]@.len() > 0 ==> {
            let first = rows@[i]@[0]@;
            let last = rows@[i]@.last()@;
            &&& first.is_prefix_of(lines@[i]@)
            &&& last.len() <= lines@[i]@.len()
            &&& lines@[i]@.skip(lines@[i]@.len() - last.len()) == last
        },
        rows@[i]@.len() == 1 ==> lines@[i]@ == rows@[i]@[0]@,
{
    let texts_of = row_texts(rows@);
    let all = measured(texts_of);
    assert(texts(lines@).len() == lines@.len());
    assert(texts(lines@)[i] == lines@[i]@);
    let row = all[i];
    assert(row.len() == rows@[i]@.len());
    if row.len() > 0 {
        let line = aligned_line(all, row);
        let last = row.last().text;
        assert(last == rows@[i]@.last()@);
        assert(row[0].text == rows@[i]@[0]@);
        let before = columns_between(all, row, 0, row.len() - 1);
        assert(line == before + last);
        assert(line.skip(line.len() - last.len()) =~= last);
        if row.len() > 1 {
            let head = padded(row[0], column_width(all, 0));
            assert(row[0].text.is_prefix_of(head));
            assert(head.is_prefix_of(before));
        } else {
            assert(before =~= Seq::empty());
            assert(line =~= last);
        }
    }
}

/// The line of a commit gives its hash, its day, its summary and its author, in that order, and
/// the first two are coloured: the hash yellow and the day green.
pub proof fn law_a_commit_is_told_in_order(
    commit: &CommitInfo,
    line: String,
    highlights: Vec<Highlight>,
)
    requires
        call_ensures(commit_line, (commit,), line),
        call_ensures(commit_highlights, (commit,), highlights),
    ensures
        line@ == commit.short_id@ + " "@ + commit.time@ + " "@ + commit.summary@ + " ("@
            + commit.author@ + ")"@,
        highlights@.len() == 2,
        highlights@[0].color == HighlightColor::Yellow,
        highlights@[0].start == 0,
        highlights@[1].color == HighlightColor::Green,
        highlights@[0].end < highlights@[1].start <= highlights@[1].end,
{
}

/// A file lies below the directory of the work tree, with one slash between them, and an absolute
/// path is left as it is.
pub proof fn law_a_file_lies_below_its_work_tree(root: &str, path: &str, file: String)
    requires
        root@.len() > 0,
        call_ensures(worktree_file, (root, path), file),
    ensures
        path@.len() > 0 && path@[0] == '/' ==> file@ == path@,
        !(path@.len() > 0 && path@[0] == '/') && root@.last() == '/' ==> file@ == root@ + path@,
        !(path@.len() > 0 && path@[0] == '/') && root@.last() != '/' ==> file@ == root@ + "/"@
            + path@,
{
}

/// Places are counted from one, and the number of targets stands behind them.
pub proof fn law_places_are_counted_from_one(index: usize, total: usize, name: &str, line: String)
    requires
        index < usize::MAX,
        call_ensures(progress, (index, total, name), line),
    ensures
        line@ == "["@ + decimal((index + 1) as nat) + "/"@ + decimal(total as nat) + "] "@ + name@,
{
}

/// What failed is named, in order, if and only if anything did; the counts come first.
pub proof fn law_what_failed_is_named(
    messages: Messages,
    succeeded: usize,
    failed: &Vec<String>,
    line: String,
)
    requires
        call_ensures(summary, (messages, succeeded, failed), line),
    ensures
        ({
            let counts = messages.common().run_summary_text(succeeded, failed@.len() as usize);
            &&& failed@.len() == 0 ==> line@ == counts
            &&& failed@.len() > 0 ==> line@ == counts + messages.common().failed_targets_text(
                join(texts(failed@), ", "@),
            )
        }),
{
    assert(texts(failed@).len() == failed@.len());
}

/// A command is shown as it is typed: the word `git` and then what it gets.
pub proof fn law_a_command_is_shown_as_it_runs(args: &Vec<String>, line: String, id: &str, shown: Vec<String>)
    requires
        call_ensures(command_display, (args,), line),
        call_ensures(commit_preview_args, (id,), shown),
    ensures
        line@ == "git "@ + join(texts(args@), " "@),
        texts(shown@)[0] == "show"@,
        texts(shown@)[2] == id@,
        texts(shown@).last() == "--"@,
{
}

} // verus!
