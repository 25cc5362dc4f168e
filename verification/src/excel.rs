//! The transcoder: cells become text, and the header row is rewritten by a
//! mapping table.
//!
//! A workbook is handed over as a list of sheets, each a grid of
//! [`CellValue`]s. The result is the same list of sheets as grids of text:
//! row 0 of every sheet after the mapping table, every other row as it was.

use vstd::prelude::*;
use crate::text::{concat2, signed_decimal_string, signed_decimal_text};
use crate::types::{mapping_table, rewritten, texts, ColumnMapping};

verus! {

/// The kinds of error that a cell can hold in place of a value.
#[derive(Clone, Copy, Debug, PartialEq, Eq)]
pub enum CellError {
    Div0,
    NA,
    Name,
    Null,
    Num,
    Ref,
    Value,
    GettingData,
}

/// What a cell of a source sheet holds.
///
/// A number with a fraction and a date or time kept as a serial number are
/// held as the text in which the source value prints itself.
#[derive(Clone, Debug, PartialEq, Eq)]
pub enum CellValue {
    /// A whole number.
    Int(i64),
    /// A number with a fraction, as text.
    Float(String),
    /// Text.
    String(String),
    /// A truth value.
    Bool(bool),
    /// A date or time kept as a serial number, as text.
    DateTime(String),
    /// A date or time in ISO 8601.
    DateTimeIso(String),
    /// A duration in ISO 8601.
    DurationIso(String),
    /// An error.
    Error(CellError),
    /// Nothing.
    Empty,
}

/// One sheet of a source workbook.
#[derive(Clone, Debug, PartialEq, Eq)]
pub struct SourceSheet {
    pub name: String,
    pub rows: Vec<Vec<CellValue>>,
}

/// One sheet of a converted workbook: every cell is text.
#[derive(Clone, Debug, PartialEq, Eq)]
pub struct ConvertedSheet {
    pub name: String,
    pub rows: Vec<Vec<String>>,
}

/// The name of an error kind.
pub open spec fn cell_error_name(kind: CellError) -> Seq<char> {
    match kind {
        CellError::Div0 => "Div0"@,
        CellError::NA => "NA"@,
        CellError::Name => "Name"@,
        CellError::Null => "Null"@,
        CellError::Num => "Num"@,
        CellError::Ref => "Ref"@,
        CellError::Value => "Value"@,
        CellError::GettingData => "GettingData"@,
    }
}

/// Formats the `calamine::CellErrorType` of the same kind with its derived
/// `Debug`, which prints the variant's name as it is declared.
#[verifier::external_body]
fn error_debug_name(kind: CellError) -> (name: String)
    ensures
        name@ == cell_error_name(kind),
{
    let outside = match kind {
        CellError::Div0 => calamine::CellErrorType::Div0,
        CellError::NA => calamine::CellErrorType::NA,
        CellError::Name => calamine::CellErrorType::Name,
        CellError::Null => calamine::CellErrorType::Null,
        CellError::Num => calamine::CellErrorType::Num,
        CellError::Ref => calamine::CellErrorType::Ref,
        CellError::Value => calamine::CellErrorType::Value,
        CellError::GettingData => calamine::CellErrorType::GettingData,
    };
    format!("{:?}", outside)
}

/// The text of a cell. Whatever the cell holds, only its text is kept: a
/// whole number in decimal, a truth value as `true` or `false`, an error as
/// `ERROR: ` and the name of its kind, an empty cell as the empty text.
pub open spec fn cell_text(cell: CellValue) -> Seq<char> {
    match cell {
        CellValue::Int(i) => signed_decimal_text(i as int),
        CellValue::Float(t) => t@,
        CellValue::String(s) => s@,
        CellValue::Bool(b) => if b {
            "true"@
        } else {
            "false"@
        },
        CellValue::DateTime(t) => t@,
        CellValue::DateTimeIso(t) => t@,
        CellValue::DurationIso(t) => t@,
        CellValue::Error(e) => "ERROR: "@ + cell_error_name(e),
        CellValue::Empty => Seq::empty(),
    }
}

/// The text of a cell.
pub fn cell_to_string(cell: &CellValue) -> (text: String)
    ensures
        text@ == cell_text(*cell),
{
    match cell {
        CellValue::Int(i) => signed_decimal_string(*i),
        CellValue::Float(t) => t.clone(),
        CellValue::String(s) => s.clone(),
        CellValue::Bool(b) => if *b {
            String::from_str("true")
        } else {
            String::from_str("false")
        },
        CellValue::DateTime(t) => t.clone(),
        CellValue::DateTimeIso(t) => t.clone(),
        CellValue::DurationIso(t) => t.clone(),
        CellValue::Error(e) => {
            let name = error_debug_name(*e);
            concat2("ERROR: ", name.as_str())
        },
        CellValue::Empty => String::new(),
    }
}

/// The texts of the cells of one row.
pub open spec fn row_cell_texts(row: Seq<CellValue>) -> Seq<Seq<char>> {
    row.map_values(|c: CellValue| cell_text(c))
}

/// The texts of the cells of a grid, row by row.
pub open spec fn cell_texts(rows: Seq<Vec<CellValue>>) -> Seq<Seq<Seq<char>>> {
    rows.map_values(|r: Vec<CellValue>| row_cell_texts(r@))
}

/// The texts that a grid of strings holds, row by row.
pub open spec fn grid_text(rows: Seq<Vec<String>>) -> Seq<Seq<Seq<char>>> {
    rows.map_values(|r: Vec<String>| texts(r@))
}

/// A row with every cell rewritten by the table.
pub open spec fn remap_row(table: Map<Seq<char>, Seq<char>>, row: Seq<Seq<char>>) -> Seq<
    Seq<char>,
> {
    row.map_values(|h: Seq<char>| rewritten(table, h))
}

/// A grid with its first row rewritten by the table and every other row
/// left as it is.
pub open spec fn remap_header_row(
    table: Map<Seq<char>, Seq<char>>,
    grid: Seq<Seq<Seq<char>>>,
) -> Seq<Seq<Seq<char>>> {
    if grid.len() == 0 {
        grid
    } else {
        grid.update(0, remap_row(table, grid[0]))
    }
}

/// The converted form of a grid of cells: the texts of its cells, with the
/// header row rewritten by the table.
pub open spec fn converted_grid(
    table: Map<Seq<char>, Seq<char>>,
    rows: Seq<Vec<CellValue>>,
) -> Seq<Seq<Seq<char>>> {
    remap_header_row(table, cell_texts(rows))
}

/// Rewrites one header by the mapping table that `rules` amount to: the
/// text mapped to it where the table has it as a key, the header itself
/// otherwise.
pub fn remap_header(rules: &Vec<ColumnMapping>, header: String) -> (out: String)
    ensures
        out@ == rewritten(mapping_table(rules@), header@),
{
    let mut i: usize = rules.len();
    assert(rules@.take(i as int) == rules@);
    while i > 0
        invariant
            i <= rules.len(),
            rewritten(mapping_table(rules@), header@) == rewritten(
                mapping_table(rules@.take(i as int)),
                header@,
            ),
        decreases i,
    {
        let ghost cur = rules@.take(i as int);
        assert(cur.last() == rules@[i - 1]);
        assert(cur.drop_last() == rules@.take(i - 1));
        if rules[i - 1].original == header {
            return rules[i - 1].mapped.clone();
        }
        i -= 1;
    }
    assert(rules@.take(0).len() == 0);
    header
}

/// Converts one row: the text of every cell, rewritten by the mapping table
/// where the row is a header row.
pub fn convert_row(cells: &Vec<CellValue>, rules: &Vec<ColumnMapping>, is_header: bool) -> (out:
    Vec<String>)
    ensures
        texts(out@) == if is_header {
            remap_row(mapping_table(rules@), row_cell_texts(cells@))
        } else {
            row_cell_texts(cells@)
        },
{
    let ghost table = mapping_table(rules@);
    let mut out: Vec<String> = Vec::new();
    let mut c: usize = 0;
    while c < cells.len()
        invariant
            c <= cells.len(),
            out.len() == c,
            table == mapping_table(rules@),
            forall|k: int|
                0 <= k < c ==> (#[trigger] out@[k])@ == if is_header {
                    rewritten(table, cell_text(cells@[k]))
                } else {
                    cell_text(cells@[k])
                },
        decreases cells.len() - c,
    {
        let text = cell_to_string(&cells[c]);
        let written = if is_header {
            remap_header(rules, text)
        } else {
            text
        };
        out.push(written);
        c += 1;
    }
    assert(texts(out@) =~= if is_header {
        remap_row(table, row_cell_texts(cells@))
    } else {
        row_cell_texts(cells@)
    });
    out
}

/// Converts the rows of one sheet. Row 0 is the header row: each of its
/// cells is looked up in the mapping table by its text. No other row is
/// looked up; its cells are copied as text.
pub fn convert_rows(rows: &Vec<Vec<CellValue>>, rules: &Vec<ColumnMapping>) -> (out: Vec<
    Vec<String>,
>)
    ensures
        grid_text(out@) == converted_grid(mapping_table(rules@), rows@),
{
    let ghost table = mapping_table(rules@);
    let mut out: Vec<Vec<String>> = Vec::new();
    let mut r: usize = 0;
    while r < rows.len()
        invariant
            r <= rows.len(),
            out.len() == r,
            table == mapping_table(rules@),
            forall|k: int|
                0 <= k < r ==> texts((#[trigger] out@[k])@) == if k == 0 {
                    remap_row(table, row_cell_texts(rows@[k]@))
                } else {
                    row_cell_texts(rows@[k]@)
                },
        decreases rows.len() - r,
    {
        let row = convert_row(&rows[r], rules, r == 0);
        out.push(row);
        r += 1;
    }
    assert(grid_text(out@) =~= converted_grid(table, rows@));
    out
}

/// Whether `out` is the converted form of `sheets`: as many sheets, in the
/// same order and under the same names, each grid converted.
pub open spec fn is_converted_workbook(
    out: Seq<ConvertedSheet>,
    table: Map<Seq<char>, Seq<char>>,
    sheets: Seq<SourceSheet>,
) -> bool {
    &&& out.len() == sheets.len()
    &&& forall|i: int|
        0 <= i < sheets.len() ==> {
            &&& (#[trigger] out[i]).name@ == sheets[i].name@
            &&& grid_text(out[i].rows@) == converted_grid(table, sheets[i].rows@)
        }
}

/// Converts a workbook: one sheet of the same name for every source sheet,
/// in source order, with its rows converted.
pub fn convert_workbook(sheets: &Vec<SourceSheet>, rules: &Vec<ColumnMapping>) -> (out: Vec<
    ConvertedSheet,
>)
    ensures
        is_converted_workbook(out@, mapping_table(rules@), sheets@),
{
    let mut out: Vec<ConvertedSheet> = Vec::new();
    let mut i: usize = 0;
    while i < sheets.len()
        invariant
            i <= sheets.len(),
            is_converted_workbook(out@, mapping_table(rules@), sheets@.take(i as int)),
        decreases sheets.len() - i,
    {
        let sheet = ConvertedSheet {
            name: sheets[i].name.clone(),
            rows: convert_rows(&sheets[i].rows, rules),
        };
        out.push(sheet);
        i += 1;
    }
    assert(sheets@.take(i as int) == sheets@);
    out
}

/// Every header that is a key of the table is rewritten to what the table
/// maps it to, every other header is kept, and no row but the first is
/// touched.
pub proof fn lemma_header_row_rewritten(table: Map<Seq<char>, Seq<char>>, grid: Seq<Seq<Seq<char>>>)
    ensures
        remap_header_row(table, grid).len() == grid.len(),
        forall|r: int|
            0 <= r < grid.len() ==> (#[trigger] remap_header_row(table, grid)[r]).len()
                == grid[r].len(),
        forall|c: int|
            0 < grid.len() && 0 <= c < grid[0].len() && table.dom().contains(grid[0][c])
                ==> #[trigger] remap_header_row(table, grid)[0][c] == table[grid[0][c]],
        forall|c: int|
            0 < grid.len() && 0 <= c < grid[0].len() && !table.dom().contains(grid[0][c])
                ==> #[trigger] remap_header_row(table, grid)[0][c] == grid[0][c],
        forall|r: int| 0 < r < grid.len() ==> #[trigger] remap_header_row(table, grid)[r] == grid[r],
{
}

/// With an empty mapping table the converted grid is the text of the source
/// cells: the header row comes out as it went in.
pub proof fn lemma_empty_table_keeps_headers(rows: Seq<Vec<CellValue>>)
    ensures
        converted_grid(mapping_table(Seq::<ColumnMapping>::empty()), rows) == cell_texts(rows),
{
    let table = mapping_table(Seq::<ColumnMapping>::empty());
    let grid = cell_texts(rows);
    if grid.len() > 0 {
        assert(remap_row(table, grid[0]) =~= grid[0]);
        assert(remap_header_row(table, grid) =~= grid);
    }
}

} // verus!
