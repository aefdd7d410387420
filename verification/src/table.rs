//! The heading of a task's log, laid out as tables.
//!
//! The layout is left to the `comfy_table` crate. What a table holds is decided here; how
//! wide it is drawn depends on the terminal and is not.

use crate::task::{row_views, TaskInfo, Tint};
use vstd::prelude::*;

verus! {

#[verifier::external_type_specification]
#[verifier::external_body]
pub struct ExTable(comfy_table::Table);

#[verifier::external_type_specification]
#[verifier::external_body]
pub struct ExCell(comfy_table::Cell);

/// The text that a cell holds.
pub uninterp spec fn cell_text(cell: comfy_table::Cell) -> Seq<char>;

/// The texts of the cells of a table's header, in order; none while there is no header.
pub uninterp spec fn table_header(table: comfy_table::Table) -> Seq<Seq<char>>;

/// The texts of the cells of a table's rows, row by row.
pub uninterp spec fn table_rows(table: comfy_table::Table) -> Seq<Seq<Seq<char>>>;

/// The texts of the cells, in order.
pub open spec fn cell_texts(cells: Seq<comfy_table::Cell>) -> Seq<Seq<char>> {
    cells.map_values(|cell: comfy_table::Cell| cell_text(cell))
}

/// Makes a table with `Table::new`, gives it its frame with `Table::load_preset` and lets
/// it fit its columns to the terminal with `Table::set_content_arrangement`. The new
/// table has no header and no rows.
#[verifier::external_body]
fn new_table(preset: &str) -> (table: comfy_table::Table)
    ensures
        table_header(table) == Seq::<Seq<char>>::empty(),
        table_rows(table) == Seq::<Seq<Seq<char>>>::empty(),
{
    let mut table = comfy_table::Table::new();
    table.load_preset(preset);
    table.set_content_arrangement(comfy_table::ContentArrangement::Dynamic);
    table
}

/// Makes a cell with `Cell::new`. The cell holds the text it was given.
#[verifier::external_body]
fn plain_cell(text: &str) -> (cell: comfy_table::Cell)
    ensures
        cell_text(cell) == text@,
{
    comfy_table::Cell::new(text)
}

/// Colours a cell with `Cell::fg`. The text stays.
#[verifier::external_body]
fn tinted(cell: comfy_table::Cell, tint: Tint) -> (tinted: comfy_table::Cell)
    ensures
        cell_text(tinted) == cell_text(cell),
{
    cell.fg(
        match tint {
            Tint::White => comfy_table::Color::White,
            Tint::Yellow => comfy_table::Color::Yellow,
            Tint::Green => comfy_table::Color::Green,
            Tint::Red => comfy_table::Color::Red,
        },
    )
}

/// Makes a cell bold with `Cell::add_attribute`. The text stays.
#[verifier::external_body]
fn bold(cell: comfy_table::Cell) -> (bold: comfy_table::Cell)
    ensures
        cell_text(bold) == cell_text(cell),
{
    cell.add_attribute(comfy_table::Attribute::Bold)
}

/// Sets the header with `Table::set_header`. The rows stay.
#[verifier::external_body]
fn set_header(table: &mut comfy_table::Table, cells: Vec<comfy_table::Cell>)
    ensures
        table_header(*final(table)) == cell_texts(cells@),
        table_rows(*final(table)) == table_rows(*old(table)),
{
    table.set_header(cells);
}

/// Adds a row at the end with `Table::add_row`. The header and the rows before it stay.
#[verifier::external_body]
fn add_row(table: &mut comfy_table::Table, cells: Vec<comfy_table::Cell>)
    ensures
        table_header(*final(table)) == table_header(*old(table)),
        table_rows(*final(table)) == table_rows(*old(table)).push(cell_texts(cells@)),
{
    table.add_row(cells);
}

/// Has the table styled even where it is not drawn on a terminal, with
/// `Table::enforce_styling`. What the table holds stays.
#[verifier::external_body]
fn enforce_styling(table: &mut comfy_table::Table)
    ensures
        table_header(*final(table)) == table_header(*old(table)),
        table_rows(*final(table)) == table_rows(*old(table)),
{
    table.enforce_styling();
}

/// Sets the first column flush right and without padding, with `Table::column_mut`,
/// `Column::set_cell_alignment` and `Column::set_padding`, if the table has a column.
/// What the table holds stays.
#[verifier::external_body]
fn align_keys(table: &mut comfy_table::Table)
    ensures
        table_header(*final(table)) == table_header(*old(table)),
        table_rows(*final(table)) == table_rows(*old(table)),
{
    if let Some(column) = table.column_mut(0) {
        column.set_cell_alignment(comfy_table::CellAlignment::Right);
        column.set_padding((0, 0));
    }
}

/// Draws the table through its `Display`. The drawing depends on the width of the
/// terminal, so nothing is claimed of it.
#[verifier::external_body]
fn draw(table: &comfy_table::Table) -> String {
    table.to_string()
}

/// A cell for `text`, coloured and bold as asked for if `styled` is set, else plain.
fn styled_cell(text: &str, tint: Option<Tint>, heavy: bool, styled: bool) -> (cell:
    comfy_table::Cell)
    ensures
        cell_text(cell) == text@,
{
    let mut cell = plain_cell(text);
    if !styled {
        return cell;
    }
    if let Some(tint) = tint {
        cell = tinted(cell, tint);
    }
    if heavy {
        cell = bold(cell);
    }
    cell
}

/// The table that names the task and how it fared: one header of two cells, no rows.
pub fn title_table(info: &TaskInfo, styled: bool) -> (table: comfy_table::Table)
    ensures
        table_header(table) == seq![info.title@, info.status@],
        table_rows(table) == Seq::<Seq<Seq<char>>>::empty(),
{
    let mut table = new_table("││─ └──┘     ─ ┌┐  ");
    let mut cells: Vec<comfy_table::Cell> = Vec::new();
    cells.push(styled_cell(info.title.as_str(), None, true, styled));
    cells.push(styled_cell(info.status.as_str(), Some(info.tint), false, styled));
    set_header(&mut table, cells);
    if styled {
        enforce_styling(&mut table);
    }
    table
}

/// Each pair as a row of two cells.
pub open spec fn pair_rows(rows: Seq<(Seq<char>, Seq<char>)>) -> Seq<Seq<Seq<char>>> {
    rows.map_values(|row: (Seq<char>, Seq<char>)| seq![row.0, row.1])
}

/// The table of what is known of the task: no header, and one row of a key and a value
/// for each pair, in order.
pub fn rows_table(info: &TaskInfo, styled: bool) -> (table: comfy_table::Table)
    ensures
        table_header(table) == Seq::<Seq<char>>::empty(),
        table_rows(table) == pair_rows(row_views(info.rows@)),
{
    let mut table = new_table("                   ");
    let mut i: usize = 0;
    while i < info.rows.len()
        invariant
            i <= info.rows.len(),
            table_header(table) == Seq::<Seq<char>>::empty(),
            table_rows(table) == pair_rows(row_views(info.rows@.take(i as int))),
        decreases info.rows.len() - i,
    {
        let mut cells: Vec<comfy_table::Cell> = Vec::new();
        cells.push(styled_cell(info.rows[i].0.as_str(), None, true, styled));
        cells.push(plain_cell(info.rows[i].1.as_str()));
        proof {
            let row = info.rows@[i as int];
            assert(cell_texts(cells@) == seq![row.0@, row.1@]);
        }
        add_row(&mut table, cells);
        i += 1;
    }
    align_keys(&mut table);
    table
}

/// Draws the heading of a task's log: the table that names the task, then the table of
/// what is known of it. What the two tables hold is stated with `title_table` and
/// `rows_table`. How they are drawn depends on whether output goes to a terminal and on
/// how wide that terminal is, so nothing is claimed of the drawings.
pub fn draw_task_info(info: &TaskInfo, styled: bool) -> (drawn: (String, String)) {
    let title = title_table(info, styled);
    let rows = rows_table(info, styled);
    (draw(&title), draw(&rows))
}

} // verus!
