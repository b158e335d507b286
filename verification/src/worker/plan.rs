//! What a commit writes and how it names what it creates: the name of the
//! copied sheet, the cells and the row it fills, the name of the PDF.

use crate::config::{Config, ConfigView};
use crate::google::sheets::{CellValue, CellValueView, ValueRange, ValueRangeView};
use crate::jobs::{ReceiptFields, ReceiptFieldsView};
use crate::text::{
    decimal, push_decimal, remove_char, remove_whitespace, without_char, without_whitespace,
};
use vstd::prelude::*;

verus! {

/// The user's name without white space, as it goes into file names.
pub open spec fn safe_name_text(full_name: Seq<char>) -> Seq<char> {
    without_whitespace(full_name)
}

/// Name of the sheet copied for a month: a fixed title, the month without
/// its hyphen, and the user's name without white space.
pub open spec fn sheet_name_text(target_month_ym: Seq<char>, full_name: Seq<char>) -> Seq<char> {
    "立替経費精算書_"@ + without_char(target_month_ym, '-') + "_"@ + safe_name_text(full_name)
}

/// Name of the exported PDF: the month, a fixed title, and the user's name
/// without white space.
pub open spec fn pdf_name_text(target_month_ym: Seq<char>, full_name: Seq<char>) -> Seq<char> {
    target_month_ym + "_立替経費精算書_"@ + safe_name_text(full_name) + ".pdf"@
}

/// The first day of the month `target_month_ym`.
pub open spec fn month_date_text(target_month_ym: Seq<char>) -> Seq<char> {
    target_month_ym + "-01"@
}

/// The address of `cell` on the sheet named `sheet_title`.
pub open spec fn cell_address_text(sheet_title: Seq<char>, cell: Seq<char>) -> Seq<char> {
    sheet_title + "!"@ + cell
}

/// The first row of the table that holds no expense yet.
pub open spec fn next_row(start_row: nat, existing: nat) -> nat {
    start_row + existing
}

/// The cells of row `row` from column `first_col` to column `last_col` on
/// the sheet named `sheet_title`.
pub open spec fn row_range_text(
    sheet_title: Seq<char>,
    first_col: Seq<char>,
    last_col: Seq<char>,
    row: nat,
) -> Seq<char> {
    sheet_title + "!"@ + first_col + decimal(row) + ":"@ + last_col + decimal(row)
}

/// The five cells of an expense row: date, reason, amount, category, note.
pub open spec fn receipt_row(fields: ReceiptFieldsView) -> Seq<CellValueView> {
    seq![
        CellValueView::Text(fields.date_ymd),
        CellValueView::Text(fields.reason),
        CellValueView::Number(fields.amount_yen),
        CellValueView::Text(fields.category),
        CellValueView::Text(fields.note),
    ]
}

/// Everything one commit writes, as one batch: the user's name into the
/// name cell, the first day of the month into the month cell, and the
/// expense into the first free row of the table, `existing` rows below
/// the table's first row.
pub open spec fn commit_updates(
    cfg: ConfigView,
    fields: ReceiptFieldsView,
    target_month_ym: Seq<char>,
    sheet_title: Seq<char>,
    existing: nat,
) -> Seq<ValueRangeView> {
    seq![
        ValueRangeView {
            range: cell_address_text(sheet_title, cfg.template.name_cell),
            values: seq![seq![CellValueView::Text(cfg.user.full_name)]],
        },
        ValueRangeView {
            range: cell_address_text(sheet_title, cfg.template.target_month_cell),
            values: seq![seq![CellValueView::Text(month_date_text(target_month_ym))]],
        },
        ValueRangeView {
            range: row_range_text(
                sheet_title,
                cfg.general_expense.date_col,
                cfg.general_expense.note_col,
                next_row(cfg.general_expense.start_row, existing),
            ),
            values: seq![receipt_row(fields)],
        },
    ]
}

/// The user's name without white space.
pub fn safe_name(full_name: &str) -> (name: String)
    ensures
        name@ == safe_name_text(full_name@),
{
    remove_whitespace(full_name)
}

/// Name of the sheet copied for the month `target_month_ym`.
pub fn sheet_name(target_month_ym: &str, full_name: &str) -> (name: String)
    ensures
        name@ == sheet_name_text(target_month_ym@, full_name@),
{
    let mut out = "立替経費精算書_".to_owned();
    out.append(remove_char(target_month_ym, '-').as_str());
    out.append("_");
    out.append(safe_name(full_name).as_str());
    out
}

/// Name of the PDF exported for the month `target_month_ym`.
pub fn pdf_name(target_month_ym: &str, full_name: &str) -> (name: String)
    ensures
        name@ == pdf_name_text(target_month_ym@, full_name@),
{
    let mut out = target_month_ym.to_owned();
    out.append("_立替経費精算書_");
    out.append(safe_name(full_name).as_str());
    out.append(".pdf");
    out
}

/// The first day of the month `target_month_ym`.
pub fn month_date(target_month_ym: &str) -> (date: String)
    ensures
        date@ == month_date_text(target_month_ym@),
{
    let mut out = target_month_ym.to_owned();
    out.append("-01");
    out
}

/// The address of `cell` on the sheet named `sheet_title`.
pub fn cell_address(sheet_title: &str, cell: &str) -> (address: String)
    ensures
        address@ == cell_address_text(sheet_title@, cell@),
{
    let mut out = sheet_title.to_owned();
    out.append("!");
    out.append(cell);
    out
}

/// The cells of row `row` from `first_col` to `last_col` on the sheet
/// named `sheet_title`.
pub fn row_range(sheet_title: &str, first_col: &str, last_col: &str, row: u64) -> (range: String)
    ensures
        range@ == row_range_text(sheet_title@, first_col@, last_col@, row as nat),
{
    let mut out = sheet_title.to_owned();
    out.append("!");
    out.append(first_col);
    push_decimal(&mut out, row);
    out.append(":");
    out.append(last_col);
    push_decimal(&mut out, row);
    out
}

fn text_cell(text: &String) -> (rows: Vec<Vec<CellValue>>)
    ensures
        rows.deep_view() == seq![seq![CellValueView::Text(text@)]],
{
    let mut row: Vec<CellValue> = Vec::new();
    row.push(CellValue::Text(text.clone()));
    let mut rows: Vec<Vec<CellValue>> = Vec::new();
    rows.push(row);
    proof {
        assert(rows@[0].deep_view() =~= seq![CellValueView::Text(text@)]);
        assert(rows.deep_view() =~= seq![seq![CellValueView::Text(text@)]]);
    }
    rows
}

fn receipt_cells(fields: &ReceiptFields) -> (rows: Vec<Vec<CellValue>>)
    ensures
        rows.deep_view() == seq![receipt_row(fields@)],
{
    let mut row: Vec<CellValue> = Vec::new();
    row.push(CellValue::Text(fields.date_ymd.clone()));
    row.push(CellValue::Text(fields.reason.clone()));
    row.push(CellValue::Number(fields.amount_yen));
    row.push(CellValue::Text(fields.category.clone()));
    row.push(CellValue::Text(fields.note.clone()));
    let mut rows: Vec<Vec<CellValue>> = Vec::new();
    rows.push(row);
    proof {
        assert(rows@[0].deep_view() =~= receipt_row(fields@));
        assert(rows.deep_view() =~= seq![receipt_row(fields@)]);
    }
    rows
}

/// Builds the batch that one commit writes into the sheet named
/// `sheet_title`, whose table already holds `existing` rows.
pub fn build_updates(
    cfg: &Config,
    fields: &ReceiptFields,
    target_month_ym: &str,
    sheet_title: &str,
    existing: u32,
) -> (updates: Vec<ValueRange>)
    ensures
        updates.deep_view() == commit_updates(
            cfg@,
            fields@,
            target_month_ym@,
            sheet_title@,
            existing as nat,
        ),
{
    let row: u64 = cfg.general_expense.start_row as u64 + existing as u64;
    let date = month_date(target_month_ym);
    let mut updates: Vec<ValueRange> = Vec::new();
    updates.push(
        ValueRange {
            range: cell_address(sheet_title, cfg.template.name_cell.as_str()),
            values: text_cell(&cfg.user.full_name),
        },
    );
    updates.push(
        ValueRange {
            range: cell_address(sheet_title, cfg.template.target_month_cell.as_str()),
            values: text_cell(&date),
        },
    );
    updates.push(
        ValueRange {
            range: row_range(
                sheet_title,
                cfg.general_expense.date_col.as_str(),
                cfg.general_expense.note_col.as_str(),
                row,
            ),
            values: receipt_cells(fields),
        },
    );
    proof {
        assert(updates.deep_view() =~= commit_updates(
            cfg@,
            fields@,
            target_month_ym@,
            sheet_title@,
            existing as nat,
        ));
    }
    updates
}

} // verus!
