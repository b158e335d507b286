//! The spreadsheet service: sheet names, cell ranges, counting rows,
//! writing values.

use crate::text::{blank, decimal, is_blank, percent_encode, percent_encoded, push_decimal};
use vstd::prelude::*;

verus! {

/// What one cell is to hold.
#[derive(Debug, PartialEq, Eq)]
pub enum CellValue {
    /// Text.
    Text(String),
    /// A whole number.
    Number(i64),
}

/// Values for one range of cells, row by row.
#[derive(Debug, PartialEq, Eq)]
pub struct ValueRange {
    /// The range, in A1 notation with the sheet's name in front.
    pub range: String,
    /// The rows of the range, each with its cells from left to right.
    pub values: Vec<Vec<CellValue>>,
}

/// A spreadsheet, as far as the application needs it.
#[derive(Debug, PartialEq, Eq)]
pub struct Spreadsheet {
    /// The sheets, in their order.
    pub sheets: Vec<Sheet>,
}

/// One sheet of a spreadsheet.
#[derive(Debug, PartialEq, Eq)]
pub struct Sheet {
    /// What is known of the sheet.
    pub properties: SheetProps,
}

/// What is known of a sheet.
#[derive(Debug, PartialEq, Eq)]
pub struct SheetProps {
    /// The sheet's name.
    pub title: String,
    /// The size of its grid, if it was told.
    pub grid_properties: Option<GridProps>,
}

/// The size of a sheet's grid.
#[derive(Debug, PartialEq, Eq)]
pub struct GridProps {
    /// The number of rows, if it was told.
    pub row_count: Option<u32>,
}

/// What is sent to have a batch of values written.
#[derive(Debug, PartialEq, Eq)]
pub struct BatchUpdateReq {
    /// How the service is to read the values.
    pub value_input_option: String,
    /// The values, range by range.
    pub data: Vec<ValueRange>,
}

/// Why an answer of the service cannot be used.
#[derive(Debug, PartialEq, Eq)]
pub enum SheetsError {
    /// The spreadsheet has no sheet.
    NoSheets,
    /// The service answered with a status that is no success.
    Http { status: String, body: String },
}

/// `SheetProps` over mathematical values.
pub struct SheetPropsView {
    pub title: Seq<char>,
    pub row_count: Option<nat>,
}

/// `SheetsError` as mathematical text.
pub enum SheetsErrorView {
    NoSheets,
    Http { status: Seq<char>, body: Seq<char> },
}

/// `CellValue` as mathematical text or number.
pub enum CellValueView {
    Text(Seq<char>),
    Number(int),
}

/// `ValueRange` as mathematical text and values.
pub struct ValueRangeView {
    pub range: Seq<char>,
    pub values: Seq<Seq<CellValueView>>,
}

impl View for CellValue {
    type V = CellValueView;

    open spec fn view(&self) -> CellValueView {
        match self {
            CellValue::Text(t) => CellValueView::Text(t@),
            CellValue::Number(n) => CellValueView::Number(*n as int),
        }
    }
}

impl DeepView for CellValue {
    type V = CellValueView;

    open spec fn deep_view(&self) -> CellValueView {
        self@
    }
}

impl View for ValueRange {
    type V = ValueRangeView;

    open spec fn view(&self) -> ValueRangeView {
        ValueRangeView { range: self.range@, values: self.values.deep_view() }
    }
}

impl DeepView for ValueRange {
    type V = ValueRangeView;

    open spec fn deep_view(&self) -> ValueRangeView {
        self@
    }
}

impl View for SheetProps {
    type V = SheetPropsView;

    open spec fn view(&self) -> SheetPropsView {
        SheetPropsView {
            title: self.title@,
            row_count: match self.grid_properties {
                Some(grid) => match grid.row_count {
                    Some(rows) => Some(rows as nat),
                    None => None,
                },
                None => None,
            },
        }
    }
}

impl View for Sheet {
    type V = SheetPropsView;

    open spec fn view(&self) -> SheetPropsView {
        self.properties@
    }
}

impl DeepView for Sheet {
    type V = SheetPropsView;

    open spec fn deep_view(&self) -> SheetPropsView {
        self@
    }
}

impl View for Spreadsheet {
    type V = Seq<SheetPropsView>;

    open spec fn view(&self) -> Seq<SheetPropsView> {
        self.sheets.deep_view()
    }
}

impl View for SheetsError {
    type V = SheetsErrorView;

    open spec fn view(&self) -> SheetsErrorView {
        match self {
            SheetsError::NoSheets => SheetsErrorView::NoSheets,
            SheetsError::Http { status, body } => SheetsErrorView::Http {
                status: status@,
                body: body@,
            },
        }
    }
}

/// The number of rows assumed for a sheet that does not tell its size.
pub open spec fn assumed_rows() -> nat {
    1000
}

/// How the service is told to read written values: as a user's typing.
pub open spec fn input_option_text() -> Seq<char> {
    "USER_ENTERED"@
}

/// Where a spreadsheet tells the names and sizes of its sheets.
pub open spec fn spreadsheet_url_text(spreadsheet_id: Seq<char>) -> Seq<char> {
    "https://sheets.googleapis.com/v4/spreadsheets/"@ + spreadsheet_id
        + "?fields=sheets(properties(title,gridProperties(rowCount)))"@
}

/// The cells of column `col` from row `start_row` downwards, on the sheet
/// named `sheet_title`.
pub open spec fn column_range_text(
    sheet_title: Seq<char>,
    col: Seq<char>,
    start_row: nat,
) -> Seq<char> {
    sheet_title + "!"@ + col + decimal(start_row) + ":"@ + col
}

/// Where the values of a range are read; the range goes percent-encoded.
pub open spec fn values_url_text(spreadsheet_id: Seq<char>, range: Seq<char>) -> Seq<char> {
    "https://sheets.googleapis.com/v4/spreadsheets/"@ + spreadsheet_id + "/values/"@
        + percent_encoded(range)
}

/// Where a batch of values is written.
pub open spec fn batch_update_url_text(spreadsheet_id: Seq<char>) -> Seq<char> {
    "https://sheets.googleapis.com/v4/spreadsheets/"@ + spreadsheet_id + "/values:batchUpdate"@
}

/// Whether a row of read values counts as filled: it has a first cell, and
/// that cell holds more than white space.
pub open spec fn row_filled(row: Seq<Seq<char>>) -> bool {
    row.len() > 0 && !blank(row[0])
}

/// How many rows are filled from the top down without a gap: the place of
/// the first row that is not filled, or the number of rows where all are.
pub open spec fn filled_rows(values: Seq<Seq<Seq<char>>>) -> nat
    decreases values.len(),
{
    if values.len() == 0 {
        0
    } else if row_filled(values[0]) {
        1 + filled_rows(values.drop_first())
    } else {
        0
    }
}

/// The count stops at the first gap: the first `filled_rows` rows are
/// filled, and the row after them, if there is one, is not.
pub proof fn law_count_stops_at_first_gap(values: Seq<Seq<Seq<char>>>)
    ensures
        filled_rows(values) <= values.len(),
        forall|i: int| 0 <= i < filled_rows(values) ==> row_filled(#[trigger] values[i]),
        filled_rows(values) < values.len() ==> !row_filled(values[filled_rows(values) as int]),
    decreases values.len(),
{
    if values.len() > 0 && row_filled(values[0]) {
        let rest = values.drop_first();
        law_count_stops_at_first_gap(rest);
        assert forall|i: int| 0 <= i < filled_rows(values) implies row_filled(
            #[trigger] values[i],
        ) by {
            if i > 0 {
                assert(values[i] == rest[i - 1]);
            }
        }
        if filled_rows(values) < values.len() {
            assert(values[filled_rows(values) as int] == rest[filled_rows(rest) as int]);
        }
    }
}

/// A run of filled rows at the top, followed by a row that is not filled
/// or by nothing, is what `filled_rows` counts.
pub proof fn lemma_filled_rows_is(values: Seq<Seq<Seq<char>>>, n: int)
    requires
        0 <= n <= values.len(),
        forall|i: int| 0 <= i < n ==> row_filled(#[trigger] values[i]),
        n < values.len() ==> !row_filled(values[n]),
    ensures
        filled_rows(values) == n,
    decreases values.len(),
{
    if n > 0 {
        let rest = values.drop_first();
        assert(row_filled(values[0]));
        assert forall|i: int| 0 <= i < n - 1 implies row_filled(#[trigger] rest[i]) by {
            assert(rest[i] == values[i + 1]);
        }
        if n - 1 < rest.len() {
            assert(rest[n - 1] == values[n]);
        }
        lemma_filled_rows_is(rest, n - 1);
    }
}

/// What the user is told of an error.
pub open spec fn sheets_error_text(error: SheetsErrorView) -> Seq<char> {
    match error {
        SheetsErrorView::NoSheets => "no sheets"@,
        SheetsErrorView::Http { status, body } => "HTTP status "@ + status + " error: "@ + body,
    }
}

impl SheetsError {
    /// What the user is told of the error.
    pub fn message(&self) -> (text: String)
        ensures
            text@ == sheets_error_text(self@),
    {
        match self {
            SheetsError::NoSheets => "no sheets".to_owned(),
            SheetsError::Http { status, body } => {
                let mut out = "HTTP status ".to_owned();
                out.append(status.as_str());
                out.append(" error: ");
                out.append(body.as_str());
                out
            },
        }
    }
}

/// Whether the status `code` of an answer means success: 200 to 299.
pub fn is_success(code: u16) -> (success: bool)
    ensures
        success == (200 <= code < 300),
{
    200 <= code && code < 300
}

/// Where the spreadsheet `spreadsheet_id` tells the names and sizes of its
/// sheets.
pub fn spreadsheet_url(spreadsheet_id: &str) -> (url: String)
    ensures
        url@ == spreadsheet_url_text(spreadsheet_id@),
{
    let mut out = "https://sheets.googleapis.com/v4/spreadsheets/".to_owned();
    out.append(spreadsheet_id);
    out.append("?fields=sheets(properties(title,gridProperties(rowCount)))");
    out
}

/// The name of the first sheet and the number of its rows; 1000 rows where
/// the sheet does not tell its size. Fails where there is no sheet.
pub fn get_first_sheet_title_and_rows(spreadsheet: &Spreadsheet) -> (first: Result<
    (String, u32),
    SheetsError,
>)
    ensures
        spreadsheet@.len() == 0 <==> first is Err,
        first matches Err(error) ==> error@ == SheetsErrorView::NoSheets,
        first matches Ok(found) ==> found.0@ == spreadsheet@[0].title && found.1
            == match spreadsheet@[0].row_count {
            Some(rows) => rows,
            None => assumed_rows(),
        },
{
    if spreadsheet.sheets.len() == 0 {
        return Err(SheetsError::NoSheets);
    }
    let props = &spreadsheet.sheets[0].properties;
    let rows: u32 = match &props.grid_properties {
        Some(grid) => match grid.row_count {
            Some(count) => count,
            None => 1000,
        },
        None => 1000,
    };
    Ok((props.title.clone(), rows))
}

/// The cells of column `col` from row `start_row` downwards, on the sheet
/// named `sheet_title`.
pub fn column_range(sheet_title: &str, col: &str, start_row: u32) -> (range: String)
    ensures
        range@ == column_range_text(sheet_title@, col@, start_row as nat),
{
    let mut out = sheet_title.to_owned();
    out.append("!");
    out.append(col);
    push_decimal(&mut out, start_row as u64);
    out.append(":");
    out.append(col);
    out
}

/// Where the values of `range` in the spreadsheet `spreadsheet_id` are read.
pub fn values_url(spreadsheet_id: &str, range: &str) -> (url: String)
    ensures
        url@ == values_url_text(spreadsheet_id@, range@),
{
    let mut out = "https://sheets.googleapis.com/v4/spreadsheets/".to_owned();
    out.append(spreadsheet_id);
    out.append("/values/");
    out.append(percent_encode(range).as_str());
    out
}

/// Counts the rows that are filled from the top down without a gap, in the
/// values read from one column: it stops at the first row without a cell
/// or with nothing but white space in its first cell.
pub fn count_existing_rows_in_col(values: &Vec<Vec<String>>) -> (count: u32)
    requires
        values.len() <= u32::MAX,
    ensures
        count == filled_rows(values.deep_view()),
{
    let mut n: u32 = 0;
    let mut i: usize = 0;
    while i < values.len()
        invariant
            i <= values.len(),
            values.len() <= u32::MAX,
            n == i,
            forall|k: int| 0 <= k < i ==> row_filled(#[trigger] values.deep_view()[k]),
        decreases values.len() - i,
    {
        let row = &values[i];
        let filled = row.len() > 0 && !is_blank(row[0].as_str());
        proof {
            assert(values.deep_view()[i as int] == row.deep_view());
            if row.len() > 0 {
                assert(row.deep_view()[0] == row@[0]@);
            }
            assert(filled == row_filled(values.deep_view()[i as int]));
        }
        if !filled {
            proof {
                lemma_filled_rows_is(values.deep_view(), i as int);
            }
            return n;
        }
        n += 1;
        i += 1;
    }
    proof {
        lemma_filled_rows_is(values.deep_view(), i as int);
    }
    n
}

/// Where a batch of values is written into the spreadsheet `spreadsheet_id`.
pub fn batch_update_url(spreadsheet_id: &str) -> (url: String)
    ensures
        url@ == batch_update_url_text(spreadsheet_id@),
{
    let mut out = "https://sheets.googleapis.com/v4/spreadsheets/".to_owned();
    out.append(spreadsheet_id);
    out.append("/values:batchUpdate");
    out
}

/// What is sent to have `updates` written in one call: the values as they
/// are, to be read as a user's typing.
pub fn values_batch_update(updates: Vec<ValueRange>) -> (request: BatchUpdateReq)
    ensures
        request.data == updates,
        request.value_input_option@ == input_option_text(),
{
    BatchUpdateReq { value_input_option: "USER_ENTERED".to_owned(), data: updates }
}

} // verus!
