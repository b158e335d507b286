use receipt_tui::config::Config;
use receipt_tui::google::sheets::{CellValue, ValueRange};
use receipt_tui::jobs::ReceiptFields;
use receipt_tui::worker::plan::{
    build_updates, cell_address, month_date, pdf_name, row_range, safe_name, sheet_name,
};

#[test]
fn the_safe_name_has_no_white_space() {
    assert_eq!(safe_name("Yamada Taro"), "YamadaTaro");
    assert_eq!(safe_name(" A  B "), "AB");
    assert_eq!(safe_name("山田 太郎"), "山田太郎");
    assert_eq!(safe_name(""), "");
    // Tabs, line breaks and wide blanks go as well.
    assert_eq!(safe_name("山田\u{3000}太郎"), "山田太郎");
    assert_eq!(safe_name("A\tB\nC\u{a0}D"), "ABCD");
    assert_eq!(safe_name(" \t "), "");
    // What only looks like a gap stays.
    assert_eq!(safe_name("A\u{200b}B_C-D"), "A\u{200b}B_C-D");
}

#[test]
fn the_sheet_is_named_after_month_and_user() {
    assert_eq!(sheet_name("2025-12", "Yamada Taro"), "立替経費精算書_202512_YamadaTaro");
    assert_eq!(sheet_name("2026-01", "Your Name"), "立替経費精算書_202601_YourName");
    assert_eq!(sheet_name("", ""), "立替経費精算書__");
}

#[test]
fn the_pdf_is_named_after_month_and_user() {
    assert_eq!(pdf_name("2025-12", "Yamada Taro"), "2025-12_立替経費精算書_YamadaTaro.pdf");
    assert_eq!(pdf_name("2026-01", "X"), "2026-01_立替経費精算書_X.pdf");
    assert_eq!(pdf_name("2026-01", "山田\u{3000}太郎"), "2026-01_立替経費精算書_山田太郎.pdf");
}

#[test]
fn the_month_is_written_as_its_first_day() {
    assert_eq!(month_date("2025-12"), "2025-12-01");
    assert_eq!(month_date("2026-01"), "2026-01-01");
}

#[test]
fn ranges_carry_the_sheet_name() {
    assert_eq!(cell_address("Sheet1", "F3"), "Sheet1!F3");
    assert_eq!(row_range("Sheet1", "B", "F", 44), "Sheet1!B44:F44");
    assert_eq!(row_range("経費", "B", "F", 105), "経費!B105:F105");
    assert_eq!(row_range("S", "A", "A", 0), "S!A0:A0");
}

#[test]
fn the_next_row_may_exceed_thirty_two_bits() {
    let mut cfg = Config::default();
    cfg.general_expense.start_row = u32::MAX;
    let updates = build_updates(&cfg, &ReceiptFields::default(), "2025-12", "S", u32::MAX);
    assert_eq!(updates[2].range, "S!B8589934590:F8589934590");
}

#[test]
fn a_commit_writes_name_month_and_one_row() {
    let cfg = Config::default();
    let fields = ReceiptFields {
        date_ymd: String::from("2025-12-19"),
        reason: String::from("Lunch"),
        amount_yen: -980,
        category: String::from("Meals"),
        note: String::new(),
    };
    let updates = build_updates(&cfg, &fields, "2025-12", "精算書", 0);
    assert_eq!(
        updates,
        vec![
            ValueRange {
                range: String::from("精算書!F3"),
                values: vec![vec![CellValue::Text(String::from("Your Name"))]],
            },
            ValueRange {
                range: String::from("精算書!B3"),
                values: vec![vec![CellValue::Text(String::from("2025-12-01"))]],
            },
            ValueRange {
                range: String::from("精算書!B44:F44"),
                values: vec![vec![
                    CellValue::Text(String::from("2025-12-19")),
                    CellValue::Text(String::from("Lunch")),
                    CellValue::Number(-980),
                    CellValue::Text(String::from("Meals")),
                    CellValue::Text(String::new()),
                ]],
            },
        ]
    );
}
