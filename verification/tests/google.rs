use receipt_tui::google::auth::{access_token, scopes};
use receipt_tui::google::drive::{
    copy_request, copy_url, created_id, export_url, file_meta_url, images_query, list_images_url,
    resolve_sheet_id, upload_metadata, upload_url, DriveError, FileMeta, ShortcutDetails,
};
use receipt_tui::google::sheets::{
    batch_update_url, column_range, count_existing_rows_in_col, get_first_sheet_title_and_rows,
    is_success, spreadsheet_url, values_batch_update, values_url, CellValue, GridProps, Sheet,
    SheetProps, SheetsError, Spreadsheet, ValueRange,
};
use receipt_tui::google::token_store::FileTokenStorage;

const SHEET: &str = "application/vnd.google-apps.spreadsheet";
const SHORTCUT: &str = "application/vnd.google-apps.shortcut";

fn meta(mime: &str, target: Option<(&str, &str)>) -> FileMeta {
    FileMeta {
        mime_type: String::from(mime),
        shortcut_details: target.map(|(id, mime)| ShortcutDetails {
            target_id: String::from(id),
            target_mime_type: String::from(mime),
        }),
    }
}

fn rows(cells: &[&[&str]]) -> Vec<Vec<String>> {
    cells.iter().map(|row| row.iter().map(|c| String::from(*c)).collect()).collect()
}

fn sheet(title: &str, grid: Option<Option<u32>>) -> Sheet {
    Sheet {
        properties: SheetProps {
            title: String::from(title),
            grid_properties: grid.map(|row_count| GridProps { row_count }),
        },
    }
}

#[test]
fn the_scopes_are_drive_and_spreadsheets() {
    assert_eq!(
        scopes(),
        vec![
            "https://www.googleapis.com/auth/drive",
            "https://www.googleapis.com/auth/spreadsheets",
        ]
    );
}

#[test]
fn a_grant_without_token_is_an_error() {
    assert_eq!(access_token(Some("ya29.abc")), Ok(String::from("ya29.abc")));
    assert_eq!(access_token(Some("")), Ok(String::new()));
    assert_eq!(access_token(None), Err(String::from("no access token")));
}

#[test]
fn the_listing_asks_for_images_of_the_folder() {
    assert_eq!(
        images_query("F1"),
        "'F1' in parents and trashed=false and mimeType contains 'image/'"
    );
    assert_eq!(
        list_images_url("F1"),
        "https://www.googleapis.com/drive/v3/files?q=%27F1%27%20in%20parents%20and%20trashed%3Dfalse%20and%20mimeType%20contains%20%27image%2F%27&fields=files(id,name)"
    );
}

#[test]
fn the_query_goes_percent_encoded() {
    // Unreserved characters stay; everything else is written as % and
    // two upper-case hexadecimal digits, byte by byte.
    let url = list_images_url("aZ09-._~");
    assert!(url.contains("q=%27aZ09-._~%27%20in"), "{url}");
    let url = list_images_url("é/ +%");
    assert!(url.contains("q=%27%C3%A9%2F%20%2B%25%27%20in"), "{url}");
    let url = list_images_url("フォルダ");
    assert!(
        url.contains("q=%27%E3%83%95%E3%82%A9%E3%83%AB%E3%83%80%27%20in"),
        "{url}"
    );
}

#[test]
fn the_addresses_of_the_file_store() {
    assert_eq!(
        file_meta_url("abc"),
        "https://www.googleapis.com/drive/v3/files/abc?fields=mimeType,shortcutDetails(targetId,targetMimeType)"
    );
    assert_eq!(copy_url("abc"), "https://www.googleapis.com/drive/v3/files/abc/copy?fields=id");
    assert_eq!(
        export_url("abc"),
        "https://www.googleapis.com/drive/v3/files/abc/export?mimeType=application/pdf"
    );
    assert_eq!(
        upload_url(),
        "https://www.googleapis.com/upload/drive/v3/files?uploadType=multipart&fields=id"
    );
}

#[test]
fn a_spreadsheet_resolves_to_itself() {
    assert_eq!(resolve_sheet_id("S1", meta(SHEET, None)), Ok(String::from("S1")));
    // Details of a shortcut are of no account for a spreadsheet.
    assert_eq!(resolve_sheet_id("S1", meta(SHEET, Some(("T", "x")))), Ok(String::from("S1")));
}

#[test]
fn a_shortcut_resolves_to_its_target_sheet() {
    assert_eq!(
        resolve_sheet_id("L1", meta(SHORTCUT, Some(("T9", SHEET)))),
        Ok(String::from("T9"))
    );
}

#[test]
fn what_is_no_sheet_fails_loudly() {
    let missing = resolve_sheet_id("L1", meta(SHORTCUT, None));
    assert_eq!(missing, Err(DriveError::ShortcutDetailsMissing));
    assert_eq!(
        missing.unwrap_err().message(),
        "shortcutDetails missing for template_sheet_id"
    );

    let wrong_target = resolve_sheet_id("L1", meta(SHORTCUT, Some(("T9", "application/pdf"))));
    assert_eq!(
        wrong_target,
        Err(DriveError::ShortcutTargetNotSheet { target_mime_type: String::from("application/pdf") })
    );
    assert_eq!(
        wrong_target.unwrap_err().message(),
        "template_sheet_id must point to a Google Sheets file (shortcut target is application/pdf)"
    );

    let folder = resolve_sheet_id("D1", meta("application/vnd.google-apps.folder", None));
    assert_eq!(
        folder,
        Err(DriveError::NotSheet { mime_type: String::from("application/vnd.google-apps.folder") })
    );
    assert_eq!(
        folder.unwrap_err().message(),
        "template_sheet_id must point to a Google Sheets file (got application/vnd.google-apps.folder)"
    );
    assert_eq!(
        resolve_sheet_id("D1", meta("", None)),
        Err(DriveError::NotSheet { mime_type: String::new() })
    );
}

#[test]
fn a_copy_names_its_parents_only_when_given() {
    let plain = copy_request("New", None);
    assert_eq!(plain.name, "New");
    assert_eq!(plain.parents, None);
    let placed = copy_request("New", Some("FOLDER"));
    assert_eq!(placed.name, "New");
    assert_eq!(placed.parents, Some(vec![String::from("FOLDER")]));
}

#[test]
fn an_answer_without_id_is_an_error() {
    assert_eq!(created_id(Some(String::from("X"))), Ok(String::from("X")));
    assert_eq!(created_id(None), Err(DriveError::NoId));
    assert_eq!(DriveError::NoId.message(), "no id");
}

#[test]
fn an_upload_is_described_as_a_pdf_in_its_folder() {
    let meta = upload_metadata("OUT", "2025-12_x.pdf");
    assert_eq!(meta.name, "2025-12_x.pdf");
    assert_eq!(meta.parents, vec![String::from("OUT")]);
    assert_eq!(meta.mime_type, "application/pdf");
}

#[test]
fn the_addresses_of_the_spreadsheet_service() {
    assert_eq!(
        spreadsheet_url("S1"),
        "https://sheets.googleapis.com/v4/spreadsheets/S1?fields=sheets(properties(title,gridProperties(rowCount)))"
    );
    assert_eq!(
        batch_update_url("S1"),
        "https://sheets.googleapis.com/v4/spreadsheets/S1/values:batchUpdate"
    );
    assert_eq!(column_range("Sheet1", "B", 44), "Sheet1!B44:B");
    assert_eq!(column_range("シート1", "AA", 1), "シート1!AA1:AA");
    assert_eq!(
        values_url("S1", "Sheet 1!B44:B"),
        "https://sheets.googleapis.com/v4/spreadsheets/S1/values/Sheet%201%21B44%3AB"
    );
    assert_eq!(
        values_url("S1", "シート1!B44:B"),
        "https://sheets.googleapis.com/v4/spreadsheets/S1/values/%E3%82%B7%E3%83%BC%E3%83%881%21B44%3AB"
    );
}

#[test]
fn the_first_sheet_gives_title_and_rows() {
    let ss = Spreadsheet { sheets: vec![sheet("Main", Some(Some(250))), sheet("Other", None)] };
    assert_eq!(get_first_sheet_title_and_rows(&ss), Ok((String::from("Main"), 250)));
}

#[test]
fn a_sheet_without_size_is_taken_to_have_a_thousand_rows() {
    let no_grid = Spreadsheet { sheets: vec![sheet("A", None)] };
    assert_eq!(get_first_sheet_title_and_rows(&no_grid), Ok((String::from("A"), 1000)));
    let no_count = Spreadsheet { sheets: vec![sheet("A", Some(None))] };
    assert_eq!(get_first_sheet_title_and_rows(&no_count), Ok((String::from("A"), 1000)));
    let zero = Spreadsheet { sheets: vec![sheet("", Some(Some(0)))] };
    assert_eq!(get_first_sheet_title_and_rows(&zero), Ok((String::new(), 0)));
}

#[test]
fn a_spreadsheet_without_sheets_is_an_error() {
    let empty = Spreadsheet { sheets: vec![] };
    assert_eq!(get_first_sheet_title_and_rows(&empty), Err(SheetsError::NoSheets));
    assert_eq!(SheetsError::NoSheets.message(), "no sheets");
}

#[test]
fn counting_stops_at_the_first_empty_cell() {
    assert_eq!(count_existing_rows_in_col(&rows(&[])), 0);
    assert_eq!(count_existing_rows_in_col(&rows(&[&["2025-12-01"]])), 1);
    assert_eq!(count_existing_rows_in_col(&rows(&[&["a"], &["b"], &["c"]])), 3);
    assert_eq!(count_existing_rows_in_col(&rows(&[&["a"], &[""], &["c"]])), 1);
    assert_eq!(count_existing_rows_in_col(&rows(&[&["a"], &[], &["c"]])), 1);
    assert_eq!(count_existing_rows_in_col(&rows(&[&[""], &["b"]])), 0);
    assert_eq!(count_existing_rows_in_col(&rows(&[&[], &["b"]])), 0);
}

#[test]
fn a_cell_of_white_space_counts_as_empty() {
    assert_eq!(count_existing_rows_in_col(&rows(&[&["a"], &["   "], &["c"]])), 1);
    assert_eq!(count_existing_rows_in_col(&rows(&[&["a"], &["\t\u{3000}"], &["c"]])), 1);
    assert_eq!(count_existing_rows_in_col(&rows(&[&[" a "], &["b"]])), 2);
    // Only the first cell of a row counts.
    assert_eq!(count_existing_rows_in_col(&rows(&[&["a", ""], &["", "x"], &["c"]])), 1);
}

#[test]
fn a_batch_is_sent_as_typed_by_a_user() {
    let updates = vec![ValueRange {
        range: String::from("S!A1"),
        values: vec![vec![CellValue::Number(5), CellValue::Text(String::from("x"))]],
    }];
    let request = values_batch_update(updates);
    assert_eq!(request.value_input_option, "USER_ENTERED");
    assert_eq!(
        request.data,
        vec![ValueRange {
            range: String::from("S!A1"),
            values: vec![vec![CellValue::Number(5), CellValue::Text(String::from("x"))]],
        }]
    );
    assert!(values_batch_update(vec![]).data.is_empty());
}

#[test]
fn only_the_two_hundreds_are_success() {
    assert!(!is_success(199));
    assert!(is_success(200));
    assert!(is_success(204));
    assert!(is_success(299));
    assert!(!is_success(300));
    assert!(!is_success(404));
    assert!(!is_success(0));
    assert!(!is_success(u16::MAX));
}

#[test]
fn a_failed_call_is_told_with_status_and_body() {
    let failed = SheetsError::Http {
        status: String::from("404 Not Found"),
        body: String::from("{\"error\":1}"),
    };
    assert_eq!(failed.message(), "HTTP status 404 Not Found error: {\"error\":1}");
    let bare = SheetsError::Http { status: String::from("500"), body: String::new() };
    assert_eq!(bare.message(), "HTTP status 500 error: ");
}

#[test]
fn the_key_of_the_scopes_is_a_hash_in_base64() {
    let list = scopes();
    assert_eq!(
        FileTokenStorage::scopes_key(&list),
        "7mO3zL1p9VSiKDbI3aNpaUTZuUGLjaf5NKuAb7zPr84"
    );
    assert_eq!(
        FileTokenStorage::entry_key(&list),
        "oauth_token:7mO3zL1p9VSiKDbI3aNpaUTZuUGLjaf5NKuAb7zPr84"
    );
    assert_eq!(FileTokenStorage::scopes_key(&[]), "47DEQpj8HBSa-_TImW-5JCeuQeRkm5NMpJWZG3hSuFU");
    assert_eq!(FileTokenStorage::scopes_key(&["a"]), "ypeBEsobvcr6wjGzmiPcTaeG7_gUfE5yuYB3ha_uSLs");
    assert_eq!(
        FileTokenStorage::scopes_key(&["a", "b"]),
        "yGh6CKpdbtIEQyj6aml6uOltw0KR6MIDSujDjm_MbWU"
    );
}

#[test]
fn the_key_ignores_order_and_repeats() {
    let expected = "yGh6CKpdbtIEQyj6aml6uOltw0KR6MIDSujDjm_MbWU";
    assert_eq!(FileTokenStorage::scopes_key(&["b", "a"]), expected);
    assert_eq!(FileTokenStorage::scopes_key(&["b", "a", "a"]), expected);
    assert_eq!(FileTokenStorage::scopes_key(&["a", "b", "a", "b", "b"]), expected);
    assert_ne!(FileTokenStorage::scopes_key(&["a", "c"]), expected);
    assert_ne!(FileTokenStorage::scopes_key(&["ab"]), expected);
    assert_eq!(
        FileTokenStorage::scopes_key(&["é", "z", "Z", "ab", "a"]),
        "Frxt2aN6kUyHAji3J4HVrDADU_awXgwsde5ZJzitObU"
    );
    let list = scopes();
    let reversed: Vec<&str> = list.iter().rev().copied().collect();
    assert_eq!(FileTokenStorage::entry_key(&reversed), FileTokenStorage::entry_key(&list));
}

#[test]
fn the_store_remembers_its_file() {
    let storage = FileTokenStorage::new(String::from("token.json"));
    assert_eq!(storage.file_path(), "token.json");
    assert_eq!(storage.clone(), storage);
}

fn escaped(text: &str) -> String {
    let mut out = String::new();
    for byte in text.bytes() {
        let keep = byte.is_ascii_alphanumeric() || matches!(byte, b'-' | b'.' | b'_' | b'~');
        if keep {
            out.push(byte as char);
        } else {
            out.push('%');
            out.push_str(&format!("{byte:02X}"));
        }
    }
    out
}

#[test]
fn every_byte_is_kept_or_written_in_upper_case_hexadecimal() {
    let prefix = "https://sheets.googleapis.com/v4/spreadsheets/S/values/";
    // Every ASCII character on its own, then some texts of several bytes
    // per character.
    for code in 0u8..128 {
        let text = String::from(code as char);
        assert_eq!(values_url("S", &text), format!("{prefix}{}", escaped(&text)), "{code}");
    }
    for text in ["", "aé", "立替経費精算書", "ß~ü", "\u{7ff}\u{800}\u{ffff}\u{10000}\u{10ffff}", "a b+c/d?e=f&g"] {
        assert_eq!(values_url("S", text), format!("{prefix}{}", escaped(text)), "{text:?}");
    }
    assert_eq!(values_url("S", "\u{0}"), format!("{prefix}%00"));
    assert_eq!(values_url("S", "\u{7f}"), format!("{prefix}%7F"));
    assert_eq!(values_url("S", "ÿ"), format!("{prefix}%C3%BF"));
}

#[test]
fn a_key_is_forty_three_characters_of_the_url_alphabet() {
    let samples: [&[&str]; 4] = [&[], &["a"], &["b", "a", "a"], &["é", "z", "Z", "ab", "a"]];
    for scopes in samples {
        let key = FileTokenStorage::scopes_key(scopes);
        assert_eq!(key.chars().count(), 43, "{key}");
        assert!(
            key.chars().all(|c| c.is_ascii_alphanumeric() || c == '-' || c == '_'),
            "{key}"
        );
        let entry = FileTokenStorage::entry_key(scopes);
        assert_eq!(entry.chars().count(), 55, "{entry}");
        assert_eq!(entry.strip_prefix("oauth_token:"), Some(key.as_str()));
    }
}
