use receipt_tui::app::render::{
    build_edit_info_text, build_error_text, build_info_text, build_input_help,
    build_main_info_text, build_status_bar, build_wizard_text, count_done, format_keys,
    get_help_text, job_row, status_str,
};
use receipt_tui::app::{handle_worker_event, App};
use receipt_tui::config::Config;
use receipt_tui::events::Screen;
use receipt_tui::jobs::{Job, JobStatus};
use receipt_tui::shortcuts::Shortcuts;
use receipt_tui::worker::WorkerEvent;

fn shown(names: &[&str]) -> App {
    let mut cfg = Config::default();
    cfg.google.input_folder_id = String::from("IN");
    cfg.google.output_folder_id = String::from("OUT");
    cfg.google.template_sheet_id = String::from("TPL");
    cfg.user.full_name = String::from("Yamada Taro");
    let mut app = App::new(cfg, Shortcuts::default(), String::from("2025-12"));
    let jobs = names
        .iter()
        .map(|n| {
            let mut job = Job::new(format!("id-{n}"), String::from(*n));
            job.status = JobStatus::WaitingUserFix;
            job
        })
        .collect();
    handle_worker_event(&mut app, WorkerEvent::JobsLoaded(jobs));
    app
}

#[test]
fn every_stage_has_its_label() {
    assert_eq!(status_str(&JobStatus::Queued), "Queued");
    assert_eq!(status_str(&JobStatus::WaitingUserFix), "Edit");
    assert_eq!(status_str(&JobStatus::WritingSheet), "WriteSheet");
    assert_eq!(status_str(&JobStatus::ExportingPdf), "ExportPdf");
    assert_eq!(status_str(&JobStatus::UploadingPdf), "UploadPdf");
    assert_eq!(status_str(&JobStatus::Done), "Done");
    assert_eq!(status_str(&JobStatus::Error(String::from("no sheets"))), "Error: no sheets");
}

#[test]
fn keys_are_shown_with_slashes() {
    assert_eq!(format_keys(&[]), "");
    assert_eq!(format_keys(&[String::from("q")]), "q");
    assert_eq!(format_keys(&[String::from("Down"), String::from("j")]), "Down/j");
}

#[test]
fn each_screen_has_its_help_line() {
    let s = Shortcuts::default();
    assert_eq!(
        get_help_text(&Screen::Main, &s),
        "q: quit | r: refresh | t: settings | Enter: edit | Up/k/Down/j↑: navigate"
    );
    assert_eq!(
        get_help_text(&Screen::Settings, &s),
        "i: input folder | o: output folder | p: template | n: name | Enter: save | Esc: cancel"
    );
    assert_eq!(
        get_help_text(&Screen::EditJob, &s),
        "e: edit field | Tab: next field | m: month | Enter: commit | Esc: cancel"
    );
    assert_eq!(
        get_help_text(&Screen::InitialSetup, &s),
        "Follow wizard steps | Enter: proceed | Esc: skip step"
    );
}

#[test]
fn the_status_bar_counts_the_jobs_that_are_done() {
    let mut app = shown(&["a", "b", "c"]);
    assert_eq!(build_status_bar(&app), "[Main] Jobs: 3 total, 0 done | Loaded 3 jobs");
    app.jobs[0].status = JobStatus::Done;
    app.jobs[2].status = JobStatus::Done;
    app.jobs[1].status = JobStatus::Error(String::from("x"));
    assert_eq!(count_done(&app.jobs), 2);
    app.ui.screen = Screen::EditJob;
    assert_eq!(build_status_bar(&app), "[EditJob] Jobs: 3 total, 2 done | Loaded 3 jobs");
    app.ui.screen = Screen::Settings;
    app.ui.error = Some(String::from("broken"));
    assert_eq!(build_status_bar(&app), "[Settings] Jobs: 3 total, 2 done | ERROR: broken");
    let mut setup = shown(&[]);
    setup.ui.screen = Screen::InitialSetup;
    assert_eq!(build_status_bar(&setup), "[Setup] Jobs: 0 total, 0 done | Loaded 0 jobs");
    assert_eq!(count_done(&[].to_vec()), 0);
}

#[test]
fn the_overview_shows_selection_settings_and_log() {
    let mut app = shown(&["a.png", "b.png"]);
    app.ui.selected = 1;
    app.ui.log = vec![String::from("first"), String::from("second")];
    assert_eq!(
        build_main_info_text(&app),
        "Selected: b.png\nSelected ID: id-b.png\n\nIn: IN\nOut: OUT\nTpl: TPL\nName: Yamada Taro\nMonth: 2025-12\n\nLog:\nfirst\nsecond"
    );
    assert_eq!(build_info_text(&app), build_main_info_text(&app));
}

#[test]
fn the_overview_shows_dashes_without_a_selection() {
    let app = shown(&[]);
    assert_eq!(
        build_main_info_text(&app),
        "Selected: -\nSelected ID: -\n\nIn: IN\nOut: OUT\nTpl: TPL\nName: Yamada Taro\nMonth: 2025-12\n\nLog:\n"
    );
}

#[test]
fn the_overview_shows_the_last_eight_remarks() {
    let mut app = shown(&[]);
    app.ui.log = (1..=11).map(|i| format!("r{i}")).collect();
    let text = build_main_info_text(&app);
    assert!(text.ends_with("\n\nLog:\nr4\nr5\nr6\nr7\nr8\nr9\nr10\nr11"), "{text}");
    app.ui.log.truncate(8);
    let text = build_main_info_text(&app);
    assert!(text.ends_with("\n\nLog:\nr1\nr2\nr3\nr4\nr5\nr6\nr7\nr8"), "{text}");
}

#[test]
fn the_edit_panel_marks_the_field_in_turn() {
    let mut app = shown(&["a.png"]);
    app.ui.screen = Screen::EditJob;
    app.ui.editing_field_idx = 2;
    app.jobs[0].fields.date_ymd = String::from("2025-12-19");
    app.jobs[0].fields.reason = String::from("Taxi");
    app.jobs[0].fields.amount_yen = 1200;
    app.jobs[0].fields.category = String::from("Travel");
    assert_eq!(
        build_edit_info_text(&app),
        "Editing: a.png\n\nFields (use Tab to navigate):\n  [0] Date: 2025-12-19\n  [1] Reason: Taxi\n→ [2] Amount: 1200\n  [3] Category: Travel\n  [4] Note: \n\nTarget Month: 2025-12"
    );
    assert_eq!(build_info_text(&app), build_edit_info_text(&app));
    app.ui.editing_field_idx = 7;
    assert!(!build_edit_info_text(&app).contains('→'));
    app.ui.selected = 3;
    assert_eq!(build_edit_info_text(&app), "No job selected");
}

#[test]
fn the_wizard_shows_step_and_prompt() {
    let mut app = shown(&[]);
    app.wizard_state.next_step();
    assert_eq!(
        build_wizard_text(&app),
        "=== Initial Setup Wizard ===\n\nStep 2/7\n\nGoogle OAuth認証の確認中...\n\ncredentials.json が必要です。\nEnterキーで次へ進みます。\n\nPress Enter to proceed, ESC to skip step."
    );
}

#[test]
fn a_row_of_the_list_shows_number_name_stage_amount_and_date() {
    let mut job = Job::new(String::from("id"), String::from("a.png"));
    job.fields.amount_yen = -300;
    job.fields.date_ymd = String::from("2025-12-01");
    job.status = JobStatus::UploadingPdf;
    assert_eq!(job_row(0, &job), vec!["1", "a.png", "UploadPdf", "-300", "2025-12-01"]);
    assert_eq!(job_row(41, &job)[0], "42");
}

#[test]
fn errors_and_input_help_have_their_fixed_texts() {
    assert_eq!(build_error_text("Required fields are missing."), "ERROR: Required fields are missing.");
    assert_eq!(build_error_text(""), "ERROR: ");
    assert_eq!(build_input_help(), "Enter=確定 | ESC=キャンセル | Ctrl+U=クリア");
}
