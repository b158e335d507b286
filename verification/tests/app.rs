use receipt_tui::app::handlers::{
    apply_input_callback, dispatch_key, handle_edit_job_key, handle_input_box_key, handle_key,
    handle_main_key, handle_settings_key, handle_wizard_key, reload_settings_buffers,
};
use receipt_tui::app::{
    current_target_month, format_target_month, handle_worker_event, needs_initial_setup,
    request_initial_refresh, request_refresh, App, Effect,
};
use receipt_tui::config::Config;
use receipt_tui::events::Screen;
use receipt_tui::input::{InputBoxState, InputCallbackId};
use receipt_tui::jobs::{Job, JobStatus, ReceiptFields};
use receipt_tui::shortcuts::{KeyCode, KeyEvent, KeyModifiers, Shortcuts};
use receipt_tui::wizard::WizardStep;
use receipt_tui::worker::{WorkerCmd, WorkerEvent};

fn ready_settings() -> Config {
    let mut cfg = Config::default();
    cfg.google.input_folder_id = String::from("IN");
    cfg.google.output_folder_id = String::from("OUT");
    cfg.google.template_sheet_id = String::from("TPL");
    cfg.user.full_name = String::from("Yamada Taro");
    cfg
}

fn fresh(cfg: Config) -> App {
    App::new(cfg, Shortcuts::default(), String::from("2025-12"))
}

fn press(code: KeyCode) -> KeyEvent {
    KeyEvent::new(code, KeyModifiers::empty())
}

fn job(id: u128, name: &str) -> Job {
    let mut job = Job::new(format!("file-{name}"), String::from(name));
    job.id = id;
    job.status = JobStatus::WaitingUserFix;
    job
}

fn with_jobs(names: &[&str]) -> App {
    let mut app = fresh(ready_settings());
    let jobs = names.iter().enumerate().map(|(i, n)| job(i as u128 + 1, n)).collect();
    handle_worker_event(&mut app, WorkerEvent::JobsLoaded(jobs));
    app
}

fn type_text(app: &mut App, text: &str) {
    for c in text.chars() {
        let out = handle_key(app, press(KeyCode::Char(c)), true);
        assert!(!out.quit);
        assert!(out.effects.is_empty());
    }
}

#[test]
fn the_wizard_is_due_until_all_is_entered() {
    assert!(needs_initial_setup(&Config::default()));
    assert!(!needs_initial_setup(&ready_settings()));
    let mut cfg = ready_settings();
    cfg.user.full_name = String::from("Your Name");
    assert!(needs_initial_setup(&cfg));
    for missing in 0..3 {
        let mut cfg = ready_settings();
        match missing {
            0 => cfg.google.input_folder_id.clear(),
            1 => cfg.google.output_folder_id.clear(),
            _ => cfg.google.template_sheet_id.clear(),
        }
        assert!(needs_initial_setup(&cfg));
    }
    let mut cfg = ready_settings();
    cfg.user.full_name = String::new();
    assert!(!needs_initial_setup(&cfg));
}

#[test]
fn a_fresh_start_shows_the_wizard_or_the_list() {
    let app = fresh(Config::default());
    assert_eq!(app.ui.screen, Screen::InitialSetup);
    let app = fresh(ready_settings());
    assert_eq!(app.ui.screen, Screen::Main);
    assert_eq!(app.ui.selected, 0);
    assert!(app.ui.log.is_empty());
    assert_eq!(app.ui.status, "Ready");
    assert_eq!(app.ui.editing_field_idx, 0);
    assert_eq!(app.ui.error, None);
    assert!(app.jobs.is_empty());
    assert_eq!(app.in_folder, "IN");
    assert_eq!(app.out_folder, "OUT");
    assert_eq!(app.template_id, "TPL");
    assert_eq!(app.full_name, "Yamada Taro");
    assert_eq!(app.edit_target_month, "2025-12");
    assert_eq!(app.input_box, None);
    assert_eq!(app.wizard_state.current_step, WizardStep::Welcome);
    assert_eq!(app.cfg, ready_settings());
    assert!(app.is_well_formed());
}

#[test]
fn the_target_month_is_year_and_two_digit_month() {
    assert_eq!(format_target_month(2025, 12), "2025-12");
    assert_eq!(format_target_month(2026, 1), "2026-01");
    assert_eq!(format_target_month(999, 9), "999-09");
    assert_eq!(format_target_month(-44, 3), "-44-03");
    assert_eq!(format_target_month(0, 0), "0-00");
    assert_eq!(format_target_month(2025, 123), "2025-123");
}

#[test]
fn the_current_target_month_has_the_shape_of_a_month() {
    let text = current_target_month();
    let (year, month) = text.rsplit_once('-').expect("a hyphen");
    assert!(year.parse::<i32>().unwrap() >= 2024, "{text}");
    assert_eq!(month.len(), 2, "{text}");
    let month: u32 = month.parse().unwrap();
    assert!((1..=12).contains(&month), "{text}");
}

#[test]
fn loaded_jobs_replace_all_jobs() {
    let mut app = with_jobs(&["a.png", "b.png", "c.png"]);
    assert_eq!(app.ui.status, "Loaded 3 jobs");
    app.ui.selected = 2;
    handle_worker_event(&mut app, WorkerEvent::JobsLoaded(vec![job(10, "x.png")]));
    assert_eq!(app.jobs, vec![job(10, "x.png")]);
    assert_eq!(app.ui.selected, 0);
    assert_eq!(app.ui.status, "Loaded 1 jobs");
    // Nothing of the first list is left, also where the second is empty.
    handle_worker_event(&mut app, WorkerEvent::JobsLoaded(vec![]));
    assert!(app.jobs.is_empty());
    assert_eq!(app.ui.status, "Loaded 0 jobs");
}

#[test]
fn a_report_moves_the_job_it_names() {
    let mut app = with_jobs(&["a.png", "b.png"]);
    handle_worker_event(
        &mut app,
        WorkerEvent::JobUpdated { job_id: 2, status: JobStatus::WritingSheet },
    );
    assert_eq!(app.jobs[0].status, JobStatus::WaitingUserFix);
    assert_eq!(app.jobs[1].status, JobStatus::WritingSheet);
    handle_worker_event(
        &mut app,
        WorkerEvent::JobUpdated { job_id: 2, status: JobStatus::Error(String::from("boom")) },
    );
    assert_eq!(app.jobs[1].status, JobStatus::Error(String::from("boom")));
    assert_eq!(app.jobs[1].filename, "b.png");
    assert_eq!(app.jobs[1].id, 2);
}

#[test]
fn a_report_on_an_unknown_job_changes_nothing() {
    let mut app = with_jobs(&["a.png"]);
    let before = format!("{app:?}");
    handle_worker_event(&mut app, WorkerEvent::JobUpdated { job_id: 99, status: JobStatus::Done });
    assert_eq!(format!("{app:?}"), before);
}

#[test]
fn of_two_jobs_with_one_id_the_first_is_moved() {
    let mut app = fresh(ready_settings());
    handle_worker_event(&mut app, WorkerEvent::JobsLoaded(vec![job(5, "a"), job(5, "b")]));
    handle_worker_event(&mut app, WorkerEvent::JobUpdated { job_id: 5, status: JobStatus::Done });
    assert_eq!(app.jobs[0].status, JobStatus::Done);
    assert_eq!(app.jobs[1].status, JobStatus::WaitingUserFix);
}

#[test]
fn remarks_go_to_the_log_and_errors_to_the_status() {
    let mut app = fresh(ready_settings());
    handle_worker_event(&mut app, WorkerEvent::Log(String::from("settings updated")));
    handle_worker_event(&mut app, WorkerEvent::Log(String::from("second")));
    assert_eq!(app.ui.log, vec!["settings updated", "second"]);
    assert_eq!(app.ui.status, "Ready");
    handle_worker_event(&mut app, WorkerEvent::Error(String::from("list failed: x")));
    assert_eq!(app.ui.status, "Error: list failed: x");
    assert_eq!(app.ui.error, None);
}

#[test]
fn a_refresh_is_sent_only_with_all_places_set() {
    let mut app = fresh(ready_settings());
    let out = request_refresh(&mut app);
    assert!(!out.quit);
    assert_eq!(out.effects, vec![Effect::Send(WorkerCmd::RefreshJobs)]);
    assert_eq!(app.ui.status, "Refreshing jobs...");

    let mut cfg = ready_settings();
    cfg.google.output_folder_id.clear();
    let mut app = fresh(cfg);
    let out = request_refresh(&mut app);
    assert!(out.effects.is_empty());
    assert_eq!(app.ui.status, "Settings required (press t)");
}

#[test]
fn the_list_moves_its_selection_within_the_jobs() {
    let mut app = with_jobs(&["a", "b", "c"]);
    assert!(!handle_main_key(&mut app, press(KeyCode::Up)).quit);
    assert_eq!(app.ui.selected, 0);
    handle_main_key(&mut app, press(KeyCode::Down));
    handle_main_key(&mut app, press(KeyCode::Char('j')));
    assert_eq!(app.ui.selected, 2);
    handle_main_key(&mut app, press(KeyCode::Down));
    assert_eq!(app.ui.selected, 2);
    handle_main_key(&mut app, press(KeyCode::Char('k')));
    assert_eq!(app.ui.selected, 1);

    let mut empty = fresh(ready_settings());
    handle_main_key(&mut empty, press(KeyCode::Down));
    assert_eq!(empty.ui.selected, 0);
    handle_main_key(&mut empty, press(KeyCode::Enter));
    assert_eq!(empty.ui.screen, Screen::Main);
}

#[test]
fn the_list_opens_settings_job_and_refresh() {
    let mut app = with_jobs(&["a", "b"]);
    assert!(handle_main_key(&mut app, press(KeyCode::Char('q'))).quit);

    app.in_folder = String::from("scratch");
    let out = handle_main_key(&mut app, press(KeyCode::Char('t')));
    assert!(!out.quit && out.effects.is_empty());
    assert_eq!(app.ui.screen, Screen::Settings);
    assert_eq!(app.ui.status, "Settings");
    assert_eq!(app.in_folder, "IN");

    app.ui.screen = Screen::Main;
    let out = handle_main_key(&mut app, press(KeyCode::Char('r')));
    assert_eq!(out.effects, vec![Effect::Send(WorkerCmd::RefreshJobs)]);

    app.ui.editing_field_idx = 3;
    handle_main_key(&mut app, press(KeyCode::Enter));
    assert_eq!(app.ui.screen, Screen::EditJob);
    assert_eq!(app.ui.editing_field_idx, 0);

    let mut app = with_jobs(&["a"]);
    let before = format!("{app:?}");
    let out = handle_main_key(&mut app, press(KeyCode::Char('z')));
    assert!(!out.quit && out.effects.is_empty());
    assert_eq!(format!("{app:?}"), before);
}

#[test]
fn saving_settings_writes_and_sends_them() {
    let mut app = fresh(ready_settings());
    app.ui.screen = Screen::Settings;
    handle_key(&mut app, press(KeyCode::Char('i')), true);
    assert_eq!(
        app.input_box,
        Some(InputBoxState {
            prompt: String::from("Input folder ID:"),
            value: String::from("IN"),
            cursor: 2,
            callback_id: InputCallbackId::SettingsInputFolder,
        })
    );
    type_text(&mut app, "2");
    handle_key(&mut app, press(KeyCode::Enter), true);
    assert_eq!(app.input_box, None);
    assert_eq!(app.in_folder, "IN2");
    assert_eq!(app.cfg.google.input_folder_id, "IN");

    let out = handle_key(&mut app, press(KeyCode::Enter), true);
    let mut expected = ready_settings();
    expected.google.input_folder_id = String::from("IN2");
    assert_eq!(
        out.effects,
        vec![
            Effect::SaveConfig(expected.clone()),
            Effect::Send(WorkerCmd::SaveSettings(expected.clone())),
        ]
    );
    assert!(!out.quit);
    assert_eq!(app.cfg, expected);
    assert_eq!(app.ui.screen, Screen::Main);
    assert_eq!(app.ui.status, "Saved settings");
}

#[test]
fn leaving_the_settings_drops_the_edits() {
    let mut app = fresh(ready_settings());
    app.ui.screen = Screen::Settings;
    app.out_folder = String::from("other");
    app.full_name = String::from("Someone");
    let out = handle_settings_key(&mut app, press(KeyCode::Esc));
    assert!(out.effects.is_empty());
    assert_eq!(app.ui.screen, Screen::Main);
    assert_eq!(app.out_folder, "OUT");
    assert_eq!(app.full_name, "Yamada Taro");
    assert_eq!(app.cfg, ready_settings());
}

#[test]
fn every_setting_has_its_box() {
    let cases = [
        ('o', "Output folder ID:", "OUT", InputCallbackId::SettingsOutputFolder),
        ('p', "Template sheet ID:", "TPL", InputCallbackId::SettingsTemplateId),
        ('n', "Full name:", "Yamada Taro", InputCallbackId::SettingsFullName),
    ];
    for (key, prompt, value, id) in cases {
        let mut app = fresh(ready_settings());
        handle_settings_key(&mut app, press(KeyCode::Char(key)));
        assert_eq!(
            app.input_box,
            Some(InputBoxState {
                prompt: String::from(prompt),
                value: String::from(value),
                cursor: value.chars().count(),
                callback_id: id,
            })
        );
    }
    let mut app = fresh(ready_settings());
    reload_settings_buffers(&mut app);
    assert_eq!(app.full_name, "Yamada Taro");
}

#[test]
fn committing_sends_the_selected_job() {
    let mut app = with_jobs(&["a", "b"]);
    app.ui.selected = 1;
    app.ui.screen = Screen::EditJob;
    app.jobs[1].fields.amount_yen = 1200;
    app.jobs[1].fields.reason = String::from("Taxi");
    let out = handle_edit_job_key(&mut app, press(KeyCode::Enter));
    let mut fields = ReceiptFields::default();
    fields.amount_yen = 1200;
    fields.reason = String::from("Taxi");
    assert_eq!(
        out.effects,
        vec![Effect::Send(WorkerCmd::CommitJobEdits {
            job_id: 2,
            fields,
            target_month_ym: String::from("2025-12"),
        })]
    );
    assert_eq!(app.ui.screen, Screen::Main);
    assert_eq!(app.ui.status, "Committed (writing sheet/exporting pdf...)");

    let mut none = fresh(ready_settings());
    none.ui.screen = Screen::EditJob;
    let out = handle_edit_job_key(&mut none, press(KeyCode::Enter));
    assert!(out.effects.is_empty());
    assert_eq!(none.ui.screen, Screen::EditJob);
}

#[test]
fn tab_walks_through_the_five_fields() {
    let mut app = with_jobs(&["a"]);
    app.ui.screen = Screen::EditJob;
    let mut seen = Vec::new();
    for _ in 0..6 {
        handle_edit_job_key(&mut app, press(KeyCode::Tab));
        seen.push(app.ui.editing_field_idx);
    }
    assert_eq!(seen, vec![1, 2, 3, 4, 0, 1]);
    app.ui.editing_field_idx = 9;
    handle_edit_job_key(&mut app, press(KeyCode::Tab));
    assert_eq!(app.ui.editing_field_idx, 0);
    app.ui.editing_field_idx = usize::MAX;
    handle_edit_job_key(&mut app, press(KeyCode::Tab));
    assert_eq!(app.ui.editing_field_idx, ((usize::MAX % 5) + 1) % 5);
}

#[test]
fn every_field_is_edited_through_its_box() {
    let mut app = with_jobs(&["a"]);
    app.ui.screen = Screen::EditJob;
    app.jobs[0].fields.amount_yen = -5;
    let prompts =
        ["Date (YYYY-MM-DD):", "Reason:", "Amount (yen):", "Category:", "Note:"];
    let typed = ["2025-12-19", "Taxi", "1200", "Food", "ok"];
    for index in 0..5 {
        app.ui.editing_field_idx = index;
        handle_key(&mut app, press(KeyCode::Char('e')), true);
        let open = app.input_box.clone().expect("a box");
        assert_eq!(open.prompt, prompts[index]);
        assert_eq!(open.cursor, 0);
        assert_eq!(open.callback_id, InputCallbackId::EditJobField(index));
        assert_eq!(open.value, if index == 2 { "-5" } else { "" });
        if index == 2 {
            handle_key(&mut app, KeyEvent::new(KeyCode::Char('u'), KeyModifiers::control()), true);
        }
        type_text(&mut app, typed[index]);
        handle_key(&mut app, press(KeyCode::Enter), true);
        assert_eq!(app.input_box, None);
    }
    assert_eq!(
        app.jobs[0].fields,
        ReceiptFields {
            date_ymd: String::from("2025-12-19"),
            reason: String::from("Taxi"),
            amount_yen: 1200,
            category: String::from("Food"),
            note: String::from("ok"),
        }
    );
    app.ui.editing_field_idx = 5;
    handle_key(&mut app, press(KeyCode::Char('e')), true);
    assert_eq!(app.input_box, None);
}

#[test]
fn an_amount_that_is_no_number_becomes_zero() {
    for (text, amount) in [("12x", 0), ("", 0), ("-7", -7), ("+7", 7), ("99999999999999999999", 0)]
    {
        let mut app = with_jobs(&["a"]);
        app.jobs[0].fields.amount_yen = 55;
        apply_input_callback(&mut app, InputCallbackId::EditJobField(2), String::from(text));
        assert_eq!(app.jobs[0].fields.amount_yen, amount, "{text:?}");
    }
    let mut app = with_jobs(&["a"]);
    app.ui.selected = 4;
    let before = format!("{app:?}");
    apply_input_callback(&mut app, InputCallbackId::EditJobField(0), String::from("x"));
    apply_input_callback(&mut app, InputCallbackId::EditJobField(7), String::from("x"));
    assert_eq!(format!("{app:?}"), before);
}

#[test]
fn the_target_month_is_edited_through_its_box() {
    let mut app = with_jobs(&["a"]);
    app.ui.screen = Screen::EditJob;
    handle_key(&mut app, press(KeyCode::Char('m')), true);
    let open = app.input_box.clone().expect("a box");
    assert_eq!(open.prompt, "Target month (YYYY-MM):");
    assert_eq!(open.value, "2025-12");
    assert_eq!(open.cursor, 7);
    handle_key(&mut app, press(KeyCode::Backspace), true);
    type_text(&mut app, "1");
    handle_key(&mut app, press(KeyCode::Enter), true);
    assert_eq!(app.edit_target_month, "2025-11");
    handle_key(&mut app, press(KeyCode::Esc), true);
    assert_eq!(app.ui.screen, Screen::Main);
}

#[test]
fn the_input_box_takes_the_keys_before_the_screen() {
    let mut app = with_jobs(&["a"]);
    app.ui.screen = Screen::Settings;
    handle_key(&mut app, press(KeyCode::Char('n')), true);
    // `q` is typed, not taken as a command; `h` and `l` move the cursor.
    type_text(&mut app, "q");
    assert_eq!(app.input_box.as_ref().unwrap().value, "Yamada Taroq");
    handle_key(&mut app, press(KeyCode::Char('h')), true);
    handle_key(&mut app, press(KeyCode::Left), true);
    handle_key(&mut app, press(KeyCode::Delete), true);
    assert_eq!(app.input_box.as_ref().unwrap().value, "Yamada Tarq");
    assert_eq!(app.input_box.as_ref().unwrap().cursor, 10);
    handle_key(&mut app, press(KeyCode::Home), true);
    assert_eq!(app.input_box.as_ref().unwrap().cursor, 0);
    handle_key(&mut app, press(KeyCode::Char('l')), true);
    handle_key(&mut app, press(KeyCode::Right), true);
    assert_eq!(app.input_box.as_ref().unwrap().cursor, 2);
    handle_key(&mut app, press(KeyCode::End), true);
    assert_eq!(app.input_box.as_ref().unwrap().cursor, 11);
    // Control with a character types nothing.
    handle_key(&mut app, KeyEvent::new(KeyCode::Char('x'), KeyModifiers::control()), true);
    assert_eq!(app.input_box.as_ref().unwrap().value, "Yamada Tarq");
    handle_key(&mut app, press(KeyCode::Tab), true);
    assert_eq!(app.input_box.as_ref().unwrap().value, "Yamada Tarq");
    // Esc drops the text.
    handle_key(&mut app, press(KeyCode::Esc), true);
    assert_eq!(app.input_box, None);
    assert_eq!(app.full_name, "Yamada Taro");
    assert_eq!(app.ui.screen, Screen::Settings);
    assert!(app.is_well_formed());
}

#[test]
fn control_c_ends_the_application_everywhere() {
    let ctrl_c = KeyEvent::new(KeyCode::Char('c'), KeyModifiers::control());
    for screen in [Screen::Main, Screen::Settings, Screen::EditJob, Screen::InitialSetup] {
        let mut app = with_jobs(&["a"]);
        app.ui.screen = screen;
        let before = format!("{app:?}");
        let out = dispatch_key(&mut app, ctrl_c, true);
        assert!(out.quit);
        assert!(out.effects.is_empty());
        assert_eq!(format!("{app:?}"), before);
    }
    let mut app = with_jobs(&["a"]);
    app.ui.screen = Screen::Settings;
    handle_key(&mut app, press(KeyCode::Char('n')), true);
    let before = format!("{app:?}");
    assert!(handle_input_box_key(&mut app, ctrl_c).quit);
    assert_eq!(format!("{app:?}"), before);
    assert!(!dispatch_key(&mut app, press(KeyCode::Char('c')), true).quit);
    assert_eq!(app.input_box.as_ref().unwrap().value, "Yamada Taroc");
}

#[test]
fn without_a_box_the_box_keys_do_nothing() {
    let mut app = with_jobs(&["a"]);
    let before = format!("{app:?}");
    let out = handle_input_box_key(&mut app, press(KeyCode::Enter));
    assert!(!out.quit && out.effects.is_empty());
    assert_eq!(format!("{app:?}"), before);
}

#[test]
fn the_wizard_asks_for_each_setting_in_turn() {
    let mut app = fresh(Config::default());
    assert_eq!(app.ui.screen, Screen::InitialSetup);
    let enter = press(KeyCode::Enter);

    handle_key(&mut app, enter, false);
    assert_eq!(app.wizard_state.current_step, WizardStep::CheckAuth);

    // Without the credentials file the wizard stays and says so.
    handle_key(&mut app, enter, false);
    assert_eq!(app.wizard_state.current_step, WizardStep::CheckAuth);
    assert_eq!(
        app.ui.error,
        Some(String::from("assets/credentials.json not found. Please add it."))
    );
    handle_key(&mut app, enter, true);
    assert_eq!(app.wizard_state.current_step, WizardStep::InputFolderId);
    assert_eq!(app.ui.error, None);

    let asked = [
        ("Input folder ID:", "IN", InputCallbackId::WizardInputFolder, WizardStep::OutputFolderId),
        ("Output folder ID:", "OUT", InputCallbackId::WizardOutputFolder, WizardStep::TemplateSheetId),
        ("Template sheet ID:", "TPL", InputCallbackId::WizardTemplateId, WizardStep::UserName),
    ];
    for (prompt, text, id, next) in asked {
        handle_key(&mut app, enter, true);
        let open = app.input_box.clone().expect("a box");
        assert_eq!(open.prompt, prompt);
        assert_eq!(open.value, "");
        assert_eq!(open.callback_id, id);
        type_text(&mut app, text);
        handle_key(&mut app, enter, true);
        assert_eq!(app.input_box, None);
        assert_eq!(app.wizard_state.current_step, next);
    }
    handle_key(&mut app, enter, true);
    let open = app.input_box.clone().expect("a box");
    assert_eq!(open.prompt, "Your full name:");
    assert_eq!(open.value, "Your Name");
    assert_eq!(open.cursor, 9);
    handle_key(&mut app, KeyEvent::new(KeyCode::Char('u'), KeyModifiers::control()), true);
    type_text(&mut app, "Yamada Taro");
    handle_key(&mut app, enter, true);
    assert_eq!(app.wizard_state.current_step, WizardStep::Complete);
    assert_eq!(app.cfg, Config::default());

    let out = handle_key(&mut app, enter, true);
    assert_eq!(
        out.effects,
        vec![
            Effect::SaveConfig(ready_settings()),
            Effect::Send(WorkerCmd::SaveSettings(ready_settings())),
            Effect::Send(WorkerCmd::RefreshJobs),
        ]
    );
    assert!(!out.quit);
    assert_eq!(app.cfg, ready_settings());
    assert_eq!(app.ui.screen, Screen::Main);
    assert_eq!(app.ui.status, "Refreshing jobs...");
}

#[test]
fn the_wizard_goes_back_when_a_place_is_missing() {
    let mut app = fresh(Config::default());
    app.wizard_state.current_step = WizardStep::Complete;
    app.in_folder = String::from("IN");
    app.template_id = String::from("TPL");
    let out = handle_wizard_key(&mut app, press(KeyCode::Enter), true);
    assert!(out.effects.is_empty());
    assert_eq!(app.ui.error, Some(String::from("Required fields are missing.")));
    assert_eq!(app.wizard_state.current_step, WizardStep::InputFolderId);
    assert_eq!(app.ui.screen, Screen::InitialSetup);
    assert_eq!(app.cfg, Config::default());
}

#[test]
fn steps_of_the_wizard_can_be_skipped() {
    let mut app = fresh(Config::default());
    for expected in [
        WizardStep::CheckAuth,
        WizardStep::InputFolderId,
        WizardStep::OutputFolderId,
        WizardStep::TemplateSheetId,
        WizardStep::UserName,
        WizardStep::Complete,
        WizardStep::Complete,
    ] {
        let out = handle_wizard_key(&mut app, press(KeyCode::Esc), false);
        assert!(!out.quit && out.effects.is_empty());
        assert_eq!(app.wizard_state.current_step, expected);
    }
    let before = format!("{app:?}");
    handle_wizard_key(&mut app, press(KeyCode::Char('x')), false);
    assert_eq!(format!("{app:?}"), before);
}

#[test]
fn a_fresh_start_refreshes_only_on_the_list_of_jobs() {
    let mut app = fresh(ready_settings());
    let out = request_initial_refresh(&mut app);
    assert!(!out.quit);
    assert_eq!(out.effects, vec![Effect::Send(WorkerCmd::RefreshJobs)]);
    assert_eq!(app.ui.status, "Refreshing jobs...");

    let mut app = fresh(Config::default());
    assert_eq!(app.ui.screen, Screen::InitialSetup);
    let before = format!("{app:?}");
    let out = request_initial_refresh(&mut app);
    assert!(!out.quit && out.effects.is_empty());
    assert_eq!(format!("{app:?}"), before);

    // Places set but the name still the placeholder: the wizard is due,
    // and nothing is asked for.
    let mut cfg = ready_settings();
    cfg.user.full_name = String::from("Your Name");
    let mut app = fresh(cfg);
    let out = request_initial_refresh(&mut app);
    assert!(out.effects.is_empty());
    assert_eq!(app.ui.status, "Ready");
}
