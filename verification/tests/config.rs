use receipt_tui::config::Config;
use receipt_tui::events::Screen;
use receipt_tui::jobs::{JobStatus, ReceiptFields};
use receipt_tui::wizard::{WizardState, WizardStep};

#[test]
fn default_settings_match_the_stock_template() {
    let cfg = Config::default();
    assert_eq!(cfg.google.input_folder_id, "");
    assert_eq!(cfg.google.output_folder_id, "");
    assert_eq!(cfg.google.template_sheet_id, "");
    assert_eq!(cfg.user.full_name, "Your Name");
    assert_eq!(cfg.template.name_cell, "F3");
    assert_eq!(cfg.template.target_month_cell, "B3");
    assert_eq!(cfg.general_expense.start_row, 44);
    assert_eq!(cfg.general_expense.date_col, "B");
    assert_eq!(cfg.general_expense.reason_col, "C");
    assert_eq!(cfg.general_expense.amount_col, "D");
    assert_eq!(cfg.general_expense.category_col, "E");
    assert_eq!(cfg.general_expense.note_col, "F");
}

#[test]
fn a_copy_of_the_settings_equals_them() {
    let mut cfg = Config::default();
    cfg.google.input_folder_id = String::from("F1");
    cfg.general_expense.start_row = 7;
    let copy = cfg.clone();
    assert_eq!(copy, cfg);
    assert_ne!(copy, Config::default());
}

#[test]
fn default_fields_are_empty() {
    let fields = ReceiptFields::default();
    assert_eq!(fields.date_ymd, "");
    assert_eq!(fields.reason, "");
    assert_eq!(fields.amount_yen, 0);
    assert_eq!(fields.category, "");
    assert_eq!(fields.note, "");
    assert_eq!(fields.clone(), fields);
}

#[test]
fn a_copy_of_a_status_keeps_its_message() {
    let failed = JobStatus::Error(String::from("boom"));
    assert_eq!(failed.clone(), failed);
    assert_eq!(JobStatus::Done.clone(), JobStatus::Done);
    assert_ne!(JobStatus::Done, JobStatus::Queued);
}

#[test]
fn the_wizard_starts_at_the_welcome() {
    let state = WizardState::new();
    assert_eq!(state.current_step, WizardStep::Welcome);
    assert_eq!(state.total_steps, 7);
    assert_eq!(state.get_step_number(), 1);
    assert_eq!(WizardState::default(), state);
}

#[test]
fn the_wizard_walks_through_its_seven_steps_and_stays_at_the_last() {
    let order = [
        WizardStep::Welcome,
        WizardStep::CheckAuth,
        WizardStep::InputFolderId,
        WizardStep::OutputFolderId,
        WizardStep::TemplateSheetId,
        WizardStep::UserName,
        WizardStep::Complete,
    ];
    let mut state = WizardState::new();
    for (i, step) in order.iter().enumerate() {
        assert_eq!(state.current_step, *step);
        assert_eq!(state.get_step_number(), i + 1);
        assert_eq!(state.total_steps, 7);
        state.next_step();
    }
    assert_eq!(state.current_step, WizardStep::Complete);
    state.next_step();
    assert_eq!(state.current_step, WizardStep::Complete);
    assert_eq!(state.get_step_number(), 7);
}

#[test]
fn every_step_has_its_own_prompt() {
    let mut state = WizardState::new();
    assert!(state.get_prompt().starts_with("receipt_tuiへようこそ！"));
    state.next_step();
    assert_eq!(
        state.get_prompt(),
        "Google OAuth認証の確認中...\n\ncredentials.json が必要です。\nEnterキーで次へ進みます。"
    );
    state.next_step();
    assert!(state.get_prompt().starts_with("入力フォルダIDの設定\n\n"));
    state.next_step();
    assert!(state.get_prompt().starts_with("出力フォルダIDの設定\n\n"));
    state.next_step();
    assert!(state.get_prompt().starts_with("テンプレートシートIDの設定\n\n"));
    state.next_step();
    assert!(state.get_prompt().starts_with("ユーザー名の設定\n\n"));
    state.next_step();
    assert_eq!(
        state.get_prompt(),
        "設定完了！\n\nすべての設定が完了しました。\nEnterキーを押してメイン画面に移動します。"
    );
}

#[test]
fn screens_compare_by_name() {
    assert_eq!(Screen::Main, Screen::Main);
    assert_ne!(Screen::Main, Screen::Settings);
    assert_ne!(Screen::EditJob, Screen::InitialSetup);
}
