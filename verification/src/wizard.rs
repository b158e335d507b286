//! The first-start wizard: its steps, their order and their prompts.

use vstd::prelude::*;

verus! {

/// A step of the wizard.
#[derive(Clone, Copy, Debug, PartialEq, Eq, Structural)]
pub enum WizardStep {
    /// Greeting.
    Welcome,
    /// The credentials are looked for.
    CheckAuth,
    /// The folder of receipt images is asked for.
    InputFolderId,
    /// The folder for the PDFs is asked for.
    OutputFolderId,
    /// The template is asked for.
    TemplateSheetId,
    /// The user's name is asked for.
    UserName,
    /// All is entered.
    Complete,
}

/// Where the wizard stands.
#[derive(Clone, Copy, Debug, PartialEq, Eq)]
pub struct WizardState {
    /// The step shown.
    pub current_step: WizardStep,
    /// How many steps there are.
    pub total_steps: usize,
}

/// The step after `step`; the last step is its own successor.
pub open spec fn step_after(step: WizardStep) -> WizardStep {
    match step {
        WizardStep::Welcome => WizardStep::CheckAuth,
        WizardStep::CheckAuth => WizardStep::InputFolderId,
        WizardStep::InputFolderId => WizardStep::OutputFolderId,
        WizardStep::OutputFolderId => WizardStep::TemplateSheetId,
        WizardStep::TemplateSheetId => WizardStep::UserName,
        WizardStep::UserName => WizardStep::Complete,
        WizardStep::Complete => WizardStep::Complete,
    }
}

/// The place of `step` among the steps, counted from 1.
pub open spec fn step_number(step: WizardStep) -> nat {
    match step {
        WizardStep::Welcome => 1,
        WizardStep::CheckAuth => 2,
        WizardStep::InputFolderId => 3,
        WizardStep::OutputFolderId => 4,
        WizardStep::TemplateSheetId => 5,
        WizardStep::UserName => 6,
        WizardStep::Complete => 7,
    }
}

/// What the wizard says at `step`.
pub open spec fn prompt_text(step: WizardStep) -> Seq<char> {
    match step {
        WizardStep::Welcome => "receipt_tuiへようこそ！\n\nこのウィザードでは、アプリケーションの初期設定を行います。\nEnterキーを押して開始してください。"@,
        WizardStep::CheckAuth => "Google OAuth認証の確認中...\n\ncredentials.json が必要です。\nEnterキーで次へ進みます。"@,
        WizardStep::InputFolderId => "入力フォルダIDの設定\n\n領収書画像が保存されているGoogle DriveフォルダのIDを入力してください。\nEnterキーで入力画面を開きます。"@,
        WizardStep::OutputFolderId => "出力フォルダIDの設定\n\nPDFを保存するGoogle DriveフォルダのIDを入力してください。\nEnterキーで入力画面を開きます。"@,
        WizardStep::TemplateSheetId => "テンプレートシートIDの設定\n\n経費精算書テンプレートのGoogle Sheets IDを入力してください。\nEnterキーで入力画面を開きます。"@,
        WizardStep::UserName => "ユーザー名の設定\n\nあなたの氏名を入力してください。\nEnterキーで入力画面を開きます。"@,
        WizardStep::Complete => "設定完了！\n\nすべての設定が完了しました。\nEnterキーを押してメイン画面に移動します。"@,
    }
}

impl WizardState {
    /// A wizard at its first step.
    pub fn new() -> (state: Self)
        ensures
            state.current_step == WizardStep::Welcome,
            state.total_steps == 7,
    {
        WizardState { current_step: WizardStep::Welcome, total_steps: 7 }
    }

    /// Moves to the next step; at the last step, stays there.
    pub fn next_step(&mut self)
        ensures
            final(self).current_step == step_after(old(self).current_step),
            final(self).total_steps == old(self).total_steps,
    {
        self.current_step = match self.current_step {
            WizardStep::Welcome => WizardStep::CheckAuth,
            WizardStep::CheckAuth => WizardStep::InputFolderId,
            WizardStep::InputFolderId => WizardStep::OutputFolderId,
            WizardStep::OutputFolderId => WizardStep::TemplateSheetId,
            WizardStep::TemplateSheetId => WizardStep::UserName,
            WizardStep::UserName => WizardStep::Complete,
            WizardStep::Complete => WizardStep::Complete,
        };
    }

    /// What the wizard says at the current step.
    pub fn get_prompt(&self) -> (prompt: String)
        ensures
            prompt@ == prompt_text(self.current_step),
    {
        match self.current_step {
            WizardStep::Welcome => "receipt_tuiへようこそ！\n\nこのウィザードでは、アプリケーションの初期設定を行います。\nEnterキーを押して開始してください。".to_owned(),
            WizardStep::CheckAuth => "Google OAuth認証の確認中...\n\ncredentials.json が必要です。\nEnterキーで次へ進みます。".to_owned(),
            WizardStep::InputFolderId => "入力フォルダIDの設定\n\n領収書画像が保存されているGoogle DriveフォルダのIDを入力してください。\nEnterキーで入力画面を開きます。".to_owned(),
            WizardStep::OutputFolderId => "出力フォルダIDの設定\n\nPDFを保存するGoogle DriveフォルダのIDを入力してください。\nEnterキーで入力画面を開きます。".to_owned(),
            WizardStep::TemplateSheetId => "テンプレートシートIDの設定\n\n経費精算書テンプレートのGoogle Sheets IDを入力してください。\nEnterキーで入力画面を開きます。".to_owned(),
            WizardStep::UserName => "ユーザー名の設定\n\nあなたの氏名を入力してください。\nEnterキーで入力画面を開きます。".to_owned(),
            WizardStep::Complete => "設定完了！\n\nすべての設定が完了しました。\nEnterキーを押してメイン画面に移動します。".to_owned(),
        }
    }

    /// The place of the current step among the steps, counted from 1.
    pub fn get_step_number(&self) -> (number: usize)
        ensures
            number == step_number(self.current_step),
    {
        match self.current_step {
            WizardStep::Welcome => 1,
            WizardStep::CheckAuth => 2,
            WizardStep::InputFolderId => 3,
            WizardStep::OutputFolderId => 4,
            WizardStep::TemplateSheetId => 5,
            WizardStep::UserName => 6,
            WizardStep::Complete => 7,
        }
    }
}

impl Default for WizardState {
    fn default() -> (state: Self)
        ensures
            state.current_step == WizardStep::Welcome,
            state.total_steps == 7,
    {
        WizardState::new()
    }
}

/// The steps follow one another in the order of their numbers: each step
/// but the last leads to the step with the next number, and the last step,
/// whose number is the number of steps, leads to itself.
pub proof fn law_steps_follow_their_numbers(step: WizardStep)
    ensures
        1 <= step_number(step) <= 7,
        step != WizardStep::Complete ==> step_number(step_after(step)) == step_number(step) + 1,
        step == WizardStep::Complete ==> step_after(step) == step,
        step_number(step) == 7 <==> step == WizardStep::Complete,
{
}

} // verus!
