//! What the keys do, screen by screen.
//!
//! Each screen has a function from the state and a pressed key to the new
//! state, to whether the application ends, and to what is to be done
//! outside. An open input box takes the keys before any screen.

use crate::app::{refresh_requested, request_refresh, App, AppView, Effect, EffectView, KeyOutcome, KeyResult};
use crate::events::{Screen, UiStateView};
use crate::input::{after_backspace, after_delete, InputBoxState, InputBoxView, InputCallbackId};
use crate::jobs::{JobView, ReceiptFieldsView};
use crate::shortcuts::{
    any_shortcut_matches, ctrl_c, is_ctrl_c, matches_shortcut, KeyCode, KeyEvent, CONTROL,
};
use crate::text::{i64_to_string, parse_i64, parsed_i64, signed_decimal};
use crate::wizard::{step_after, WizardState, WizardStep};
use crate::worker::{WorkerCmd, WorkerCmdView};
use vstd::prelude::*;

verus! {

/// A key that changes the state and nothing else.
pub open spec fn quietly(app: AppView) -> KeyResult {
    KeyResult { app, quit: false, effects: Seq::empty() }
}

/// The state with an input box open.
pub open spec fn with_box(
    app: AppView,
    prompt: Seq<char>,
    value: Seq<char>,
    cursor: nat,
    callback_id: InputCallbackId,
) -> AppView {
    AppView { input_box: Some(InputBoxView { prompt, value, cursor, callback_id }), ..app }
}

/// The state with the wizard one step further.
pub open spec fn wizard_advanced(app: AppView) -> AppView {
    AppView {
        wizard_state: WizardState {
            current_step: step_after(app.wizard_state.current_step),
            ..app.wizard_state
        },
        ..app
    }
}

/// What saving the edited settings leads to: they become the settings in
/// force, are written to the settings file and sent to the worker, in this
/// order.
pub open spec fn settings_saved(app: AppView) -> KeyResult {
    let cfg = app.edited_cfg();
    KeyResult {
        app: AppView { cfg, ..app },
        quit: false,
        effects: seq![
            EffectView::SaveConfig(cfg),
            EffectView::Send(WorkerCmdView::SaveSettings(cfg)),
        ],
    }
}

/// The list of jobs: leave, open the settings, refresh, move the
/// selection within the list, or open the selected job.
pub open spec fn main_key(app: AppView, key: KeyEvent) -> KeyResult {
    let sc = app.shortcuts.main;
    if any_shortcut_matches(key, sc.quit) {
        KeyResult { app, quit: true, effects: Seq::empty() }
    } else if any_shortcut_matches(key, sc.settings) {
        quietly(app.reloaded().with_screen(Screen::Settings).with_status("Settings"@))
    } else if any_shortcut_matches(key, sc.refresh) {
        refresh_requested(app)
    } else if any_shortcut_matches(key, sc.down) {
        if app.ui.selected + 1 < app.jobs.len() {
            quietly(AppView { ui: UiStateView { selected: app.ui.selected + 1, ..app.ui }, ..app })
        } else {
            quietly(app)
        }
    } else if any_shortcut_matches(key, sc.up) {
        if app.ui.selected > 0 {
            quietly(
                AppView {
                    ui: UiStateView { selected: (app.ui.selected - 1) as nat, ..app.ui },
                    ..app
                },
            )
        } else {
            quietly(app)
        }
    } else if any_shortcut_matches(key, sc.enter) && app.ui.selected < app.jobs.len() {
        quietly(
            AppView {
                ui: UiStateView { screen: Screen::EditJob, editing_field_idx: 0, ..app.ui },
                ..app
            },
        )
    } else {
        quietly(app)
    }
}

/// The settings: leave without saving, save, or open a box for one of the
/// four settings.
pub open spec fn settings_key(app: AppView, key: KeyEvent) -> KeyResult {
    let sc = app.shortcuts.settings;
    if any_shortcut_matches(key, sc.cancel) {
        quietly(app.reloaded().with_screen(Screen::Main))
    } else if any_shortcut_matches(key, sc.save) {
        let saved = settings_saved(app);
        KeyResult {
            app: saved.app.with_screen(Screen::Main).with_status("Saved settings"@),
            ..saved
        }
    } else if any_shortcut_matches(key, sc.input_folder) {
        quietly(
            with_box(
                app,
                "Input folder ID:"@,
                app.in_folder,
                app.in_folder.len(),
                InputCallbackId::SettingsInputFolder,
            ),
        )
    } else if any_shortcut_matches(key, sc.output_folder) {
        quietly(
            with_box(
                app,
                "Output folder ID:"@,
                app.out_folder,
                app.out_folder.len(),
                InputCallbackId::SettingsOutputFolder,
            ),
        )
    } else if any_shortcut_matches(key, sc.template) {
        quietly(
            with_box(
                app,
                "Template sheet ID:"@,
                app.template_id,
                app.template_id.len(),
                InputCallbackId::SettingsTemplateId,
            ),
        )
    } else if any_shortcut_matches(key, sc.name) {
        quietly(
            with_box(
                app,
                "Full name:"@,
                app.full_name,
                app.full_name.len(),
                InputCallbackId::SettingsFullName,
            ),
        )
    } else {
        quietly(app)
    }
}

/// What the box for field `index` of a job asks.
pub open spec fn field_prompt(index: nat) -> Seq<char> {
    if index == 0 {
        "Date (YYYY-MM-DD):"@
    } else if index == 1 {
        "Reason:"@
    } else if index == 2 {
        "Amount (yen):"@
    } else if index == 3 {
        "Category:"@
    } else {
        "Note:"@
    }
}

/// Field `index` of a job as text.
pub open spec fn field_text(fields: ReceiptFieldsView, index: nat) -> Seq<char> {
    if index == 0 {
        fields.date_ymd
    } else if index == 1 {
        fields.reason
    } else if index == 2 {
        signed_decimal(fields.amount_yen)
    } else if index == 3 {
        fields.category
    } else {
        fields.note
    }
}

/// The fields with field `index` set from the text `value`; the amount is
/// the number that `value` writes, or 0 where it writes none.
pub open spec fn with_field(
    fields: ReceiptFieldsView,
    index: nat,
    value: Seq<char>,
) -> ReceiptFieldsView {
    if index == 0 {
        ReceiptFieldsView { date_ymd: value, ..fields }
    } else if index == 1 {
        ReceiptFieldsView { reason: value, ..fields }
    } else if index == 2 {
        ReceiptFieldsView {
            amount_yen: match parsed_i64(value) {
                Some(amount) => amount as int,
                None => 0,
            },
            ..fields
        }
    } else if index == 3 {
        ReceiptFieldsView { category: value, ..fields }
    } else if index == 4 {
        ReceiptFieldsView { note: value, ..fields }
    } else {
        fields
    }
}

/// The fields of a job: leave, move to the next field, commit the job,
/// or open a box for the target month or for the field.
pub open spec fn edit_job_key(app: AppView, key: KeyEvent) -> KeyResult {
    let sc = app.shortcuts.edit_job;
    if any_shortcut_matches(key, sc.cancel) {
        quietly(app.with_screen(Screen::Main))
    } else if any_shortcut_matches(key, sc.next_field) {
        quietly(
            AppView {
                ui: UiStateView {
                    editing_field_idx: (app.ui.editing_field_idx + 1) % 5,
                    ..app.ui
                },
                ..app
            },
        )
    } else if any_shortcut_matches(key, sc.commit) {
        if app.ui.selected < app.jobs.len() {
            let job = app.jobs[app.ui.selected as int];
            KeyResult {
                app: app.with_screen(Screen::Main).with_status(
                    "Committed (writing sheet/exporting pdf...)"@,
                ),
                quit: false,
                effects: seq![
                    EffectView::Send(
                        WorkerCmdView::CommitJobEdits {
                            job_id: job.id,
                            fields: job.fields,
                            target_month_ym: app.edit_target_month,
                        },
                    ),
                ],
            }
        } else {
            quietly(app)
        }
    } else if any_shortcut_matches(key, sc.target_month) {
        quietly(
            with_box(
                app,
                "Target month (YYYY-MM):"@,
                app.edit_target_month,
                app.edit_target_month.len(),
                InputCallbackId::EditTargetMonth,
            ),
        )
    } else if any_shortcut_matches(key, sc.edit_field) && app.ui.selected < app.jobs.len()
        && app.ui.editing_field_idx <= 4 {
        let job = app.jobs[app.ui.selected as int];
        quietly(
            with_box(
                app,
                field_prompt(app.ui.editing_field_idx),
                field_text(job.fields, app.ui.editing_field_idx),
                0,
                InputCallbackId::EditJobField(app.ui.editing_field_idx as usize),
            ),
        )
    } else {
        quietly(app)
    }
}

/// What ending the wizard leads to. Where a place of the document store
/// is missing, the wizard goes back to the input folder with an error.
/// Else the entered settings are saved as on the settings screen, the list
/// of jobs comes into view, and a refresh is asked for.
pub open spec fn wizard_completed(app: AppView) -> KeyResult {
    if app.in_folder.len() == 0 || app.out_folder.len() == 0 || app.template_id.len() == 0 {
        quietly(
            AppView {
                wizard_state: WizardState {
                    current_step: WizardStep::InputFolderId,
                    ..app.wizard_state
                },
                ..app.with_error(Some("Required fields are missing."@))
            },
        )
    } else {
        let saved = settings_saved(app);
        let refreshed = refresh_requested(
            saved.app.with_screen(Screen::Main).with_status("Setup complete!"@),
        );
        KeyResult { app: refreshed.app, quit: false, effects: saved.effects + refreshed.effects }
    }
}

/// The wizard: go on with the step in view, or skip it. `credentials_found`
/// tells whether the credentials file is in its place.
pub open spec fn wizard_key(app: AppView, key: KeyEvent, credentials_found: bool) -> KeyResult {
    let sc = app.shortcuts.wizard;
    if any_shortcut_matches(key, sc.proceed) {
        match app.wizard_state.current_step {
            WizardStep::Welcome => quietly(wizard_advanced(app)),
            WizardStep::CheckAuth => if credentials_found {
                quietly(wizard_advanced(app.with_error(None)))
            } else {
                quietly(
                    app.with_error(Some("assets/credentials.json not found. Please add it."@)),
                )
            },
            WizardStep::InputFolderId => quietly(
                with_box(
                    app,
                    "Input folder ID:"@,
                    app.in_folder,
                    app.in_folder.len(),
                    InputCallbackId::WizardInputFolder,
                ),
            ),
            WizardStep::OutputFolderId => quietly(
                with_box(
                    app,
                    "Output folder ID:"@,
                    app.out_folder,
                    app.out_folder.len(),
                    InputCallbackId::WizardOutputFolder,
                ),
            ),
            WizardStep::TemplateSheetId => quietly(
                with_box(
                    app,
                    "Template sheet ID:"@,
                    app.template_id,
                    app.template_id.len(),
                    InputCallbackId::WizardTemplateId,
                ),
            ),
            WizardStep::UserName => quietly(
                with_box(
                    app,
                    "Your full name:"@,
                    app.full_name,
                    app.full_name.len(),
                    InputCallbackId::WizardFullName,
                ),
            ),
            WizardStep::Complete => wizard_completed(app),
        }
    } else if any_shortcut_matches(key, sc.skip) {
        quietly(wizard_advanced(app))
    } else {
        quietly(app)
    }
}

/// The state after a text was confirmed for `callback_id`: the text goes
/// where it was asked for, and in the wizard the next step comes up.
pub open spec fn input_applied(
    app: AppView,
    callback_id: InputCallbackId,
    value: Seq<char>,
) -> AppView {
    match callback_id {
        InputCallbackId::SettingsInputFolder => AppView { in_folder: value, ..app },
        InputCallbackId::SettingsOutputFolder => AppView { out_folder: value, ..app },
        InputCallbackId::SettingsTemplateId => AppView { template_id: value, ..app },
        InputCallbackId::SettingsFullName => AppView { full_name: value, ..app },
        InputCallbackId::EditTargetMonth => AppView { edit_target_month: value, ..app },
        InputCallbackId::EditJobField(index) => if app.ui.selected < app.jobs.len() {
            let job = app.jobs[app.ui.selected as int];
            AppView {
                jobs: app.jobs.update(
                    app.ui.selected as int,
                    JobView { fields: with_field(job.fields, index as nat, value), ..job },
                ),
                ..app
            }
        } else {
            app
        },
        InputCallbackId::WizardInputFolder => wizard_advanced(AppView { in_folder: value, ..app }),
        InputCallbackId::WizardOutputFolder => wizard_advanced(
            AppView { out_folder: value, ..app },
        ),
        InputCallbackId::WizardTemplateId => wizard_advanced(
            AppView { template_id: value, ..app },
        ),
        InputCallbackId::WizardFullName => wizard_advanced(AppView { full_name: value, ..app }),
    }
}

/// The state with the open box replaced by `b`.
pub open spec fn with_input(app: AppView, b: InputBoxView) -> AppView {
    AppView { input_box: Some(b), ..app }
}

/// The open input box: end the application with Control and `c`, confirm
/// or drop the text, edit it, move the cursor, or type a character.
pub open spec fn input_box_key(app: AppView, key: KeyEvent) -> KeyResult {
    let sc = app.shortcuts.input_box;
    match app.input_box {
        None => quietly(app),
        Some(b) => {
            if ctrl_c(key) {
                KeyResult { app, quit: true, effects: Seq::empty() }
            } else if any_shortcut_matches(key, sc.confirm) {
                quietly(
                    input_applied(AppView { input_box: None, ..app }, b.callback_id, b.value),
                )
            } else if any_shortcut_matches(key, sc.cancel) {
                quietly(AppView { input_box: None, ..app })
            } else if any_shortcut_matches(key, sc.backspace) {
                quietly(with_input(app, after_backspace(b)))
            } else if any_shortcut_matches(key, sc.delete) {
                quietly(with_input(app, after_delete(b)))
            } else if any_shortcut_matches(key, sc.left) {
                quietly(
                    with_input(
                        app,
                        InputBoxView {
                            cursor: if b.cursor > 0 {
                                (b.cursor - 1) as nat
                            } else {
                                0
                            },
                            ..b
                        },
                    ),
                )
            } else if any_shortcut_matches(key, sc.right) {
                quietly(
                    with_input(
                        app,
                        InputBoxView {
                            cursor: if b.cursor < b.value.len() {
                                b.cursor + 1
                            } else {
                                b.cursor
                            },
                            ..b
                        },
                    ),
                )
            } else if any_shortcut_matches(key, sc.home) {
                quietly(with_input(app, InputBoxView { cursor: 0, ..b }))
            } else if any_shortcut_matches(key, sc.end) {
                quietly(with_input(app, InputBoxView { cursor: b.value.len(), ..b }))
            } else if any_shortcut_matches(key, sc.clear_line) {
                quietly(with_input(app, InputBoxView { value: Seq::empty(), cursor: 0, ..b }))
            } else {
                match key.code {
                    KeyCode::Char(c) => if key.modifiers.bits & CONTROL == CONTROL {
                        quietly(app)
                    } else {
                        quietly(
                            with_input(
                                app,
                                InputBoxView {
                                    value: b.value.insert(b.cursor as int, c),
                                    cursor: b.cursor + 1,
                                    ..b
                                },
                            ),
                        )
                    },
                    _ => quietly(app),
                }
            }
        },
    }
}

/// What a pressed key leads to: an open input box takes it, else the
/// screen in view.
pub open spec fn key_result(app: AppView, key: KeyEvent, credentials_found: bool) -> KeyResult {
    if app.input_box is Some {
        input_box_key(app, key)
    } else {
        match app.ui.screen {
            Screen::Main => main_key(app, key),
            Screen::Settings => settings_key(app, key),
            Screen::EditJob => edit_job_key(app, key),
            Screen::InitialSetup => wizard_key(app, key, credentials_found),
        }
    }
}

/// What a pressed key leads to, Control with `c` ending the application
/// before anything else.
pub open spec fn dispatched(app: AppView, key: KeyEvent, credentials_found: bool) -> KeyResult {
    if ctrl_c(key) {
        KeyResult { app, quit: true, effects: Seq::empty() }
    } else {
        key_result(app, key, credentials_found)
    }
}

/// Leaving changes nothing: a key that ends the application leaves the
/// state as it is and asks for nothing to be done.
pub proof fn law_leaving_changes_nothing(app: AppView, key: KeyEvent, credentials_found: bool)
    requires
        dispatched(app, key, credentials_found).quit,
    ensures
        dispatched(app, key, credentials_found).app == app,
        dispatched(app, key, credentials_found).effects.len() == 0,
{
}

/// The worker always learns of new settings. Whenever a key changes the
/// settings in force, the new settings are written to the settings file
/// and sent to the worker, whole and in this order, before anything else
/// is sent; and no key sends settings other than those then in force.
pub proof fn law_changed_settings_are_saved_and_sent(
    app: AppView,
    key: KeyEvent,
    credentials_found: bool,
)
    ensures
        ({
            let result = dispatched(app, key, credentials_found);
            let announced = result.effects.len() >= 2 && result.effects[0]
                == EffectView::SaveConfig(result.app.cfg) && result.effects[1] == EffectView::Send(
                WorkerCmdView::SaveSettings(result.app.cfg),
            );
            &&& result.app.cfg != app.cfg ==> announced
            &&& forall|i: int|
                0 <= i < result.effects.len() ==> (#[trigger] result.effects[i]
                    matches EffectView::Send(WorkerCmdView::SaveSettings(sent)) ==> sent
                    == result.app.cfg)
            &&& forall|i: int|
                0 <= i < result.effects.len() ==> (#[trigger] result.effects[i]
                    matches EffectView::SaveConfig(saved) ==> saved == result.app.cfg)
        }),
{
}

/// A commit sends what the list shows: the command carries the identifier
/// and the fields of the selected job and the target month in view, and
/// the jobs themselves stay as they are.
pub proof fn law_commit_sends_the_selected_job(app: AppView, key: KeyEvent)
    ensures
        ({
            let result = edit_job_key(app, key);
            &&& result.app.jobs == app.jobs
            &&& forall|i: int|
                0 <= i < result.effects.len() ==> (#[trigger] result.effects[i]
                    matches EffectView::Send(
                    WorkerCmdView::CommitJobEdits { job_id, fields, target_month_ym },
                ) ==> {
                    &&& app.ui.selected < app.jobs.len()
                    &&& job_id == app.jobs[app.ui.selected as int].id
                    &&& fields == app.jobs[app.ui.selected as int].fields
                    &&& target_month_ym == app.edit_target_month
                })
        }),
{
}

/// Keys never touch the identity or the stage of a job: whatever key is
/// pressed, the same jobs stay in their order, each with its identifier,
/// its image, its name and its stage. Only an input box confirmed for a
/// field changes the fields of the selected job.
pub proof fn law_keys_leave_jobs_in_place(
    app: AppView,
    key: KeyEvent,
    credentials_found: bool,
    i: int,
)
    requires
        0 <= i < app.jobs.len(),
    ensures
        ({
            let after = dispatched(app, key, credentials_found).app.jobs;
            &&& after.len() == app.jobs.len()
            &&& after[i] == (JobView { fields: after[i].fields, ..app.jobs[i] })
            &&& i != app.ui.selected ==> after[i] == app.jobs[i]
        }),
{
}

/// A key that changes the state and nothing else.
fn quiet() -> (out: KeyOutcome)
    ensures
        !out.quit,
        out.effects.deep_view() == Seq::<EffectView>::empty(),
{
    let effects: Vec<Effect> = Vec::new();
    proof {
        assert(effects.deep_view() =~= Seq::<EffectView>::empty());
    }
    KeyOutcome { quit: false, effects }
}

/// The key that ends the application.
fn leave() -> (out: KeyOutcome)
    ensures
        out.quit,
        out.effects.deep_view() == Seq::<EffectView>::empty(),
{
    let effects: Vec<Effect> = Vec::new();
    proof {
        assert(effects.deep_view() =~= Seq::<EffectView>::empty());
    }
    KeyOutcome { quit: true, effects }
}

/// Opens an input box that starts with the text `value`, the cursor at
/// its end.
fn open_box(app: &mut App, prompt: &str, value: String, callback_id: InputCallbackId)
    ensures
        final(app)@ == with_box(old(app)@, prompt@, value@, value@.len(), callback_id),
{
    let cursor = value.as_str().unicode_len();
    app.input_box = Some(InputBoxState { prompt: prompt.to_owned(), value, cursor, callback_id });
}

/// Takes the edited settings back from the settings in force.
pub fn reload_settings_buffers(app: &mut App)
    ensures
        final(app)@ == old(app)@.reloaded(),
{
    app.in_folder = app.cfg.google.input_folder_id.clone();
    app.out_folder = app.cfg.google.output_folder_id.clone();
    app.template_id = app.cfg.google.template_sheet_id.clone();
    app.full_name = app.cfg.user.full_name.clone();
}

/// Puts the edited settings in force and hands back what is to be done
/// with them.
fn save_settings(app: &mut App) -> (effects: Vec<Effect>)
    ensures
        settings_saved(old(app)@) == (KeyResult {
            app: final(app)@,
            quit: false,
            effects: effects.deep_view(),
        }),
{
    app.cfg.google.input_folder_id = app.in_folder.clone();
    app.cfg.google.output_folder_id = app.out_folder.clone();
    app.cfg.google.template_sheet_id = app.template_id.clone();
    app.cfg.user.full_name = app.full_name.clone();
    let mut effects: Vec<Effect> = Vec::new();
    effects.push(Effect::SaveConfig(app.cfg.clone()));
    effects.push(Effect::Send(WorkerCmd::SaveSettings(app.cfg.clone())));
    proof {
        assert(effects.deep_view() =~= seq![
            EffectView::SaveConfig(app.cfg@),
            EffectView::Send(WorkerCmdView::SaveSettings(app.cfg@)),
        ]);
    }
    effects
}

/// A key on the list of jobs.
pub fn handle_main_key(app: &mut App, key: KeyEvent) -> (out: KeyOutcome)
    ensures
        main_key(old(app)@, key) == (KeyResult {
            app: final(app)@,
            quit: out.quit,
            effects: out.effects.deep_view(),
        }),
{
    if matches_shortcut(&key, app.shortcuts.main.quit.as_slice()) {
        return leave();
    } else if matches_shortcut(&key, app.shortcuts.main.settings.as_slice()) {
        reload_settings_buffers(app);
        app.ui.screen = Screen::Settings;
        app.ui.status = "Settings".to_owned();
    } else if matches_shortcut(&key, app.shortcuts.main.refresh.as_slice()) {
        return request_refresh(app);
    } else if matches_shortcut(&key, app.shortcuts.main.down.as_slice()) {
        if app.ui.selected < app.jobs.len() && app.ui.selected + 1 < app.jobs.len() {
            app.ui.selected += 1;
        }
    } else if matches_shortcut(&key, app.shortcuts.main.up.as_slice()) {
        if app.ui.selected > 0 {
            app.ui.selected -= 1;
        }
    } else if matches_shortcut(&key, app.shortcuts.main.enter.as_slice()) && app.ui.selected
        < app.jobs.len() {
        app.ui.screen = Screen::EditJob;
        app.ui.editing_field_idx = 0;
    }
    quiet()
}

/// A key on the settings screen.
pub fn handle_settings_key(app: &mut App, key: KeyEvent) -> (out: KeyOutcome)
    ensures
        settings_key(old(app)@, key) == (KeyResult {
            app: final(app)@,
            quit: out.quit,
            effects: out.effects.deep_view(),
        }),
{
    if matches_shortcut(&key, app.shortcuts.settings.cancel.as_slice()) {
        reload_settings_buffers(app);
        app.ui.screen = Screen::Main;
    } else if matches_shortcut(&key, app.shortcuts.settings.save.as_slice()) {
        let effects = save_settings(app);
        app.ui.screen = Screen::Main;
        app.ui.status = "Saved settings".to_owned();
        return KeyOutcome { quit: false, effects };
    } else if matches_shortcut(&key, app.shortcuts.settings.input_folder.as_slice()) {
        let value = app.in_folder.clone();
        open_box(app, "Input folder ID:", value, InputCallbackId::SettingsInputFolder);
    } else if matches_shortcut(&key, app.shortcuts.settings.output_folder.as_slice()) {
        let value = app.out_folder.clone();
        open_box(app, "Output folder ID:", value, InputCallbackId::SettingsOutputFolder);
    } else if matches_shortcut(&key, app.shortcuts.settings.template.as_slice()) {
        let value = app.template_id.clone();
        open_box(app, "Template sheet ID:", value, InputCallbackId::SettingsTemplateId);
    } else if matches_shortcut(&key, app.shortcuts.settings.name.as_slice()) {
        let value = app.full_name.clone();
        open_box(app, "Full name:", value, InputCallbackId::SettingsFullName);
    }
    quiet()
}

/// A key on the fields of a job.
pub fn handle_edit_job_key(app: &mut App, key: KeyEvent) -> (out: KeyOutcome)
    ensures
        edit_job_key(old(app)@, key) == (KeyResult {
            app: final(app)@,
            quit: out.quit,
            effects: out.effects.deep_view(),
        }),
{
    if matches_shortcut(&key, app.shortcuts.edit_job.cancel.as_slice()) {
        app.ui.screen = Screen::Main;
    } else if matches_shortcut(&key, app.shortcuts.edit_job.next_field.as_slice()) {
        let index = app.ui.editing_field_idx;
        app.ui.editing_field_idx = if index % 5 == 4 {
            0
        } else {
            index % 5 + 1
        };
    } else if matches_shortcut(&key, app.shortcuts.edit_job.commit.as_slice()) {
        if app.ui.selected < app.jobs.len() {
            let job = &app.jobs[app.ui.selected];
            let mut effects: Vec<Effect> = Vec::new();
            effects.push(
                Effect::Send(
                    WorkerCmd::CommitJobEdits {
                        job_id: job.id,
                        fields: job.fields.clone(),
                        target_month_ym: app.edit_target_month.clone(),
                    },
                ),
            );
            proof {
                let shown = app.jobs.deep_view()[app.ui.selected as int];
                assert(shown == job@);
                assert(effects.deep_view() =~= seq![
                    EffectView::Send(
                        WorkerCmdView::CommitJobEdits {
                            job_id: shown.id,
                            fields: shown.fields,
                            target_month_ym: app.edit_target_month@,
                        },
                    ),
                ]);
            }
            app.ui.screen = Screen::Main;
            app.ui.status = "Committed (writing sheet/exporting pdf...)".to_owned();
            return KeyOutcome { quit: false, effects };
        }
    } else if matches_shortcut(&key, app.shortcuts.edit_job.target_month.as_slice()) {
        let value = app.edit_target_month.clone();
        open_box(app, "Target month (YYYY-MM):", value, InputCallbackId::EditTargetMonth);
    } else if matches_shortcut(&key, app.shortcuts.edit_job.edit_field.as_slice()) && app.ui.selected
        < app.jobs.len() {
        let index = app.ui.editing_field_idx;
        if index <= 4 {
            let fields = &app.jobs[app.ui.selected].fields;
            proof {
                assert(app.jobs.deep_view()[app.ui.selected as int].fields == fields@);
            }
            let value = if index == 0 {
                fields.date_ymd.clone()
            } else if index == 1 {
                fields.reason.clone()
            } else if index == 2 {
                i64_to_string(fields.amount_yen)
            } else if index == 3 {
                fields.category.clone()
            } else {
                fields.note.clone()
            };
            let prompt = if index == 0 {
                "Date (YYYY-MM-DD):"
            } else if index == 1 {
                "Reason:"
            } else if index == 2 {
                "Amount (yen):"
            } else if index == 3 {
                "Category:"
            } else {
                "Note:"
            };
            app.input_box = Some(
                InputBoxState {
                    prompt: prompt.to_owned(),
                    value,
                    cursor: 0,
                    callback_id: InputCallbackId::EditJobField(index),
                },
            );
        }
    }
    quiet()
}

/// A key in the wizard.
pub fn handle_wizard_key(app: &mut App, key: KeyEvent, credentials_found: bool) -> (out:
    KeyOutcome)
    ensures
        wizard_key(old(app)@, key, credentials_found) == (KeyResult {
            app: final(app)@,
            quit: out.quit,
            effects: out.effects.deep_view(),
        }),
{
    if matches_shortcut(&key, app.shortcuts.wizard.proceed.as_slice()) {
        match app.wizard_state.current_step {
            WizardStep::Welcome => {
                app.wizard_state.next_step();
            },
            WizardStep::CheckAuth => {
                if !credentials_found {
                    app.ui.error = Some(
                        "assets/credentials.json not found. Please add it.".to_owned(),
                    );
                } else {
                    app.ui.error = None;
                    app.wizard_state.next_step();
                }
            },
            WizardStep::InputFolderId => {
                let value = app.in_folder.clone();
                open_box(app, "Input folder ID:", value, InputCallbackId::WizardInputFolder);
            },
            WizardStep::OutputFolderId => {
                let value = app.out_folder.clone();
                open_box(app, "Output folder ID:", value, InputCallbackId::WizardOutputFolder);
            },
            WizardStep::TemplateSheetId => {
                let value = app.template_id.clone();
                open_box(app, "Template sheet ID:", value, InputCallbackId::WizardTemplateId);
            },
            WizardStep::UserName => {
                let value = app.full_name.clone();
                open_box(app, "Your full name:", value, InputCallbackId::WizardFullName);
            },
            WizardStep::Complete => {
                if app.in_folder.as_str().is_empty() || app.out_folder.as_str().is_empty()
                    || app.template_id.as_str().is_empty() {
                    app.ui.error = Some("Required fields are missing.".to_owned());
                    app.wizard_state.current_step = WizardStep::InputFolderId;
                    return quiet();
                }
                let mut effects = save_settings(app);
                app.ui.screen = Screen::Main;
                app.ui.status = "Setup complete!".to_owned();
                let ghost saved = effects.deep_view();
                let mut refresh = request_refresh(app);
                let ghost asked = refresh.effects.deep_view();
                effects.append(&mut refresh.effects);
                proof {
                    assert(effects.deep_view() =~= saved + asked);
                }
                return KeyOutcome { quit: false, effects };
            },
        }
    } else if matches_shortcut(&key, app.shortcuts.wizard.skip.as_slice()) {
        app.wizard_state.next_step();
    }
    quiet()
}

/// Puts a confirmed text where it was asked for.
pub fn apply_input_callback(app: &mut App, callback_id: InputCallbackId, value: String)
    ensures
        final(app)@ == input_applied(old(app)@, callback_id, value@),
{
    match callback_id {
        InputCallbackId::SettingsInputFolder => {
            app.in_folder = value;
        },
        InputCallbackId::SettingsOutputFolder => {
            app.out_folder = value;
        },
        InputCallbackId::SettingsTemplateId => {
            app.template_id = value;
        },
        InputCallbackId::SettingsFullName => {
            app.full_name = value;
        },
        InputCallbackId::EditTargetMonth => {
            app.edit_target_month = value;
        },
        InputCallbackId::EditJobField(index) => {
            if app.ui.selected < app.jobs.len() {
                let ghost before = app.jobs.deep_view();
                let at = app.ui.selected;
                if index == 0 {
                    app.jobs[at].fields.date_ymd = value;
                } else if index == 1 {
                    app.jobs[at].fields.reason = value;
                } else if index == 2 {
                    app.jobs[at].fields.amount_yen = match parse_i64(value.as_str()) {
                        Some(amount) => amount,
                        None => 0,
                    };
                } else if index == 3 {
                    app.jobs[at].fields.category = value;
                } else if index == 4 {
                    app.jobs[at].fields.note = value;
                }
                proof {
                    let job = before[at as int];
                    assert(app.jobs.deep_view() =~= before.update(
                        at as int,
                        JobView { fields: with_field(job.fields, index as nat, value@), ..job },
                    ));
                }
            }
        },
        InputCallbackId::WizardInputFolder => {
            app.in_folder = value;
            app.wizard_state.next_step();
        },
        InputCallbackId::WizardOutputFolder => {
            app.out_folder = value;
            app.wizard_state.next_step();
        },
        InputCallbackId::WizardTemplateId => {
            app.template_id = value;
            app.wizard_state.next_step();
        },
        InputCallbackId::WizardFullName => {
            app.full_name = value;
            app.wizard_state.next_step();
        },
    }
}

/// A key while an input box is open.
pub fn handle_input_box_key(app: &mut App, key: KeyEvent) -> (out: KeyOutcome)
    requires
        old(app)@.wf(),
    ensures
        input_box_key(old(app)@, key) == (KeyResult {
            app: final(app)@,
            quit: out.quit,
            effects: out.effects.deep_view(),
        }),
        final(app)@.wf(),
{
    let mut state = match app.input_box.take() {
        Some(state) => state,
        None => {
            return quiet();
        },
    };
    if is_ctrl_c(&key) {
        app.input_box = Some(state);
        return leave();
    }
    if matches_shortcut(&key, app.shortcuts.input_box.confirm.as_slice()) {
        apply_input_callback(app, state.callback_id, state.value);
        return quiet();
    } else if matches_shortcut(&key, app.shortcuts.input_box.cancel.as_slice()) {
        return quiet();
    } else if matches_shortcut(&key, app.shortcuts.input_box.backspace.as_slice()) {
        state.backspace();
    } else if matches_shortcut(&key, app.shortcuts.input_box.delete.as_slice()) {
        state.delete();
    } else if matches_shortcut(&key, app.shortcuts.input_box.left.as_slice()) {
        state.move_left();
    } else if matches_shortcut(&key, app.shortcuts.input_box.right.as_slice()) {
        state.move_right();
    } else if matches_shortcut(&key, app.shortcuts.input_box.home.as_slice()) {
        state.move_home();
    } else if matches_shortcut(&key, app.shortcuts.input_box.end.as_slice()) {
        state.move_end();
    } else if matches_shortcut(&key, app.shortcuts.input_box.clear_line.as_slice()) {
        state.clear_line();
    } else {
        match key.code {
            KeyCode::Char(c) => {
                if key.modifiers.bits & CONTROL != CONTROL {
                    state.insert_char(c);
                }
            },
            _ => {},
        }
    }
    app.input_box = Some(state);
    quiet()
}

/// A pressed key: an open input box takes it, else the screen in view.
/// `credentials_found` tells whether the credentials file is in its place;
/// only the wizard asks for it.
pub fn handle_key(app: &mut App, key: KeyEvent, credentials_found: bool) -> (out: KeyOutcome)
    requires
        old(app)@.wf(),
    ensures
        key_result(old(app)@, key, credentials_found) == (KeyResult {
            app: final(app)@,
            quit: out.quit,
            effects: out.effects.deep_view(),
        }),
        final(app)@.wf(),
{
    if app.input_box.is_some() {
        return handle_input_box_key(app, key);
    }
    match app.ui.screen {
        Screen::Main => handle_main_key(app, key),
        Screen::Settings => handle_settings_key(app, key),
        Screen::EditJob => handle_edit_job_key(app, key),
        Screen::InitialSetup => handle_wizard_key(app, key, credentials_found),
    }
}

/// A pressed key, Control with `c` ending the application before anything
/// else.
pub fn dispatch_key(app: &mut App, key: KeyEvent, credentials_found: bool) -> (out: KeyOutcome)
    requires
        old(app)@.wf(),
    ensures
        dispatched(old(app)@, key, credentials_found) == (KeyResult {
            app: final(app)@,
            quit: out.quit,
            effects: out.effects.deep_view(),
        }),
        final(app)@.wf(),
{
    if is_ctrl_c(&key) {
        return leave();
    }
    handle_key(app, key, credentials_found)
}

} // verus!
