//! The state of the front end and what changes it: the events of the
//! worker, and the keys the user presses.
//!
//! Nothing here touches the terminal, the settings file or the queue to
//! the worker. What is to be done beyond the state is handed back as a
//! list of effects, to be performed in their order.

pub mod handlers;
pub mod render;

use crate::config::{placeholder_name, Config, ConfigView};
use crate::events::{Screen, UiState, UiStateView};
use crate::input::{InputBoxState, InputBoxView};
use crate::jobs::{Job, JobStatusView, JobView};
use crate::shortcuts::{Shortcuts, ShortcutsView};
use crate::text::{
    decimal, push_decimal, signed_decimal, str_eq, two_digit_decimal, two_digits, i64_to_string,
};
use crate::wizard::{WizardState, WizardStep};
use crate::worker::{WorkerCmd, WorkerCmdView, WorkerEvent, WorkerEventView};
use vstd::prelude::*;

verus! {

/// The state of the front end.
#[derive(Debug, PartialEq, Eq)]
pub struct App {
    /// The settings in force.
    pub cfg: Config,
    /// The screen in view and what goes with it.
    pub ui: UiState,
    /// The jobs, one for each receipt image.
    pub jobs: Vec<Job>,
    /// The input folder as edited on the settings screen.
    pub in_folder: String,
    /// The output folder as edited on the settings screen.
    pub out_folder: String,
    /// The template as edited on the settings screen.
    pub template_id: String,
    /// The user's name as edited on the settings screen.
    pub full_name: String,
    /// The month that committed expenses belong to, `YYYY-MM`.
    pub edit_target_month: String,
    /// The input box, while one is open.
    pub input_box: Option<InputBoxState>,
    /// Where the first-start wizard stands.
    pub wizard_state: WizardState,
    /// The shortcuts in force.
    pub shortcuts: Shortcuts,
}

/// Something to be done outside the state of the front end.
#[derive(Debug, PartialEq, Eq)]
pub enum Effect {
    /// Write these settings to the settings file.
    SaveConfig(Config),
    /// Send this command to the worker.
    Send(WorkerCmd),
}

/// What a pressed key leads to, beyond the new state.
#[derive(Debug, PartialEq, Eq)]
pub struct KeyOutcome {
    /// Whether the application is to end.
    pub quit: bool,
    /// What is to be done, in this order.
    pub effects: Vec<Effect>,
}

/// `App` over mathematical values.
pub struct AppView {
    pub cfg: ConfigView,
    pub ui: UiStateView,
    pub jobs: Seq<JobView>,
    pub in_folder: Seq<char>,
    pub out_folder: Seq<char>,
    pub template_id: Seq<char>,
    pub full_name: Seq<char>,
    pub edit_target_month: Seq<char>,
    pub input_box: Option<InputBoxView>,
    pub wizard_state: WizardState,
    pub shortcuts: ShortcutsView,
}

/// `Effect` over mathematical values.
pub enum EffectView {
    SaveConfig(ConfigView),
    Send(WorkerCmdView),
}

/// A pressed key's whole result: the new state, whether to end, and what
/// is to be done.
pub struct KeyResult {
    pub app: AppView,
    pub quit: bool,
    pub effects: Seq<EffectView>,
}

impl View for App {
    type V = AppView;

    open spec fn view(&self) -> AppView {
        AppView {
            cfg: self.cfg@,
            ui: self.ui@,
            jobs: self.jobs.deep_view(),
            in_folder: self.in_folder@,
            out_folder: self.out_folder@,
            template_id: self.template_id@,
            full_name: self.full_name@,
            edit_target_month: self.edit_target_month@,
            input_box: match self.input_box {
                Some(b) => Some(b@),
                None => None,
            },
            wizard_state: self.wizard_state,
            shortcuts: self.shortcuts@,
        }
    }
}

impl View for Effect {
    type V = EffectView;

    open spec fn view(&self) -> EffectView {
        match self {
            Effect::SaveConfig(cfg) => EffectView::SaveConfig(cfg@),
            Effect::Send(cmd) => EffectView::Send(cmd@),
        }
    }
}

impl DeepView for Effect {
    type V = EffectView;

    open spec fn deep_view(&self) -> EffectView {
        self@
    }
}

impl AppView {
    /// The state with the status line `status`.
    pub open spec fn with_status(self, status: Seq<char>) -> AppView {
        AppView { ui: UiStateView { status, ..self.ui }, ..self }
    }

    /// The state with the screen `screen` in view.
    pub open spec fn with_screen(self, screen: Screen) -> AppView {
        AppView { ui: UiStateView { screen, ..self.ui }, ..self }
    }

    /// The state with the error `error` to show, or none.
    pub open spec fn with_error(self, error: Option<Seq<char>>) -> AppView {
        AppView { ui: UiStateView { error, ..self.ui }, ..self }
    }

    /// The state with the edited settings taken back from the settings in
    /// force.
    pub open spec fn reloaded(self) -> AppView {
        AppView {
            in_folder: self.cfg.google.input_folder_id,
            out_folder: self.cfg.google.output_folder_id,
            template_id: self.cfg.google.template_sheet_id,
            full_name: self.cfg.user.full_name,
            ..self
        }
    }

    /// The settings in force with the edited settings put in.
    pub open spec fn edited_cfg(self) -> ConfigView {
        ConfigView {
            google: crate::config::GoogleCfgView {
                input_folder_id: self.in_folder,
                output_folder_id: self.out_folder,
                template_sheet_id: self.template_id,
            },
            user: crate::config::UserCfgView { full_name: self.full_name },
            ..self.cfg
        }
    }

    /// Whether an open input box has its cursor within its text.
    pub open spec fn wf(self) -> bool {
        self.input_box matches Some(b) ==> b.cursor <= b.value.len()
    }
}

/// Whether the settings name all three places of the document store.
pub open spec fn places_set(cfg: ConfigView) -> bool {
    &&& cfg.google.input_folder_id.len() > 0
    &&& cfg.google.output_folder_id.len() > 0
    &&& cfg.google.template_sheet_id.len() > 0
}

/// Whether the wizard is due: a place is missing, or the user's name is
/// still the placeholder.
pub open spec fn setup_needed(cfg: ConfigView) -> bool {
    !places_set(cfg) || cfg.user.full_name == placeholder_name()
}

/// The target month for a year and a month: the year, a hyphen, and the
/// month at least two digits wide.
pub open spec fn target_month_text(year: int, month: nat) -> Seq<char> {
    signed_decimal(year) + "-"@ + two_digit_decimal(month)
}

/// The state of a fresh start with the settings `cfg`: the wizard where it
/// is due, else the list of jobs; nothing selected, nothing loaded, no box
/// open, the status `Ready`.
pub open spec fn initial_app(
    cfg: ConfigView,
    shortcuts: ShortcutsView,
    edit_target_month: Seq<char>,
) -> AppView {
    AppView {
        cfg,
        ui: UiStateView {
            screen: if setup_needed(cfg) {
                Screen::InitialSetup
            } else {
                Screen::Main
            },
            selected: 0,
            log: Seq::empty(),
            status: "Ready"@,
            editing_field_idx: 0,
            error: None,
        },
        jobs: Seq::empty(),
        in_folder: cfg.google.input_folder_id,
        out_folder: cfg.google.output_folder_id,
        template_id: cfg.google.template_sheet_id,
        full_name: cfg.user.full_name,
        edit_target_month,
        input_box: None,
        wizard_state: WizardState { current_step: WizardStep::Welcome, total_steps: 7 },
        shortcuts,
    }
}

/// The status line after `count` jobs were loaded.
pub open spec fn loaded_text(count: nat) -> Seq<char> {
    "Loaded "@ + decimal(count) + " jobs"@
}

/// The status line for an error of the worker.
pub open spec fn error_status_text(message: Seq<char>) -> Seq<char> {
    "Error: "@ + message
}

/// The place of the first job with the identifier `job_id`, or the number
/// of jobs where there is none.
pub open spec fn first_with_id(jobs: Seq<JobView>, job_id: u128) -> nat
    decreases jobs.len(),
{
    if jobs.len() == 0 {
        0
    } else if jobs[0].id == job_id {
        0
    } else {
        1 + first_with_id(jobs.drop_first(), job_id)
    }
}

/// The jobs with the first job of the identifier `job_id` moved to
/// `status`; the jobs as they are where none has the identifier.
pub open spec fn with_job_status(
    jobs: Seq<JobView>,
    job_id: u128,
    status: JobStatusView,
) -> Seq<JobView> {
    let at = first_with_id(jobs, job_id) as int;
    if at < jobs.len() {
        jobs.update(at, JobView { status, ..jobs[at] })
    } else {
        jobs
    }
}

/// The state after an event of the worker:
///
/// - a list of jobs replaces the jobs, all of them, puts the selection on
///   the first row and tells in the status line how many were loaded;
/// - a report on a job moves the first job with that identifier to the
///   reported stage, and changes nothing where no job has it;
/// - a log remark is added at the end of the log;
/// - an error message goes into the status line.
pub open spec fn after_event(app: AppView, event: WorkerEventView) -> AppView {
    match event {
        WorkerEventView::JobsLoaded(jobs) => AppView {
            jobs,
            ui: UiStateView { selected: 0, status: loaded_text(jobs.len()), ..app.ui },
            ..app
        },
        WorkerEventView::JobUpdated { job_id, status } => AppView {
            jobs: with_job_status(app.jobs, job_id, status),
            ..app
        },
        WorkerEventView::Log(text) => AppView {
            ui: UiStateView { log: app.ui.log.push(text), ..app.ui },
            ..app
        },
        WorkerEventView::Error(message) => app.with_status(error_status_text(message)),
    }
}

/// What asking for a refresh leads to: the command goes to the worker
/// where the settings name all places, and the status line says so; else
/// nothing is sent, and the status line asks for the settings.
pub open spec fn refresh_requested(app: AppView) -> KeyResult {
    if places_set(app.cfg) {
        KeyResult {
            app: app.with_status("Refreshing jobs..."@),
            quit: false,
            effects: seq![EffectView::Send(WorkerCmdView::RefreshJobs)],
        }
    } else {
        KeyResult {
            app: app.with_status("Settings required (press t)"@),
            quit: false,
            effects: Seq::empty(),
        }
    }
}

/// What a fresh start asks for: a refresh where the list of jobs is in
/// view, and nothing while the wizard is.
pub open spec fn start_requested(app: AppView) -> KeyResult {
    if app.ui.screen == Screen::Main {
        refresh_requested(app)
    } else {
        KeyResult { app, quit: false, effects: Seq::empty() }
    }
}

/// The first job with the identifier `job_id` stands where `first_with_id`
/// says, and no job before it has the identifier.
pub proof fn lemma_first_with_id(jobs: Seq<JobView>, job_id: u128)
    ensures
        first_with_id(jobs, job_id) <= jobs.len(),
        forall|i: int| 0 <= i < first_with_id(jobs, job_id) ==> (#[trigger] jobs[i]).id != job_id,
        first_with_id(jobs, job_id) < jobs.len() ==> jobs[first_with_id(jobs, job_id) as int].id
            == job_id,
    decreases jobs.len(),
{
    if jobs.len() > 0 && jobs[0].id != job_id {
        let rest = jobs.drop_first();
        lemma_first_with_id(rest, job_id);
        assert forall|i: int| 0 <= i < first_with_id(jobs, job_id) implies (#[trigger] jobs[i]).id
            != job_id by {
            if i > 0 {
                assert(jobs[i] == rest[i - 1]);
            }
        }
        if first_with_id(jobs, job_id) < jobs.len() {
            assert(jobs[first_with_id(jobs, job_id) as int] == rest[first_with_id(rest, job_id) as int]);
        }
    }
}

/// A place that holds the identifier and has none before it is the place
/// of the first job with the identifier.
pub proof fn lemma_first_with_id_is(jobs: Seq<JobView>, job_id: u128, at: int)
    requires
        0 <= at <= jobs.len(),
        forall|i: int| 0 <= i < at ==> (#[trigger] jobs[i]).id != job_id,
        at < jobs.len() ==> jobs[at].id == job_id,
    ensures
        first_with_id(jobs, job_id) == at,
    decreases jobs.len(),
{
    if at > 0 {
        let rest = jobs.drop_first();
        assert(jobs[0].id != job_id);
        assert forall|i: int| 0 <= i < at - 1 implies (#[trigger] rest[i]).id != job_id by {
            assert(rest[i] == jobs[i + 1]);
        }
        if at - 1 < rest.len() {
            assert(rest[at - 1] == jobs[at]);
        }
        lemma_first_with_id_is(rest, job_id, at - 1);
    }
}

/// Whether the wizard is due for the settings `cfg`.
pub fn needs_initial_setup(cfg: &Config) -> (needed: bool)
    ensures
        needed == setup_needed(cfg@),
{
    cfg.google.input_folder_id.as_str().is_empty() || cfg.google.output_folder_id.as_str().is_empty()
        || cfg.google.template_sheet_id.as_str().is_empty() || str_eq(
        cfg.user.full_name.as_str(),
        "Your Name",
    )
}

/// The target month for the year `year` and the month `month`.
pub fn format_target_month(year: i32, month: u32) -> (text: String)
    ensures
        text@ == target_month_text(year as int, month as nat),
{
    let mut out = i64_to_string(year as i64);
    out.append("-");
    out.append(two_digits(month as u64).as_str());
    out
}

/// Reads the clock with `chrono::Local::now` and takes year and month of
/// the local date with `Datelike::year` and `Datelike::month`. What comes
/// back depends on the clock and the time zone of the machine; the contract
/// claims only what `month` documents, a number from 1 to 12.
#[verifier::external_body]
fn local_year_and_month() -> (now: (i32, u32))
    ensures
        1 <= now.1 <= 12,
{
    let now = chrono::Local::now();
    (chrono::Datelike::year(&now), chrono::Datelike::month(&now))
}

/// The target month of today, by the clock of the machine.
pub fn current_target_month() -> (text: String)
    ensures
        exists|year: int, month: nat|
            1 <= month <= 12 && text@ == #[trigger] target_month_text(year, month),
{
    let (year, month) = local_year_and_month();
    let text = format_target_month(year, month);
    proof {
        assert(text@ == target_month_text(year as int, month as nat));
    }
    text
}

impl App {
    /// The state of a fresh start with the settings `cfg`.
    pub fn new(cfg: Config, shortcuts: Shortcuts, edit_target_month: String) -> (app: App)
        ensures
            app@ == initial_app(cfg@, shortcuts@, edit_target_month@),
            app@.wf(),
    {
        let screen = if needs_initial_setup(&cfg) {
            Screen::InitialSetup
        } else {
            Screen::Main
        };
        let in_folder = cfg.google.input_folder_id.clone();
        let out_folder = cfg.google.output_folder_id.clone();
        let template_id = cfg.google.template_sheet_id.clone();
        let full_name = cfg.user.full_name.clone();
        let log: Vec<String> = Vec::new();
        let jobs: Vec<Job> = Vec::new();
        proof {
            assert(log.deep_view() =~= Seq::<Seq<char>>::empty());
            assert(jobs.deep_view() =~= Seq::<JobView>::empty());
        }
        App {
            cfg,
            ui: UiState {
                screen,
                selected: 0,
                log,
                status: "Ready".to_owned(),
                editing_field_idx: 0,
                error: None,
            },
            jobs,
            in_folder,
            out_folder,
            template_id,
            full_name,
            edit_target_month,
            input_box: None,
            wizard_state: WizardState::new(),
            shortcuts,
        }
    }

    /// Whether an open input box has its cursor within its text.
    pub fn is_well_formed(&self) -> (ok: bool)
        ensures
            ok == self@.wf(),
    {
        match &self.input_box {
            Some(b) => b.cursor <= b.value.as_str().unicode_len(),
            None => true,
        }
    }
}

/// Takes an event of the worker into the state.
pub fn handle_worker_event(app: &mut App, event: WorkerEvent)
    ensures
        final(app)@ == after_event(old(app)@, event@),
        old(app)@.wf() ==> final(app)@.wf(),
{
    match event {
        WorkerEvent::JobsLoaded(jobs) => {
            let mut status = "Loaded ".to_owned();
            push_decimal(&mut status, jobs.len() as u64);
            status.append(" jobs");
            app.jobs = jobs;
            app.ui.selected = 0;
            app.ui.status = status;
        },
        WorkerEvent::JobUpdated { job_id, status } => {
            let mut i: usize = 0;
            while i < app.jobs.len() && app.jobs[i].id != job_id
                invariant
                    i <= app.jobs.len(),
                    *app == *old(app),
                    forall|k: int| 0 <= k < i ==> (#[trigger] app.jobs.deep_view()[k]).id != job_id,
                decreases app.jobs.len() - i,
            {
                i += 1;
            }
            proof {
                if i < app.jobs.len() {
                    assert(app.jobs.deep_view()[i as int].id == job_id);
                }
                lemma_first_with_id_is(app.jobs.deep_view(), job_id, i as int);
            }
            if i < app.jobs.len() {
                let ghost before = app.jobs.deep_view();
                app.jobs[i].status = status;
                proof {
                    assert(app.jobs.deep_view() =~= before.update(
                        i as int,
                        JobView { status: status@, ..before[i as int] },
                    ));
                }
            }
        },
        WorkerEvent::Log(text) => {
            let ghost before = app.ui.log.deep_view();
            app.ui.log.push(text);
            proof {
                assert(app.ui.log.deep_view() =~= before.push(text@));
            }
        },
        WorkerEvent::Error(message) => {
            let mut status = "Error: ".to_owned();
            status.append(message.as_str());
            app.ui.status = status;
        },
    }
}

/// Asks for a refresh: the command is handed back to be sent where the
/// settings name all places.
pub fn request_refresh(app: &mut App) -> (out: KeyOutcome)
    ensures
        refresh_requested(old(app)@) == (KeyResult {
            app: final(app)@,
            quit: out.quit,
            effects: out.effects.deep_view(),
        }),
{
    let mut effects: Vec<Effect> = Vec::new();
    if app.cfg.google.input_folder_id.as_str().is_empty()
        || app.cfg.google.output_folder_id.as_str().is_empty()
        || app.cfg.google.template_sheet_id.as_str().is_empty() {
        app.ui.status = "Settings required (press t)".to_owned();
        proof {
            assert(effects.deep_view() =~= Seq::<EffectView>::empty());
        }
    } else {
        effects.push(Effect::Send(WorkerCmd::RefreshJobs));
        app.ui.status = "Refreshing jobs...".to_owned();
        proof {
            assert(effects.deep_view() =~= seq![EffectView::Send(WorkerCmdView::RefreshJobs)]);
        }
    }
    KeyOutcome { quit: false, effects }
}

/// What is to be done right after a fresh start: a refresh is asked for
/// where the list of jobs is in view; the wizard asks for none.
pub fn request_initial_refresh(app: &mut App) -> (out: KeyOutcome)
    ensures
        start_requested(old(app)@) == (KeyResult {
            app: final(app)@,
            quit: out.quit,
            effects: out.effects.deep_view(),
        }),
{
    match app.ui.screen {
        Screen::Main => request_refresh(app),
        _ => {
            let effects: Vec<Effect> = Vec::new();
            proof {
                assert(effects.deep_view() =~= Seq::<EffectView>::empty());
            }
            KeyOutcome { quit: false, effects }
        },
    }
}

/// A list of jobs replaces the jobs, all of them. Whatever the state and
/// whatever came before: after a list is taken in, the jobs are those of
/// the list and no others; so after two lists in a row, nothing of the
/// first is left but what the second brings.
pub proof fn law_loaded_jobs_replace_all(
    app: AppView,
    first: Seq<JobView>,
    second: Seq<JobView>,
)
    ensures
        after_event(app, WorkerEventView::JobsLoaded(first)).jobs == first,
        after_event(
            after_event(app, WorkerEventView::JobsLoaded(first)),
            WorkerEventView::JobsLoaded(second),
        ).jobs == second,
        after_event(
            after_event(app, WorkerEventView::JobsLoaded(first)),
            WorkerEventView::JobsLoaded(second),
        ) == after_event(app, WorkerEventView::JobsLoaded(second)),
{
}

/// A report on a job changes that job's stage and nothing else: the same
/// jobs stay, in their order, with their identifiers, names and fields.
pub proof fn law_report_changes_stage_only(
    app: AppView,
    job_id: u128,
    status: JobStatusView,
    i: int,
)
    requires
        0 <= i < app.jobs.len(),
    ensures
        ({
            let after = after_event(app, WorkerEventView::JobUpdated { job_id, status });
            &&& after.jobs.len() == app.jobs.len()
            &&& after.jobs[i] == (JobView { status: after.jobs[i].status, ..app.jobs[i] })
            &&& after.jobs[i].status == if i == first_with_id(app.jobs, job_id) {
                status
            } else {
                app.jobs[i].status
            }
            &&& app.jobs[i].id != job_id ==> after.jobs[i] == app.jobs[i]
        }),
{
    lemma_first_with_id(app.jobs, job_id);
}

} // verus!
