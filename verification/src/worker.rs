//! The background worker: it takes commands one at a time, drives each
//! job through its stages, and reports what happened.
//!
//! The worker is a state machine. It never performs outside work itself:
//! `Worker::pending` says what it needs done next (a command fetched, a
//! token acquired, a call to the document store), and `Worker::step` takes
//! the answer, moves on, and hands back the events to publish. Whoever drives
//! it publishes those events before doing what is pending next.

pub mod laws;
pub mod plan;

use crate::config::{Config, ConfigView};
use crate::google::drive::{DriveFile, DriveFileView};
use crate::google::sheets::{ValueRange, ValueRangeView};
use crate::jobs::{
    empty_fields, is_random_id, Job, JobStatus, JobStatusView, JobView, ReceiptFields,
    ReceiptFieldsView,
};
use crate::worker::plan::{build_updates, commit_updates, pdf_name, pdf_name_text, sheet_name, sheet_name_text};
use vstd::prelude::*;

verus! {

/// How many commands may wait for the worker; the front end is held back
/// when the queue is full.
pub const COMMAND_QUEUE_CAPACITY: usize = 64;

/// How many events may wait for the front end; more than commands, so that
/// a burst of reports does not hold the worker back.
pub const EVENT_QUEUE_CAPACITY: usize = 256;

/// What the front end asks of the worker.
#[derive(Debug, PartialEq, Eq)]
pub enum WorkerCmd {
    /// Look for receipt images again.
    RefreshJobs,
    /// Work with these settings from now on.
    SaveSettings(Config),
    /// Write the fields of a job, then export and upload the PDF.
    CommitJobEdits { job_id: u128, fields: ReceiptFields, target_month_ym: String },
}

/// What the worker reports to the front end.
#[derive(Debug, PartialEq, Eq)]
pub enum WorkerEvent {
    /// The complete list of jobs; it replaces any earlier list.
    JobsLoaded(Vec<Job>),
    /// A job has reached a new stage.
    JobUpdated { job_id: u128, status: JobStatus },
    /// A remark for the log.
    Log(String),
    /// An error to show to the user.
    Error(String),
}

/// The job that a commit is about.
#[derive(Debug, PartialEq, Eq)]
pub struct CommitJob {
    /// Identifier of the job.
    pub job_id: u128,
    /// The fields to write.
    pub fields: ReceiptFields,
    /// The month the expense belongs to, `YYYY-MM`.
    pub target_month_ym: String,
}

/// Outside work that the worker needs done.
#[derive(Debug, PartialEq, Eq)]
pub enum Request {
    /// Prepare the source of access tokens; done once, at the start.
    Authenticate,
    /// Take the next command from the queue.
    NextCommand,
    /// Acquire a fresh access token.
    AccessToken,
    /// List the images in a folder.
    ListImages { token: String, folder_id: String },
    /// Find the sheet that an identifier stands for.
    ResolveSheet { token: String, file_id: String },
    /// Copy a file under a new name.
    CopyFile { token: String, file_id: String, new_name: String },
    /// Read the name of the first sheet of a spreadsheet.
    SheetTitle { token: String, spreadsheet_id: String },
    /// Count the filled cells of a column from a row downwards.
    CountRows {
        token: String,
        spreadsheet_id: String,
        sheet_title: String,
        col: String,
        start_row: u32,
    },
    /// Write a batch of values.
    BatchUpdate { token: String, spreadsheet_id: String, updates: Vec<ValueRange> },
    /// Export a spreadsheet as PDF.
    ExportPdf { token: String, sheet_file_id: String },
    /// Upload a PDF into a folder.
    UploadPdf { token: String, parent_folder_id: String, filename: String, pdf_bytes: Vec<u8> },
    /// Nothing: the worker has stopped.
    Stop,
}

/// The outcome of outside work. Each failure carries its cause as text.
#[derive(Debug, PartialEq, Eq)]
pub enum Reply {
    /// Outcome of `Request::Authenticate`.
    Authenticated(Result<(), String>),
    /// Outcome of `Request::NextCommand`; `None` when the queue is closed.
    Command(Option<WorkerCmd>),
    /// Outcome of `Request::AccessToken`.
    Token(Result<String, String>),
    /// Outcome of `Request::ListImages`.
    Images(Result<Vec<DriveFile>, String>),
    /// Outcome of `Request::ResolveSheet`: the sheet's identifier.
    SheetResolved(Result<String, String>),
    /// Outcome of `Request::CopyFile`: the copy's identifier.
    Copied(Result<String, String>),
    /// Outcome of `Request::SheetTitle`.
    SheetTitle(Result<String, String>),
    /// Outcome of `Request::CountRows`.
    RowCount(Result<u32, String>),
    /// Outcome of `Request::BatchUpdate`.
    Written(Result<(), String>),
    /// Outcome of `Request::ExportPdf`: the bytes of the PDF.
    Exported(Result<Vec<u8>, String>),
    /// Outcome of `Request::UploadPdf`: the uploaded file's identifier.
    Uploaded(Result<String, String>),
}

/// What the worker is in the middle of.
#[derive(Debug, PartialEq, Eq)]
pub enum Phase {
    /// Waiting for the token source to be prepared.
    Starting,
    /// Waiting for a command.
    Idle,
    /// Refreshing: waiting for a token.
    RefreshToken,
    /// Refreshing: waiting for the list of images.
    RefreshList { token: String },
    /// Committing: waiting for a token.
    CommitToken { job: CommitJob },
    /// Committing: waiting for the template to be resolved.
    CommitResolve { job: CommitJob, token: String },
    /// Committing: waiting for the copy of the template.
    CommitCopy { job: CommitJob, token: String, template_sheet_id: String },
    /// Committing: waiting for the name of the copy's first sheet.
    CommitTitle { job: CommitJob, token: String, sheet_id: String },
    /// Committing: waiting for the number of rows already filled.
    CommitCount { job: CommitJob, token: String, sheet_id: String, sheet_title: String },
    /// Committing: waiting for the values to be written.
    CommitWrite {
        job: CommitJob,
        token: String,
        sheet_id: String,
        sheet_title: String,
        existing: u32,
    },
    /// Committing: waiting for the PDF.
    CommitExport { job: CommitJob, token: String, sheet_id: String },
    /// Committing: waiting for the upload.
    CommitUpload { job: CommitJob, token: String, pdf: Vec<u8> },
    /// Stopped for good.
    Stopped,
}

/// The worker: its settings and what it is in the middle of.
#[derive(Debug, PartialEq, Eq)]
pub struct Worker {
    /// The settings in force.
    pub cfg: Config,
    /// What the worker is in the middle of.
    pub phase: Phase,
}

/// The outcome of one step: the worker after it, and the events to publish.
#[derive(Debug, PartialEq, Eq)]
pub struct Step {
    /// The worker after the step.
    pub worker: Worker,
    /// The events to publish, in this order, before anything else is done.
    pub events: Vec<WorkerEvent>,
}

/// `WorkerCmd` over mathematical values.
pub enum WorkerCmdView {
    RefreshJobs,
    SaveSettings(ConfigView),
    CommitJobEdits { job_id: u128, fields: ReceiptFieldsView, target_month_ym: Seq<char> },
}

/// `WorkerEvent` over mathematical values.
pub enum WorkerEventView {
    JobsLoaded(Seq<JobView>),
    JobUpdated { job_id: u128, status: JobStatusView },
    Log(Seq<char>),
    Error(Seq<char>),
}

/// `CommitJob` over mathematical values.
pub struct CommitJobView {
    pub job_id: u128,
    pub fields: ReceiptFieldsView,
    pub target_month_ym: Seq<char>,
}

/// `Request` over mathematical values.
pub enum RequestView {
    Authenticate,
    NextCommand,
    AccessToken,
    ListImages { token: Seq<char>, folder_id: Seq<char> },
    ResolveSheet { token: Seq<char>, file_id: Seq<char> },
    CopyFile { token: Seq<char>, file_id: Seq<char>, new_name: Seq<char> },
    SheetTitle { token: Seq<char>, spreadsheet_id: Seq<char> },
    CountRows {
        token: Seq<char>,
        spreadsheet_id: Seq<char>,
        sheet_title: Seq<char>,
        col: Seq<char>,
        start_row: nat,
    },
    BatchUpdate { token: Seq<char>, spreadsheet_id: Seq<char>, updates: Seq<ValueRangeView> },
    ExportPdf { token: Seq<char>, sheet_file_id: Seq<char> },
    UploadPdf {
        token: Seq<char>,
        parent_folder_id: Seq<char>,
        filename: Seq<char>,
        pdf_bytes: Seq<u8>,
    },
    Stop,
}

/// `Reply` over mathematical values.
pub enum ReplyView {
    Authenticated(Result<(), Seq<char>>),
    Command(Option<WorkerCmdView>),
    Token(Result<Seq<char>, Seq<char>>),
    Images(Result<Seq<DriveFileView>, Seq<char>>),
    SheetResolved(Result<Seq<char>, Seq<char>>),
    Copied(Result<Seq<char>, Seq<char>>),
    SheetTitle(Result<Seq<char>, Seq<char>>),
    RowCount(Result<nat, Seq<char>>),
    Written(Result<(), Seq<char>>),
    Exported(Result<Seq<u8>, Seq<char>>),
    Uploaded(Result<Seq<char>, Seq<char>>),
}

/// `Phase` over mathematical values.
pub enum PhaseView {
    Starting,
    Idle,
    RefreshToken,
    RefreshList { token: Seq<char> },
    CommitToken { job: CommitJobView },
    CommitResolve { job: CommitJobView, token: Seq<char> },
    CommitCopy { job: CommitJobView, token: Seq<char>, template_sheet_id: Seq<char> },
    CommitTitle { job: CommitJobView, token: Seq<char>, sheet_id: Seq<char> },
    CommitCount { job: CommitJobView, token: Seq<char>, sheet_id: Seq<char>, sheet_title: Seq<char> },
    CommitWrite {
        job: CommitJobView,
        token: Seq<char>,
        sheet_id: Seq<char>,
        sheet_title: Seq<char>,
        existing: nat,
    },
    CommitExport { job: CommitJobView, token: Seq<char>, sheet_id: Seq<char> },
    CommitUpload { job: CommitJobView, token: Seq<char>, pdf: Seq<u8> },
    Stopped,
}

/// `Worker` over mathematical values.
pub struct WorkerView {
    pub cfg: ConfigView,
    pub phase: PhaseView,
}

/// `Step` over mathematical values.
pub struct StepView {
    pub worker: WorkerView,
    pub events: Seq<WorkerEventView>,
}

impl View for WorkerCmd {
    type V = WorkerCmdView;

    open spec fn view(&self) -> WorkerCmdView {
        match self {
            WorkerCmd::RefreshJobs => WorkerCmdView::RefreshJobs,
            WorkerCmd::SaveSettings(cfg) => WorkerCmdView::SaveSettings(cfg@),
            WorkerCmd::CommitJobEdits { job_id, fields, target_month_ym } => {
                WorkerCmdView::CommitJobEdits {
                    job_id: *job_id,
                    fields: fields@,
                    target_month_ym: target_month_ym@,
                }
            },
        }
    }
}

impl View for WorkerEvent {
    type V = WorkerEventView;

    open spec fn view(&self) -> WorkerEventView {
        match self {
            WorkerEvent::JobsLoaded(jobs) => WorkerEventView::JobsLoaded(jobs.deep_view()),
            WorkerEvent::JobUpdated { job_id, status } => WorkerEventView::JobUpdated {
                job_id: *job_id,
                status: status@,
            },
            WorkerEvent::Log(text) => WorkerEventView::Log(text@),
            WorkerEvent::Error(text) => WorkerEventView::Error(text@),
        }
    }
}

impl DeepView for WorkerEvent {
    type V = WorkerEventView;

    open spec fn deep_view(&self) -> WorkerEventView {
        self@
    }
}

impl View for CommitJob {
    type V = CommitJobView;

    open spec fn view(&self) -> CommitJobView {
        CommitJobView {
            job_id: self.job_id,
            fields: self.fields@,
            target_month_ym: self.target_month_ym@,
        }
    }
}

impl View for Request {
    type V = RequestView;

    open spec fn view(&self) -> RequestView {
        match self {
            Request::Authenticate => RequestView::Authenticate,
            Request::NextCommand => RequestView::NextCommand,
            Request::AccessToken => RequestView::AccessToken,
            Request::ListImages { token, folder_id } => RequestView::ListImages {
                token: token@,
                folder_id: folder_id@,
            },
            Request::ResolveSheet { token, file_id } => RequestView::ResolveSheet {
                token: token@,
                file_id: file_id@,
            },
            Request::CopyFile { token, file_id, new_name } => RequestView::CopyFile {
                token: token@,
                file_id: file_id@,
                new_name: new_name@,
            },
            Request::SheetTitle { token, spreadsheet_id } => RequestView::SheetTitle {
                token: token@,
                spreadsheet_id: spreadsheet_id@,
            },
            Request::CountRows { token, spreadsheet_id, sheet_title, col, start_row } => {
                RequestView::CountRows {
                    token: token@,
                    spreadsheet_id: spreadsheet_id@,
                    sheet_title: sheet_title@,
                    col: col@,
                    start_row: *start_row as nat,
                }
            },
            Request::BatchUpdate { token, spreadsheet_id, updates } => RequestView::BatchUpdate {
                token: token@,
                spreadsheet_id: spreadsheet_id@,
                updates: updates.deep_view(),
            },
            Request::ExportPdf { token, sheet_file_id } => RequestView::ExportPdf {
                token: token@,
                sheet_file_id: sheet_file_id@,
            },
            Request::UploadPdf { token, parent_folder_id, filename, pdf_bytes } => {
                RequestView::UploadPdf {
                    token: token@,
                    parent_folder_id: parent_folder_id@,
                    filename: filename@,
                    pdf_bytes: pdf_bytes@,
                }
            },
            Request::Stop => RequestView::Stop,
        }
    }
}

/// An answer that carries text, as mathematical text.
pub open spec fn text_result(r: Result<String, String>) -> Result<Seq<char>, Seq<char>> {
    match r {
        Ok(text) => Ok(text@),
        Err(cause) => Err(cause@),
    }
}

/// An answer that carries nothing, with its cause as mathematical text.
pub open spec fn unit_result(r: Result<(), String>) -> Result<(), Seq<char>> {
    match r {
        Ok(_) => Ok(()),
        Err(cause) => Err(cause@),
    }
}

impl View for Reply {
    type V = ReplyView;

    open spec fn view(&self) -> ReplyView {
        match self {
            Reply::Authenticated(r) => ReplyView::Authenticated(unit_result(*r)),
            Reply::Command(None) => ReplyView::Command(None),
            Reply::Command(Some(cmd)) => ReplyView::Command(Some(cmd@)),
            Reply::Token(r) => ReplyView::Token(text_result(*r)),
            Reply::Images(Ok(files)) => ReplyView::Images(Ok(files.deep_view())),
            Reply::Images(Err(cause)) => ReplyView::Images(Err(cause@)),
            Reply::SheetResolved(r) => ReplyView::SheetResolved(text_result(*r)),
            Reply::Copied(r) => ReplyView::Copied(text_result(*r)),
            Reply::SheetTitle(r) => ReplyView::SheetTitle(text_result(*r)),
            Reply::RowCount(Ok(n)) => ReplyView::RowCount(Ok(*n as nat)),
            Reply::RowCount(Err(cause)) => ReplyView::RowCount(Err(cause@)),
            Reply::Written(r) => ReplyView::Written(unit_result(*r)),
            Reply::Exported(Ok(bytes)) => ReplyView::Exported(Ok(bytes@)),
            Reply::Exported(Err(cause)) => ReplyView::Exported(Err(cause@)),
            Reply::Uploaded(r) => ReplyView::Uploaded(text_result(*r)),
        }
    }
}

impl View for Phase {
    type V = PhaseView;

    open spec fn view(&self) -> PhaseView {
        match self {
            Phase::Starting => PhaseView::Starting,
            Phase::Idle => PhaseView::Idle,
            Phase::RefreshToken => PhaseView::RefreshToken,
            Phase::RefreshList { token } => PhaseView::RefreshList { token: token@ },
            Phase::CommitToken { job } => PhaseView::CommitToken { job: job@ },
            Phase::CommitResolve { job, token } => PhaseView::CommitResolve {
                job: job@,
                token: token@,
            },
            Phase::CommitCopy { job, token, template_sheet_id } => PhaseView::CommitCopy {
                job: job@,
                token: token@,
                template_sheet_id: template_sheet_id@,
            },
            Phase::CommitTitle { job, token, sheet_id } => PhaseView::CommitTitle {
                job: job@,
                token: token@,
                sheet_id: sheet_id@,
            },
            Phase::CommitCount { job, token, sheet_id, sheet_title } => PhaseView::CommitCount {
                job: job@,
                token: token@,
                sheet_id: sheet_id@,
                sheet_title: sheet_title@,
            },
            Phase::CommitWrite { job, token, sheet_id, sheet_title, existing } => {
                PhaseView::CommitWrite {
                    job: job@,
                    token: token@,
                    sheet_id: sheet_id@,
                    sheet_title: sheet_title@,
                    existing: *existing as nat,
                }
            },
            Phase::CommitExport { job, token, sheet_id } => PhaseView::CommitExport {
                job: job@,
                token: token@,
                sheet_id: sheet_id@,
            },
            Phase::CommitUpload { job, token, pdf } => PhaseView::CommitUpload {
                job: job@,
                token: token@,
                pdf: pdf@,
            },
            Phase::Stopped => PhaseView::Stopped,
        }
    }
}

impl View for Worker {
    type V = WorkerView;

    open spec fn view(&self) -> WorkerView {
        WorkerView { cfg: self.cfg@, phase: self.phase@ }
    }
}

impl View for Step {
    type V = StepView;

    open spec fn view(&self) -> StepView {
        StepView { worker: self.worker@, events: self.events.deep_view() }
    }
}

impl Clone for WorkerEvent {
    fn clone(&self) -> (copy: Self)
        ensures
            copy@ == self@,
    {
        match self {
            WorkerEvent::JobsLoaded(jobs) => {
                let copies = jobs.clone();
                proof {
                    assert(copies.deep_view() =~= jobs.deep_view());
                }
                WorkerEvent::JobsLoaded(copies)
            },
            WorkerEvent::JobUpdated { job_id, status } => WorkerEvent::JobUpdated {
                job_id: *job_id,
                status: status.clone(),
            },
            WorkerEvent::Log(text) => WorkerEvent::Log(text.clone()),
            WorkerEvent::Error(text) => WorkerEvent::Error(text.clone()),
        }
    }
}

/// The job made for one listed image: it waits for the user, with empty
/// fields, under the identifier `id`.
pub open spec fn job_from_file(file: DriveFileView, id: u128) -> JobView {
    JobView {
        id,
        drive_file_id: file.id,
        filename: file.name,
        status: JobStatusView::WaitingUserFix,
        fields: empty_fields(),
    }
}

/// One job for each listed image, in the order of the listing, the i-th
/// under the i-th identifier of `ids`.
pub open spec fn jobs_from_files(files: Seq<DriveFileView>, ids: Seq<u128>) -> Seq<JobView> {
    Seq::new(files.len(), |i: int| job_from_file(files[i], ids[i]))
}

/// The identifiers of the jobs that the events of one step announce.
pub open spec fn loaded_ids(events: Seq<WorkerEventView>) -> Seq<u128> {
    if events.len() == 1 && events[0] is JobsLoaded {
        events[0]->JobsLoaded_0.map_values(|job: JobView| job.id)
    } else {
        Seq::empty()
    }
}

/// The report that a job has reached `status`.
pub open spec fn status_event(job_id: u128, status: JobStatusView) -> WorkerEventView {
    WorkerEventView::JobUpdated { job_id, status }
}

/// What the user is told when the token source cannot be prepared.
pub open spec fn startup_failure_text(cause: Seq<char>) -> Seq<char> {
    "OAuth init failed: "@ + cause
}

/// What the user is told when no token can be acquired.
pub open spec fn token_failure_text(cause: Seq<char>) -> Seq<char> {
    "token failed: "@ + cause
}

/// What the user is told when the template cannot be resolved.
pub open spec fn resolve_failure_text(cause: Seq<char>) -> Seq<char> {
    "resolve failed: "@ + cause
}

/// What the user is told when the template cannot be copied.
pub open spec fn copy_failure_text(cause: Seq<char>) -> Seq<char> {
    "copy failed: "@ + cause
}

/// What the user is told when the name of the first sheet cannot be read.
pub open spec fn title_failure_text(cause: Seq<char>) -> Seq<char> {
    "sheet title failed: "@ + cause
}

/// What the user is told when the filled rows cannot be counted.
pub open spec fn count_failure_text(cause: Seq<char>) -> Seq<char> {
    "row count failed: "@ + cause
}

/// What the user is told when the values cannot be written.
pub open spec fn write_failure_text(cause: Seq<char>) -> Seq<char> {
    "write failed: "@ + cause
}

/// What the user is told when the sheet cannot be exported.
pub open spec fn export_failure_text(cause: Seq<char>) -> Seq<char> {
    "export failed: "@ + cause
}

/// What the user is told when the PDF cannot be uploaded.
pub open spec fn upload_failure_text(cause: Seq<char>) -> Seq<char> {
    "upload failed: "@ + cause
}

/// What the user is told when the stage that a worker in `phase` is waiting
/// for fails with `cause`: the operation attempted, then the cause.
pub open spec fn stage_failure_text(phase: PhaseView, cause: Seq<char>) -> Seq<char> {
    match phase {
        PhaseView::RefreshToken => token_failure_text(cause),
        PhaseView::RefreshList { .. } => list_failure_text(cause),
        PhaseView::CommitToken { .. } => token_failure_text(cause),
        PhaseView::CommitResolve { .. } => resolve_failure_text(cause),
        PhaseView::CommitCopy { .. } => copy_failure_text(cause),
        PhaseView::CommitTitle { .. } => title_failure_text(cause),
        PhaseView::CommitCount { .. } => count_failure_text(cause),
        PhaseView::CommitWrite { .. } => write_failure_text(cause),
        PhaseView::CommitExport { .. } => export_failure_text(cause),
        PhaseView::CommitUpload { .. } => upload_failure_text(cause),
        PhaseView::Starting => startup_failure_text(cause),
        _ => cause,
    }
}

/// What the user is told when the listing fails.
pub open spec fn list_failure_text(cause: Seq<char>) -> Seq<char> {
    "list failed: "@ + cause
}

/// What the user is told when a refresh finds no input folder in the settings.
pub open spec fn missing_input_text() -> Seq<char> {
    "input_folder_id is not set"@
}

/// What the user is told when a commit finds no template or no output
/// folder in the settings.
pub open spec fn missing_output_text() -> Seq<char> {
    "template_sheet_id / output_folder_id is not set"@
}

/// What the log says when new settings are in force.
pub open spec fn settings_updated_text() -> Seq<char> {
    "settings updated"@
}

/// Whether the settings name what a refresh needs.
pub open spec fn can_refresh(cfg: ConfigView) -> bool {
    cfg.google.input_folder_id.len() > 0
}

/// Whether the settings name what a commit needs.
pub open spec fn can_commit(cfg: ConfigView) -> bool {
    cfg.google.template_sheet_id.len() > 0 && cfg.google.output_folder_id.len() > 0
}

/// A step that moves to `phase` and publishes nothing.
pub open spec fn quiet(cfg: ConfigView, phase: PhaseView) -> StepView {
    StepView { worker: WorkerView { cfg, phase }, events: Seq::empty() }
}

/// A step that ends the command with one event.
pub open spec fn finished(cfg: ConfigView, event: WorkerEventView) -> StepView {
    StepView { worker: WorkerView { cfg, phase: PhaseView::Idle }, events: seq![event] }
}

/// A step that moves a commit on to `phase` and reports the stage `status`.
pub open spec fn advanced(
    cfg: ConfigView,
    phase: PhaseView,
    job_id: u128,
    status: JobStatusView,
) -> StepView {
    StepView { worker: WorkerView { cfg, phase }, events: seq![status_event(job_id, status)] }
}

/// A step that ends a commit in failure, the job reported as `Error` with
/// `message`.
pub open spec fn failed(cfg: ConfigView, job_id: u128, message: Seq<char>) -> StepView {
    finished(cfg, status_event(job_id, JobStatusView::Error(message)))
}

/// What an idle worker does with a command.
pub open spec fn on_command(cfg: ConfigView, cmd: WorkerCmdView) -> StepView {
    match cmd {
        WorkerCmdView::SaveSettings(new_cfg) => finished(
            new_cfg,
            WorkerEventView::Log(settings_updated_text()),
        ),
        WorkerCmdView::RefreshJobs => if can_refresh(cfg) {
            quiet(cfg, PhaseView::RefreshToken)
        } else {
            finished(cfg, WorkerEventView::Error(missing_input_text()))
        },
        WorkerCmdView::CommitJobEdits { job_id, fields, target_month_ym } => if can_commit(cfg) {
            advanced(
                cfg,
                PhaseView::CommitToken { job: CommitJobView { job_id, fields, target_month_ym } },
                job_id,
                JobStatusView::WritingSheet,
            )
        } else {
            StepView {
                worker: WorkerView { cfg, phase: PhaseView::Idle },
                events: seq![
                    status_event(job_id, JobStatusView::WritingSheet),
                    status_event(job_id, JobStatusView::Error(missing_output_text())),
                ],
            }
        },
    }
}

/// One step of the worker: what it becomes and what it publishes when
/// `reply` arrives. A reply that does not answer what the worker is waiting
/// for changes nothing and publishes nothing. `ids` are the identifiers
/// given to the jobs of a listing.
pub open spec fn step_spec(w: WorkerView, reply: ReplyView, ids: Seq<u128>) -> StepView {
    let cfg = w.cfg;
    match (w.phase, reply) {
        (PhaseView::Starting, ReplyView::Authenticated(Ok(_))) => quiet(cfg, PhaseView::Idle),
        (PhaseView::Starting, ReplyView::Authenticated(Err(cause))) => StepView {
            worker: WorkerView { cfg, phase: PhaseView::Stopped },
            events: seq![WorkerEventView::Error(startup_failure_text(cause))],
        },
        (PhaseView::Idle, ReplyView::Command(None)) => quiet(cfg, PhaseView::Stopped),
        (PhaseView::Idle, ReplyView::Command(Some(cmd))) => on_command(cfg, cmd),
        (PhaseView::RefreshToken, ReplyView::Token(Ok(token))) => quiet(
            cfg,
            PhaseView::RefreshList { token },
        ),
        (PhaseView::RefreshToken, ReplyView::Token(Err(cause))) => finished(
            cfg,
            WorkerEventView::Error(token_failure_text(cause)),
        ),
        (PhaseView::RefreshList { token }, ReplyView::Images(Ok(files))) => finished(
            cfg,
            WorkerEventView::JobsLoaded(jobs_from_files(files, ids)),
        ),
        (PhaseView::RefreshList { token }, ReplyView::Images(Err(cause))) => finished(
            cfg,
            WorkerEventView::Error(list_failure_text(cause)),
        ),
        (PhaseView::CommitToken { job }, ReplyView::Token(Ok(token))) => quiet(
            cfg,
            PhaseView::CommitResolve { job, token },
        ),
        (PhaseView::CommitToken { job }, ReplyView::Token(Err(cause))) => failed(
            cfg,
            job.job_id,
            token_failure_text(cause),
        ),
        (PhaseView::CommitResolve { job, token }, ReplyView::SheetResolved(Ok(id))) => quiet(
            cfg,
            PhaseView::CommitCopy { job, token, template_sheet_id: id },
        ),
        (PhaseView::CommitResolve { job, token }, ReplyView::SheetResolved(Err(cause))) => failed(
            cfg,
            job.job_id,
            resolve_failure_text(cause),
        ),
        (PhaseView::CommitCopy { job, token, template_sheet_id }, ReplyView::Copied(Ok(id))) => {
            quiet(cfg, PhaseView::CommitTitle { job, token, sheet_id: id })
        },
        (
            PhaseView::CommitCopy { job, token, template_sheet_id },
            ReplyView::Copied(Err(cause)),
        ) => failed(cfg, job.job_id, copy_failure_text(cause)),
        (PhaseView::CommitTitle { job, token, sheet_id }, ReplyView::SheetTitle(Ok(title))) => {
            quiet(cfg, PhaseView::CommitCount { job, token, sheet_id, sheet_title: title })
        },
        (PhaseView::CommitTitle { job, token, sheet_id }, ReplyView::SheetTitle(Err(cause))) => {
            failed(cfg, job.job_id, title_failure_text(cause))
        },
        (
            PhaseView::CommitCount { job, token, sheet_id, sheet_title },
            ReplyView::RowCount(Ok(existing)),
        ) => quiet(cfg, PhaseView::CommitWrite { job, token, sheet_id, sheet_title, existing }),
        (
            PhaseView::CommitCount { job, token, sheet_id, sheet_title },
            ReplyView::RowCount(Err(cause)),
        ) => failed(cfg, job.job_id, count_failure_text(cause)),
        (
            PhaseView::CommitWrite { job, token, sheet_id, sheet_title, existing },
            ReplyView::Written(Ok(_)),
        ) => advanced(
            cfg,
            PhaseView::CommitExport { job, token, sheet_id },
            job.job_id,
            JobStatusView::ExportingPdf,
        ),
        (
            PhaseView::CommitWrite { job, token, sheet_id, sheet_title, existing },
            ReplyView::Written(Err(cause)),
        ) => failed(cfg, job.job_id, write_failure_text(cause)),
        (PhaseView::CommitExport { job, token, sheet_id }, ReplyView::Exported(Ok(pdf))) => {
            advanced(
                cfg,
                PhaseView::CommitUpload { job, token, pdf },
                job.job_id,
                JobStatusView::UploadingPdf,
            )
        },
        (PhaseView::CommitExport { job, token, sheet_id }, ReplyView::Exported(Err(cause))) => {
            failed(cfg, job.job_id, export_failure_text(cause))
        },
        (PhaseView::CommitUpload { job, token, pdf }, ReplyView::Uploaded(Ok(_))) => finished(
            cfg,
            status_event(job.job_id, JobStatusView::Done),
        ),
        (PhaseView::CommitUpload { job, token, pdf }, ReplyView::Uploaded(Err(cause))) => failed(
            cfg,
            job.job_id,
            upload_failure_text(cause),
        ),
        _ => quiet(cfg, w.phase),
    }
}

/// Whether `reply` is an outcome of the outside work `request`.
pub open spec fn answers(reply: ReplyView, request: RequestView) -> bool {
    match request {
        RequestView::Authenticate => reply is Authenticated,
        RequestView::NextCommand => reply is Command,
        RequestView::AccessToken => reply is Token,
        RequestView::ListImages { .. } => reply is Images,
        RequestView::ResolveSheet { .. } => reply is SheetResolved,
        RequestView::CopyFile { .. } => reply is Copied,
        RequestView::SheetTitle { .. } => reply is SheetTitle,
        RequestView::CountRows { .. } => reply is RowCount,
        RequestView::BatchUpdate { .. } => reply is Written,
        RequestView::ExportPdf { .. } => reply is Exported,
        RequestView::UploadPdf { .. } => reply is Uploaded,
        RequestView::Stop => false,
    }
}

/// The outside work that a worker in state `w` is waiting for.
pub open spec fn request_for(w: WorkerView) -> RequestView {
    let cfg = w.cfg;
    match w.phase {
        PhaseView::Starting => RequestView::Authenticate,
        PhaseView::Idle => RequestView::NextCommand,
        PhaseView::RefreshToken => RequestView::AccessToken,
        PhaseView::RefreshList { token } => RequestView::ListImages {
            token,
            folder_id: cfg.google.input_folder_id,
        },
        PhaseView::CommitToken { job } => RequestView::AccessToken,
        PhaseView::CommitResolve { job, token } => RequestView::ResolveSheet {
            token,
            file_id: cfg.google.template_sheet_id,
        },
        PhaseView::CommitCopy { job, token, template_sheet_id } => RequestView::CopyFile {
            token,
            file_id: template_sheet_id,
            new_name: sheet_name_text(job.target_month_ym, cfg.user.full_name),
        },
        PhaseView::CommitTitle { job, token, sheet_id } => RequestView::SheetTitle {
            token,
            spreadsheet_id: sheet_id,
        },
        PhaseView::CommitCount { job, token, sheet_id, sheet_title } => RequestView::CountRows {
            token,
            spreadsheet_id: sheet_id,
            sheet_title,
            col: cfg.general_expense.date_col,
            start_row: cfg.general_expense.start_row,
        },
        PhaseView::CommitWrite { job, token, sheet_id, sheet_title, existing } => {
            RequestView::BatchUpdate {
                token,
                spreadsheet_id: sheet_id,
                updates: commit_updates(cfg, job.fields, job.target_month_ym, sheet_title, existing),
            }
        },
        PhaseView::CommitExport { job, token, sheet_id } => RequestView::ExportPdf {
            token,
            sheet_file_id: sheet_id,
        },
        PhaseView::CommitUpload { job, token, pdf } => RequestView::UploadPdf {
            token,
            parent_folder_id: cfg.google.output_folder_id,
            filename: pdf_name_text(job.target_month_ym, cfg.user.full_name),
            pdf_bytes: pdf,
        },
        PhaseView::Stopped => RequestView::Stop,
    }
}

/// The report that job `job_id` has reached `status`.
fn status_update(job_id: u128, status: JobStatus) -> (event: WorkerEvent)
    ensures
        event@ == status_event(job_id, status@),
{
    WorkerEvent::JobUpdated { job_id, status }
}

/// The events of a step that publishes nothing.
fn no_events() -> (events: Vec<WorkerEvent>)
    ensures
        events.deep_view() == Seq::<WorkerEventView>::empty(),
{
    let events: Vec<WorkerEvent> = Vec::new();
    proof {
        assert(events.deep_view() =~= Seq::<WorkerEventView>::empty());
    }
    events
}

/// The events of a step that publishes `event` alone.
fn one_event(event: WorkerEvent) -> (events: Vec<WorkerEvent>)
    ensures
        events.deep_view() == seq![event@],
{
    let mut events: Vec<WorkerEvent> = Vec::new();
    events.push(event);
    proof {
        assert(events.deep_view() =~= seq![event@]);
    }
    events
}

/// `prefix` followed by `cause`.
fn explain(prefix: &str, cause: &String) -> (text: String)
    ensures
        text@ == prefix@ + cause@,
{
    let mut out = prefix.to_owned();
    out.append(cause.as_str());
    out
}

/// One job for each listed image, each waiting for the user.
fn jobs_for(files: &Vec<DriveFile>) -> (jobs: Vec<Job>)
    ensures
        jobs.deep_view() == jobs_from_files(
            files.deep_view(),
            jobs.deep_view().map_values(|job: JobView| job.id),
        ),
        forall|i: int| 0 <= i < jobs.len() ==> is_random_id(#[trigger] jobs[i].id),
{
    let mut jobs: Vec<Job> = Vec::new();
    let mut i: usize = 0;
    while i < files.len()
        invariant
            i <= files.len(),
            jobs.len() == i,
            forall|k: int| 0 <= k < i ==> (#[trigger] jobs[k])@ == job_from_file(files[k]@, jobs[k].id),
            forall|k: int| 0 <= k < i ==> is_random_id(#[trigger] jobs[k].id),
        decreases files.len() - i,
    {
        let mut job = Job::new(files[i].id.clone(), files[i].name.clone());
        job.status = JobStatus::WaitingUserFix;
        jobs.push(job);
        i += 1;
    }
    proof {
        assert(jobs.deep_view() =~= jobs_from_files(
            files.deep_view(),
            jobs.deep_view().map_values(|job: JobView| job.id),
        ));
    }
    jobs
}

impl Worker {
    /// A worker that has not started yet, with the settings `cfg`.
    pub fn new(cfg: Config) -> (worker: Worker)
        ensures
            worker@ == (WorkerView { cfg: cfg@, phase: PhaseView::Starting }),
    {
        Worker { cfg, phase: Phase::Starting }
    }

    /// Whether the worker has stopped for good.
    pub fn is_stopped(&self) -> (stopped: bool)
        ensures
            stopped == (self@.phase is Stopped),
    {
        match &self.phase {
            Phase::Stopped => true,
            _ => false,
        }
    }

    /// The outside work the worker is waiting for. The worker asks for a
    /// command only when no command is in progress, and calls the document
    /// store only on behalf of the command in progress.
    pub fn pending(&self) -> (request: Request)
        ensures
            request@ == request_for(self@),
    {
        let cfg = &self.cfg;
        match &self.phase {
            Phase::Starting => Request::Authenticate,
            Phase::Idle => Request::NextCommand,
            Phase::RefreshToken => Request::AccessToken,
            Phase::RefreshList { token } => Request::ListImages {
                token: token.clone(),
                folder_id: cfg.google.input_folder_id.clone(),
            },
            Phase::CommitToken { job } => Request::AccessToken,
            Phase::CommitResolve { job, token } => Request::ResolveSheet {
                token: token.clone(),
                file_id: cfg.google.template_sheet_id.clone(),
            },
            Phase::CommitCopy { job, token, template_sheet_id } => Request::CopyFile {
                token: token.clone(),
                file_id: template_sheet_id.clone(),
                new_name: sheet_name(job.target_month_ym.as_str(), cfg.user.full_name.as_str()),
            },
            Phase::CommitTitle { job, token, sheet_id } => Request::SheetTitle {
                token: token.clone(),
                spreadsheet_id: sheet_id.clone(),
            },
            Phase::CommitCount { job, token, sheet_id, sheet_title } => Request::CountRows {
                token: token.clone(),
                spreadsheet_id: sheet_id.clone(),
                sheet_title: sheet_title.clone(),
                col: cfg.general_expense.date_col.clone(),
                start_row: cfg.general_expense.start_row,
            },
            Phase::CommitWrite { job, token, sheet_id, sheet_title, existing } => {
                Request::BatchUpdate {
                    token: token.clone(),
                    spreadsheet_id: sheet_id.clone(),
                    updates: build_updates(
                        cfg,
                        &job.fields,
                        job.target_month_ym.as_str(),
                        sheet_title.as_str(),
                        *existing,
                    ),
                }
            },
            Phase::CommitExport { job, token, sheet_id } => Request::ExportPdf {
                token: token.clone(),
                sheet_file_id: sheet_id.clone(),
            },
            Phase::CommitUpload { job, token, pdf } => Request::UploadPdf {
                token: token.clone(),
                parent_folder_id: cfg.google.output_folder_id.clone(),
                filename: pdf_name(job.target_month_ym.as_str(), cfg.user.full_name.as_str()),
                pdf_bytes: pdf.clone(),
            },
            Phase::Stopped => Request::Stop,
        }
    }

    /// Takes a command while idle.
    fn accept(cfg: Config, cmd: WorkerCmd) -> (out: Step)
        ensures
            out@ == on_command(cfg@, cmd@),
    {
        match cmd {
            WorkerCmd::SaveSettings(new_cfg) => Step {
                worker: Worker { cfg: new_cfg, phase: Phase::Idle },
                events: one_event(WorkerEvent::Log("settings updated".to_owned())),
            },
            WorkerCmd::RefreshJobs => {
                if cfg.google.input_folder_id.as_str().is_empty() {
                    Step {
                        worker: Worker { cfg, phase: Phase::Idle },
                        events: one_event(
                            WorkerEvent::Error("input_folder_id is not set".to_owned()),
                        ),
                    }
                } else {
                    Step { worker: Worker { cfg, phase: Phase::RefreshToken }, events: no_events() }
                }
            },
            WorkerCmd::CommitJobEdits { job_id, fields, target_month_ym } => {
                let mut events: Vec<WorkerEvent> = Vec::new();
                events.push(status_update(job_id, JobStatus::WritingSheet));
                if cfg.google.template_sheet_id.as_str().is_empty()
                    || cfg.google.output_folder_id.as_str().is_empty() {
                    events.push(
                        status_update(
                            job_id,
                            JobStatus::Error(
                                "template_sheet_id / output_folder_id is not set".to_owned(),
                            ),
                        ),
                    );
                    proof {
                        assert(events.deep_view() =~= seq![
                            status_event(job_id, JobStatusView::WritingSheet),
                            status_event(job_id, JobStatusView::Error(missing_output_text())),
                        ]);
                    }
                    Step { worker: Worker { cfg, phase: Phase::Idle }, events }
                } else {
                    proof {
                        assert(events.deep_view() =~= seq![
                            status_event(job_id, JobStatusView::WritingSheet),
                        ]);
                    }
                    Step {
                        worker: Worker {
                            cfg,
                            phase: Phase::CommitToken {
                                job: CommitJob { job_id, fields, target_month_ym },
                            },
                        },
                        events,
                    }
                }
            },
        }
    }

    /// Ends the commit of job `job_id` in failure.
    fn fail(cfg: Config, job_id: u128, message: String) -> (out: Step)
        ensures
            out@ == failed(cfg@, job_id, message@),
    {
        Step {
            worker: Worker { cfg, phase: Phase::Idle },
            events: one_event(status_update(job_id, JobStatus::Error(message))),
        }
    }

    /// Moves to `phase` and publishes nothing.
    fn go(cfg: Config, phase: Phase) -> (out: Step)
        ensures
            out@ == quiet(cfg@, phase@),
    {
        Step { worker: Worker { cfg, phase }, events: no_events() }
    }

    /// Ends the command in progress with `event`.
    fn finish(cfg: Config, event: WorkerEvent) -> (out: Step)
        ensures
            out@ == finished(cfg@, event@),
    {
        Step { worker: Worker { cfg, phase: Phase::Idle }, events: one_event(event) }
    }

    /// Moves a commit on to `phase` and reports the stage `status`.
    fn advance(cfg: Config, phase: Phase, job_id: u128, status: JobStatus) -> (out: Step)
        ensures
            out@ == advanced(cfg@, phase@, job_id, status@),
    {
        Step { worker: Worker { cfg, phase }, events: one_event(status_update(job_id, status)) }
    }

    /// Takes the outcome of outside work and moves on. The worker handles one
    /// command at a time, to its end: the events of a command's last step
    /// are handed back before the worker asks for the next command.
    ///
    /// A reply that does not answer `self.pending()` is ignored: the worker
    /// stays as it is and publishes nothing.
    pub fn step(self, reply: Reply) -> (out: Step)
        ensures
            out@ == step_spec(self@, reply@, loaded_ids(out@.events)),
            forall|i: int|
                0 <= i < loaded_ids(out@.events).len() ==> is_random_id(
                    #[trigger] loaded_ids(out@.events)[i],
                ),
    {
        let cfg = self.cfg;
        match (self.phase, reply) {
            (Phase::Starting, Reply::Authenticated(Ok(_))) => Self::go(cfg, Phase::Idle),
            (Phase::Starting, Reply::Authenticated(Err(cause))) => Step {
                worker: Worker { cfg, phase: Phase::Stopped },
                events: one_event(WorkerEvent::Error(explain("OAuth init failed: ", &cause))),
            },
            (Phase::Idle, Reply::Command(None)) => Self::go(cfg, Phase::Stopped),
            (Phase::Idle, Reply::Command(Some(cmd))) => Self::accept(cfg, cmd),
            (Phase::RefreshToken, Reply::Token(Ok(token))) => Self::go(
                cfg,
                Phase::RefreshList { token },
            ),
            (Phase::RefreshToken, Reply::Token(Err(cause))) => Self::finish(
                cfg,
                WorkerEvent::Error(explain("token failed: ", &cause)),
            ),
            (Phase::RefreshList { token }, Reply::Images(Ok(files))) => {
                let jobs = jobs_for(&files);
                let out = Self::finish(cfg, WorkerEvent::JobsLoaded(jobs));
                proof {
                    assert(loaded_ids(out@.events) == jobs.deep_view().map_values(
                        |job: JobView| job.id,
                    ));
                }
                out
            },
            (Phase::RefreshList { token }, Reply::Images(Err(cause))) => Self::finish(
                cfg,
                WorkerEvent::Error(explain("list failed: ", &cause)),
            ),
            (Phase::CommitToken { job }, Reply::Token(Ok(token))) => Self::go(
                cfg,
                Phase::CommitResolve { job, token },
            ),
            (Phase::CommitToken { job }, Reply::Token(Err(cause))) => Self::fail(
                cfg,
                job.job_id,
                explain("token failed: ", &cause),
            ),
            (Phase::CommitResolve { job, token }, Reply::SheetResolved(Ok(id))) => Self::go(
                cfg,
                Phase::CommitCopy { job, token, template_sheet_id: id },
            ),
            (Phase::CommitResolve { job, token }, Reply::SheetResolved(Err(cause))) => Self::fail(
                cfg,
                job.job_id,
                explain("resolve failed: ", &cause),
            ),
            (Phase::CommitCopy { job, token, template_sheet_id }, Reply::Copied(Ok(id))) => {
                Self::go(cfg, Phase::CommitTitle { job, token, sheet_id: id })
            },
            (Phase::CommitCopy { job, token, template_sheet_id }, Reply::Copied(Err(cause))) => {
                Self::fail(cfg, job.job_id, explain("copy failed: ", &cause))
            },
            (Phase::CommitTitle { job, token, sheet_id }, Reply::SheetTitle(Ok(title))) => {
                Self::go(cfg, Phase::CommitCount { job, token, sheet_id, sheet_title: title })
            },
            (Phase::CommitTitle { job, token, sheet_id }, Reply::SheetTitle(Err(cause))) => {
                Self::fail(cfg, job.job_id, explain("sheet title failed: ", &cause))
            },
            (
                Phase::CommitCount { job, token, sheet_id, sheet_title },
                Reply::RowCount(Ok(existing)),
            ) => Self::go(cfg, Phase::CommitWrite { job, token, sheet_id, sheet_title, existing }),
            (
                Phase::CommitCount { job, token, sheet_id, sheet_title },
                Reply::RowCount(Err(cause)),
            ) => Self::fail(cfg, job.job_id, explain("row count failed: ", &cause)),
            (
                Phase::CommitWrite { job, token, sheet_id, sheet_title, existing },
                Reply::Written(Ok(_)),
            ) => {
                let job_id = job.job_id;
                Self::advance(
                    cfg,
                    Phase::CommitExport { job, token, sheet_id },
                    job_id,
                    JobStatus::ExportingPdf,
                )
            },
            (
                Phase::CommitWrite { job, token, sheet_id, sheet_title, existing },
                Reply::Written(Err(cause)),
            ) => Self::fail(cfg, job.job_id, explain("write failed: ", &cause)),
            (Phase::CommitExport { job, token, sheet_id }, Reply::Exported(Ok(pdf))) => {
                let job_id = job.job_id;
                Self::advance(
                    cfg,
                    Phase::CommitUpload { job, token, pdf },
                    job_id,
                    JobStatus::UploadingPdf,
                )
            },
            (Phase::CommitExport { job, token, sheet_id }, Reply::Exported(Err(cause))) => {
                Self::fail(cfg, job.job_id, explain("export failed: ", &cause))
            },
            (Phase::CommitUpload { job, token, pdf }, Reply::Uploaded(Ok(_))) => Self::finish(
                cfg,
                status_update(job.job_id, JobStatus::Done),
            ),
            (Phase::CommitUpload { job, token, pdf }, Reply::Uploaded(Err(cause))) => Self::fail(
                cfg,
                job.job_id,
                explain("upload failed: ", &cause),
            ),
            (phase, _) => Self::go(cfg, phase),
        }
    }
}

} // verus!
