//! What holds of every run of the worker.
//!
//! A run is a worker and the replies handed to it, one after the other. The
//! laws below speak of the worker it ends in, of the events it publishes
//! and of the outside work it asks for, for all runs.

use crate::config::ConfigView;
use crate::google::drive::DriveFileView;
use crate::jobs::JobStatusView;
use crate::worker::plan::{commit_updates, pdf_name_text, sheet_name_text};
use crate::worker::{
    answers, can_commit, can_refresh, failed, job_from_file, missing_input_text,
    missing_output_text, request_for, stage_failure_text, status_event, step_spec,
    write_failure_text, CommitJobView, PhaseView, ReplyView, RequestView, StepView,
    WorkerCmdView, WorkerEventView, WorkerView,
};
use vstd::prelude::*;

verus! {

/// One reply handed to the worker, with the identifiers drawn for the jobs
/// of a listing.
pub struct Input {
    pub reply: ReplyView,
    pub ids: Seq<u128>,
}

/// The worker after the replies `inputs`.
#[verifier::opaque]
pub open spec fn run(w: WorkerView, inputs: Seq<Input>) -> WorkerView
    decreases inputs.len(),
{
    if inputs.len() == 0 {
        w
    } else {
        step_spec(run(w, inputs.drop_last()), inputs.last().reply, inputs.last().ids).worker
    }
}

/// The events that the worker publishes over the replies `inputs`, in
/// their order.
#[verifier::opaque]
pub open spec fn run_events(w: WorkerView, inputs: Seq<Input>) -> Seq<WorkerEventView>
    decreases inputs.len(),
{
    if inputs.len() == 0 {
        Seq::empty()
    } else {
        run_events(w, inputs.drop_last()) + step_spec(
            run(w, inputs.drop_last()),
            inputs.last().reply,
            inputs.last().ids,
        ).events
    }
}

/// The outside work that the worker asks for over the replies `inputs`:
/// what is pending after each of them.
#[verifier::opaque]
pub open spec fn run_requests(w: WorkerView, inputs: Seq<Input>) -> Seq<RequestView>
    decreases inputs.len(),
{
    if inputs.len() == 0 {
        Seq::empty()
    } else {
        run_requests(w, inputs.drop_last()).push(request_for(run(w, inputs)))
    }
}

/// A commit in progress, as an observer of the events knows it.
pub struct InFlight {
    /// The job that is committed.
    pub job_id: u128,
    /// The last stage reported for it.
    pub stage: JobStatusView,
}

/// The job of the commit that a worker in `phase` is in the middle of.
pub open spec fn in_progress(phase: PhaseView) -> Option<CommitJobView> {
    match phase {
        PhaseView::CommitToken { job } => Some(job),
        PhaseView::CommitResolve { job, .. } => Some(job),
        PhaseView::CommitCopy { job, .. } => Some(job),
        PhaseView::CommitTitle { job, .. } => Some(job),
        PhaseView::CommitCount { job, .. } => Some(job),
        PhaseView::CommitWrite { job, .. } => Some(job),
        PhaseView::CommitExport { job, .. } => Some(job),
        PhaseView::CommitUpload { job, .. } => Some(job),
        _ => None,
    }
}

/// The commit in progress, if any: its job and the last stage reported
/// for it.
pub open spec fn in_flight(phase: PhaseView) -> Option<InFlight> {
    match in_progress(phase) {
        Some(job) => Some(
            InFlight {
                job_id: job.job_id,
                stage: match phase {
                    PhaseView::CommitExport { .. } => JobStatusView::ExportingPdf,
                    PhaseView::CommitUpload { .. } => JobStatusView::UploadingPdf,
                    _ => JobStatusView::WritingSheet,
                },
            },
        ),
        None => None,
    }
}

/// Whether a command is in progress.
pub open spec fn busy(phase: PhaseView) -> bool {
    !(phase is Starting || phase is Idle || phase is Stopped)
}

/// The life of jobs as an observer of the events sees it. `current` is the
/// commit in progress with its last stage. The result is the commit in
/// progress after `event`, or `None` where `event` may not follow:
///
/// - `WritingSheet` opens a commit, and only while none is in progress;
/// - `ExportingPdf` follows `WritingSheet`, `UploadingPdf` follows
///   `ExportingPdf`, and `Done` follows `UploadingPdf`, each for the job of
///   the commit in progress;
/// - `Error` ends the commit in progress at any stage;
/// - no job is ever reported as `Queued` or `WaitingUserFix`;
/// - a list of jobs, a log remark and an error message appear only while
///   no commit is in progress.
pub open spec fn observe(
    current: Option<InFlight>,
    event: WorkerEventView,
) -> Option<Option<InFlight>> {
    match event {
        WorkerEventView::JobUpdated { job_id, status } => match status {
            JobStatusView::WritingSheet => if current is None {
                Some(Some(InFlight { job_id, stage: JobStatusView::WritingSheet }))
            } else {
                None
            },
            JobStatusView::ExportingPdf => if current == Some(
                InFlight { job_id, stage: JobStatusView::WritingSheet },
            ) {
                Some(Some(InFlight { job_id, stage: JobStatusView::ExportingPdf }))
            } else {
                None
            },
            JobStatusView::UploadingPdf => if current == Some(
                InFlight { job_id, stage: JobStatusView::ExportingPdf },
            ) {
                Some(Some(InFlight { job_id, stage: JobStatusView::UploadingPdf }))
            } else {
                None
            },
            JobStatusView::Done => if current == Some(
                InFlight { job_id, stage: JobStatusView::UploadingPdf },
            ) {
                Some(None)
            } else {
                None
            },
            JobStatusView::Error(_) => if current is Some && current->0.job_id == job_id {
                Some(None)
            } else {
                None
            },
            _ => None,
        },
        _ => if current is None {
            Some(None)
        } else {
            None
        },
    }
}

/// The commit in progress after the events `log`, observed from `start`;
/// `None` where some event of `log` may not stand where it does.
pub open spec fn replay(
    start: Option<InFlight>,
    log: Seq<WorkerEventView>,
) -> Option<Option<InFlight>>
    decreases log.len(),
{
    if log.len() == 0 {
        Some(start)
    } else {
        match replay(start, log.drop_last()) {
            Some(current) => observe(current, log.last()),
            None => None,
        }
    }
}

/// Replaying two logs one after the other is replaying them as one.
pub proof fn lemma_replay_concat(
    start: Option<InFlight>,
    a: Seq<WorkerEventView>,
    b: Seq<WorkerEventView>,
)
    ensures
        replay(start, a + b) == match replay(start, a) {
            Some(current) => replay(current, b),
            None => None,
        },
    decreases b.len(),
{
    if b.len() == 0 {
        assert(a + b =~= a);
    } else {
        assert((a + b).drop_last() =~= a + b.drop_last());
        assert((a + b).last() == b.last());
        lemma_replay_concat(start, a, b.drop_last());
    }
}

/// The events of a single step obey the life of jobs: observed from the
/// commit in progress before the step, they lead to the commit in progress
/// after it.
pub proof fn lemma_step_obeys_lifecycle(w: WorkerView, reply: ReplyView, ids: Seq<u128>)
    ensures
        replay(in_flight(w.phase), step_spec(w, reply, ids).events) == Some(
            in_flight(step_spec(w, reply, ids).worker.phase),
        ),
{
    reveal_with_fuel(replay, 3);
    let out = step_spec(w, reply, ids);
    if out.events.len() == 2 {
        let first = out.events.drop_last();
        assert(first.last() == out.events[0]);
        assert(out.events.last() == out.events[1]);
    }
}

/// Sequential processing and the life of jobs. Whatever replies the worker
/// is handed, in whatever order: the events it publishes, observed from the
/// commit in progress at the outset, never break the life of jobs described
/// at `observe`, and they end in the commit that is then in progress.
///
/// So a job's stages are reported in the order `WritingSheet`,
/// `ExportingPdf`, `UploadingPdf`, `Done`, none skipped and none repeated,
/// cut short only by `Error`; and between the first report for a commit and
/// its `Done` or `Error`, nothing of another command is published: neither a
/// stage of another job, nor a list of jobs, a log remark or an error
/// message.
pub proof fn law_events_obey_lifecycle(w: WorkerView, inputs: Seq<Input>)
    ensures
        replay(in_flight(w.phase), run_events(w, inputs)) == Some(
            in_flight(run(w, inputs).phase),
        ),
    decreases inputs.len(),
{
    if inputs.len() == 0 {
        lemma_run_empty(w);
        assert(inputs =~= Seq::<Input>::empty());
    } else {
        let before = inputs.drop_last();
        law_events_obey_lifecycle(w, before);
        assert(before.push(inputs.last()) =~= inputs);
        lemma_run_push(w, before, inputs.last());
        let mid = run(w, before);
        lemma_step_obeys_lifecycle(mid, inputs.last().reply, inputs.last().ids);
        lemma_replay_concat(
            in_flight(w.phase),
            run_events(w, before),
            step_spec(mid, inputs.last().reply, inputs.last().ids).events,
        );
    }
}

/// The stages reported for the job `job_id` in the events `log`, in the
/// order of the reports.
pub open spec fn statuses_of(log: Seq<WorkerEventView>, job_id: u128) -> Seq<JobStatusView>
    decreases log.len(),
{
    if log.len() == 0 {
        Seq::empty()
    } else {
        let before = statuses_of(log.drop_last(), job_id);
        match log.last() {
            WorkerEventView::JobUpdated { job_id: reported, status } => if reported == job_id {
                before.push(status)
            } else {
                before
            },
            _ => before,
        }
    }
}

/// The life of one job as its reports show it. `stage` is the last stage
/// reported in a commit of the job that has not ended, `None` between
/// commits. The result is the same after `status`, or `None` where `status`
/// may not follow: the reports of a commit are `WritingSheet`,
/// `ExportingPdf`, `UploadingPdf` and `Done` in this order, or a beginning
/// of that and then `Error`.
pub open spec fn follow(
    stage: Option<JobStatusView>,
    status: JobStatusView,
) -> Option<Option<JobStatusView>> {
    match status {
        JobStatusView::WritingSheet => if stage is None {
            Some(Some(JobStatusView::WritingSheet))
        } else {
            None
        },
        JobStatusView::ExportingPdf => if stage == Some(JobStatusView::WritingSheet) {
            Some(Some(JobStatusView::ExportingPdf))
        } else {
            None
        },
        JobStatusView::UploadingPdf => if stage == Some(JobStatusView::ExportingPdf) {
            Some(Some(JobStatusView::UploadingPdf))
        } else {
            None
        },
        JobStatusView::Done => if stage == Some(JobStatusView::UploadingPdf) {
            Some(None)
        } else {
            None
        },
        JobStatusView::Error(_) => if stage is Some {
            Some(None)
        } else {
            None
        },
        _ => None,
    }
}

/// Where one job stands after the reports `statuses`, none having been made
/// before; `None` where they do not make up the life of a job.
pub open spec fn stage_after(statuses: Seq<JobStatusView>) -> Option<Option<JobStatusView>>
    decreases statuses.len(),
{
    if statuses.len() == 0 {
        Some(None)
    } else {
        match stage_after(statuses.drop_last()) {
            Some(stage) => follow(stage, statuses.last()),
            None => None,
        }
    }
}

/// Where the job `job_id` stands, given the commit in progress.
pub open spec fn stage_of(current: Option<InFlight>, job_id: u128) -> Option<JobStatusView> {
    match current {
        Some(commit) => if commit.job_id == job_id {
            Some(commit.stage)
        } else {
            None
        },
        None => None,
    }
}

/// In a log that obeys the life of jobs, the reports for each single job
/// make up the life of a job.
pub proof fn lemma_log_holds_job_lives(log: Seq<WorkerEventView>, job_id: u128)
    requires
        replay(None, log) is Some,
    ensures
        stage_after(statuses_of(log, job_id)) == Some(stage_of(replay(None, log)->0, job_id)),
    decreases log.len(),
{
    if log.len() > 0 {
        let before = log.drop_last();
        lemma_log_holds_job_lives(before, job_id);
        let reports = statuses_of(before, job_id);
        match log.last() {
            WorkerEventView::JobUpdated { job_id: reported, status } => {
                if reported == job_id {
                    assert(statuses_of(log, job_id).drop_last() =~= reports);
                }
            },
            _ => {},
        }
    }
}

/// Every job lives the life of a job. For a worker with no command in
/// progress and any replies handed to it: the stages reported for any one
/// job are, commit after commit, `WritingSheet`, `ExportingPdf`,
/// `UploadingPdf` and `Done` in this order, or a beginning of that and then
/// `Error`; only the last commit may still be under way, and then its
/// reports are a beginning of that order.
pub proof fn law_job_statuses_form_lives(w: WorkerView, inputs: Seq<Input>, job_id: u128)
    requires
        !busy(w.phase),
    ensures
        stage_after(statuses_of(run_events(w, inputs), job_id)) == Some(
            stage_of(in_flight(run(w, inputs).phase), job_id),
        ),
{
    law_events_obey_lifecycle(w, inputs);
    lemma_log_holds_job_lives(run_events(w, inputs), job_id);
}

/// Whether `event` ends a command: a list of jobs, a log remark, an error
/// message, or a job's `Done` or `Error`.
pub open spec fn ends_command(event: WorkerEventView) -> bool {
    match event {
        WorkerEventView::JobUpdated { job_id, status } => status.is_terminal(),
        _ => true,
    }
}

/// The events of `log` that end a command, in their order.
pub open spec fn ending_events(log: Seq<WorkerEventView>) -> Seq<WorkerEventView>
    decreases log.len(),
{
    if log.len() == 0 {
        Seq::empty()
    } else if ends_command(log.last()) {
        ending_events(log.drop_last()).push(log.last())
    } else {
        ending_events(log.drop_last())
    }
}

/// The commands that the worker takes up over the replies `inputs`, in
/// their order: those that reach it while it is idle.
pub open spec fn taken_commands(w: WorkerView, inputs: Seq<Input>) -> Seq<WorkerCmdView>
    decreases inputs.len(),
{
    if inputs.len() == 0 {
        Seq::empty()
    } else {
        let before = taken_commands(w, inputs.drop_last());
        match inputs.last().reply {
            ReplyView::Command(Some(cmd)) => if run(w, inputs.drop_last()).phase is Idle {
                before.push(cmd)
            } else {
                before
            },
            _ => before,
        }
    }
}

/// Whether `event` is an end of the command `cmd`: the log remark for new
/// settings; the list of jobs or an error message for a refresh; `Done` or
/// `Error` of its job for a commit.
pub open spec fn ends(cmd: WorkerCmdView, event: WorkerEventView) -> bool {
    match cmd {
        WorkerCmdView::SaveSettings(_) => event is Log,
        WorkerCmdView::RefreshJobs => event is JobsLoaded || event is Error,
        WorkerCmdView::CommitJobEdits { job_id, .. } => event matches WorkerEventView::JobUpdated {
            job_id: reported,
            status,
        } && reported == job_id && status.is_terminal(),
    }
}

/// Whether a worker in `phase` is in the middle of the command `cmd`.
pub open spec fn carries_out(phase: PhaseView, cmd: WorkerCmdView) -> bool {
    match in_progress(phase) {
        Some(job) => cmd == WorkerCmdView::CommitJobEdits {
            job_id: job.job_id,
            fields: job.fields,
            target_month_ym: job.target_month_ym,
        },
        None => busy(phase) && cmd is RefreshJobs,
    }
}

/// Picking the events that end a command goes along with joining logs.
pub proof fn lemma_ending_events_concat(a: Seq<WorkerEventView>, b: Seq<WorkerEventView>)
    ensures
        ending_events(a + b) == ending_events(a) + ending_events(b),
    decreases b.len(),
{
    if b.len() == 0 {
        assert(a + b =~= a);
        assert(ending_events(a) + ending_events(b) =~= ending_events(a));
    } else {
        assert((a + b).drop_last() =~= a + b.drop_last());
        assert((a + b).last() == b.last());
        lemma_ending_events_concat(a, b.drop_last());
        if ends_command(b.last()) {
            assert(ending_events(a + b) =~= ending_events(a) + ending_events(b));
        }
    }
}

/// What one step does to the command in progress. `current` is the command
/// that the worker was in the middle of, if any. A step goes on with that
/// command, or ends it with one event that is an end of it, or, while idle,
/// takes up the command it is handed; and it publishes no other event that
/// ends a command.
pub proof fn lemma_step_keeps_to_its_command(
    w: WorkerView,
    reply: ReplyView,
    ids: Seq<u128>,
    current: WorkerCmdView,
)
    requires
        !(w.phase is Starting),
        busy(w.phase) ==> carries_out(w.phase, current),
    ensures
        ({
            let out = step_spec(w, reply, ids);
            let cmd = if w.phase is Idle && (reply matches ReplyView::Command(Some(_))) {
                reply->Command_0->0
            } else {
                current
            };
            let concerned = busy(w.phase) || (w.phase is Idle && (
            reply matches ReplyView::Command(Some(_))));
            &&& !(out.worker.phase is Starting)
            &&& !concerned ==> !busy(out.worker.phase) && ending_events(out.events).len() == 0
            &&& concerned && busy(out.worker.phase) ==> carries_out(out.worker.phase, cmd)
                && ending_events(out.events).len() == 0
            &&& concerned && !busy(out.worker.phase) ==> ending_events(out.events).len() == 1
                && ends(cmd, ending_events(out.events)[0])
        }),
{
    reveal_with_fuel(ending_events, 3);
    let out = step_spec(w, reply, ids);
    if out.events.len() == 2 {
        let first = out.events.drop_last();
        assert(first.last() == out.events[0]);
        assert(out.events.last() == out.events[1]);
    }
}

/// Commands are carried out one at a time and in the order in which they
/// reach the worker. For a worker that is idle at the outset and any
/// replies handed to it: the events that end a command appear in the order
/// of the commands taken up, one for each — the k-th of them is an end of
/// the k-th command — and only the last command taken up may still be
/// without its end, and then the worker is in the middle of it. As the
/// worker takes up a command only while idle, no command begins before the
/// event that ends the one before it.
pub proof fn law_commands_end_in_order(w: WorkerView, inputs: Seq<Input>)
    requires
        w.phase is Idle,
    ensures
        ({
            let taken = taken_commands(w, inputs);
            let ended = ending_events(run_events(w, inputs));
            let phase = run(w, inputs).phase;
            &&& !(phase is Starting)
            &&& ended.len() == if busy(phase) {
                taken.len() - 1
            } else {
                taken.len() as int
            }
            &&& busy(phase) ==> carries_out(phase, taken.last())
            &&& forall|k: int| 0 <= k < ended.len() ==> ends(#[trigger] taken[k], ended[k])
        }),
    decreases inputs.len(),
{
    if inputs.len() == 0 {
        lemma_run_empty(w);
        assert(inputs =~= Seq::<Input>::empty());
    } else {
        let before = inputs.drop_last();
        let next = inputs.last();
        law_commands_end_in_order(w, before);
        assert(before.push(next) =~= inputs);
        lemma_run_push(w, before, next);
        let mid = run(w, before);
        let taken_before = taken_commands(w, before);
        let current = if busy(mid.phase) {
            taken_before.last()
        } else {
            WorkerCmdView::RefreshJobs
        };
        lemma_step_keeps_to_its_command(mid, next.reply, next.ids, current);
        let out = step_spec(mid, next.reply, next.ids);
        lemma_ending_events_concat(run_events(w, before), out.events);
        let taken = taken_commands(w, inputs);
        let ended_before = ending_events(run_events(w, before));
        let ended = ending_events(run_events(w, inputs));
        assert(ended == ended_before + ending_events(out.events));
        assert forall|k: int| 0 <= k < ended.len() implies ends(#[trigger] taken[k], ended[k]) by {
            if k < ended_before.len() {
                assert(taken[k] == taken_before[k]);
                assert(ended[k] == ended_before[k]);
            } else {
                assert(ended[k] == ending_events(out.events)[0]);
            }
        }
    }
}

/// The worker asks for the next command exactly when it is idle: not at its
/// start, not once stopped, and never while a command is in progress.
pub proof fn law_commands_are_fetched_when_idle(w: WorkerView)
    ensures
        request_for(w) is NextCommand <==> w.phase is Idle,
        request_for(w) is Stop <==> w.phase is Stopped,
        request_for(w) is Authenticate <==> w.phase is Starting,
{
}

/// A command handed to a worker that is not idle is not taken up: the
/// worker stays as it is and publishes nothing.
pub proof fn law_busy_worker_takes_no_command(
    w: WorkerView,
    cmd: Option<WorkerCmdView>,
    ids: Seq<u128>,
)
    requires
        !(w.phase is Idle),
    ensures
        step_spec(w, ReplyView::Command(cmd), ids).worker == w,
        step_spec(w, ReplyView::Command(cmd), ids).events.len() == 0,
{
}

/// A refresh without an input folder in the settings publishes exactly one
/// error message and asks nothing of the token source or the document
/// store: the worker stays idle and waits for the next command.
pub proof fn law_refresh_needs_input_folder(cfg: ConfigView, ids: Seq<u128>)
    requires
        !can_refresh(cfg),
    ensures
        ({
            let w = WorkerView { cfg, phase: PhaseView::Idle };
            let out = step_spec(w, ReplyView::Command(Some(WorkerCmdView::RefreshJobs)), ids);
            &&& out.events == seq![WorkerEventView::Error(missing_input_text())]
            &&& out.worker == w
            &&& request_for(out.worker) is NextCommand
        }),
{
}

/// A refresh loads the listed images and nothing else. When the listing
/// arrives, the worker publishes one list with one job for each listed
/// image, in the order of the listing, each waiting for the user with empty
/// fields. The list owes nothing to earlier lists: the worker keeps no jobs.
pub proof fn law_refresh_loads_the_listed_images(
    cfg: ConfigView,
    token: Seq<char>,
    files: Seq<DriveFileView>,
    ids: Seq<u128>,
)
    ensures
        ({
            let w = WorkerView { cfg, phase: PhaseView::RefreshList { token } };
            let out = step_spec(w, ReplyView::Images(Ok(files)), ids);
            &&& out.worker == (WorkerView { cfg, phase: PhaseView::Idle })
            &&& out.events.len() == 1
            &&& out.events[0] matches WorkerEventView::JobsLoaded(jobs)
            &&& jobs.len() == files.len()
            &&& forall|i: int|
                0 <= i < jobs.len() ==> #[trigger] jobs[i] == job_from_file(files[i], ids[i])
        }),
{
}

/// A commit without a template or without an output folder in the settings
/// fails at once: the job is reported as `WritingSheet` and then as `Error`,
/// and nothing is asked of the token source or the document store.
pub proof fn law_commit_needs_template_and_output(
    cfg: ConfigView,
    job: CommitJobView,
    ids: Seq<u128>,
)
    requires
        !can_commit(cfg),
    ensures
        ({
            let w = WorkerView { cfg, phase: PhaseView::Idle };
            let cmd = WorkerCmdView::CommitJobEdits {
                job_id: job.job_id,
                fields: job.fields,
                target_month_ym: job.target_month_ym,
            };
            let out = step_spec(w, ReplyView::Command(Some(cmd)), ids);
            &&& out.events == seq![
                status_event(job.job_id, JobStatusView::WritingSheet),
                status_event(job.job_id, JobStatusView::Error(missing_output_text())),
            ]
            &&& out.worker == w
            &&& request_for(out.worker) is NextCommand
        }),
{
}

/// The settings change in one way only: an idle worker takes up the
/// command to save settings, and then they are the settings of the command,
/// whole. No other step touches them.
pub proof fn law_settings_are_replaced_whole(w: WorkerView, reply: ReplyView, ids: Seq<u128>)
    ensures
        ({
            let out = step_spec(w, reply, ids);
            if w.phase is Idle && (reply matches ReplyView::Command(
                Some(WorkerCmdView::SaveSettings(_)),
            )) {
                &&& reply matches ReplyView::Command(Some(WorkerCmdView::SaveSettings(new_cfg)))
                &&& out.worker.cfg == new_cfg
                &&& out.worker.phase is Idle
            } else {
                out.worker.cfg == w.cfg
            }
        }),
{
}

/// Once stopped, the worker stays stopped and publishes nothing, whatever
/// it is handed. It stops when the command queue is closed while it is
/// idle, without publishing anything.
pub proof fn law_stopped_is_final(cfg: ConfigView, inputs: Seq<Input>, ids: Seq<u128>)
    ensures
        run(WorkerView { cfg, phase: PhaseView::Stopped }, inputs) == (WorkerView {
            cfg,
            phase: PhaseView::Stopped,
        }),
        run_events(WorkerView { cfg, phase: PhaseView::Stopped }, inputs).len() == 0,
        step_spec(WorkerView { cfg, phase: PhaseView::Idle }, ReplyView::Command(None), ids)
            == (StepView {
            worker: WorkerView { cfg, phase: PhaseView::Stopped },
            events: Seq::empty(),
        }),
    decreases inputs.len(),
{
    let w = WorkerView { cfg, phase: PhaseView::Stopped };
    if inputs.len() == 0 {
        lemma_run_empty(w);
        assert(inputs =~= Seq::<Input>::empty());
    } else {
        law_stopped_is_final(cfg, inputs.drop_last(), ids);
        assert(inputs.drop_last().push(inputs.last()) =~= inputs);
        lemma_run_push(w, inputs.drop_last(), inputs.last());
    }
}

/// A reply that is no outcome of what the worker is waiting for is ignored:
/// the worker stays as it is and publishes nothing.
pub proof fn law_stray_reply_is_ignored(w: WorkerView, reply: ReplyView, ids: Seq<u128>)
    requires
        !answers(reply, request_for(w)),
    ensures
        step_spec(w, reply, ids).worker == w,
        step_spec(w, reply, ids).events.len() == 0,
{
}

/// A failure while a commit is in progress ends the commit: the job is
/// reported once as `Error`, with a message that names the operation
/// attempted and then gives the cause; the worker is idle again, and what
/// it asks for next is a command. Nothing that was done is undone: no
/// outside work is asked for on account of the failure.
pub proof fn law_failure_ends_commit(w: WorkerView, reply: ReplyView, ids: Seq<u128>)
    requires
        in_flight(w.phase) is Some,
        answers(reply, request_for(w)),
        reply_failed(reply),
    ensures
        step_spec(w, reply, ids) == failed(
            w.cfg,
            in_flight(w.phase)->0.job_id,
            stage_failure_text(w.phase, failure_cause(reply)),
        ),
        request_for(step_spec(w, reply, ids).worker) is NextCommand,
{
}

/// Whether `reply` reports a failure.
pub open spec fn reply_failed(reply: ReplyView) -> bool {
    match reply {
        ReplyView::Authenticated(r) => r is Err,
        ReplyView::Command(_) => false,
        ReplyView::Token(r) => r is Err,
        ReplyView::Images(r) => r is Err,
        ReplyView::SheetResolved(r) => r is Err,
        ReplyView::Copied(r) => r is Err,
        ReplyView::SheetTitle(r) => r is Err,
        ReplyView::RowCount(r) => r is Err,
        ReplyView::Written(r) => r is Err,
        ReplyView::Exported(r) => r is Err,
        ReplyView::Uploaded(r) => r is Err,
    }
}

/// The cause that a failed reply carries.
pub open spec fn failure_cause(reply: ReplyView) -> Seq<char> {
    match reply {
        ReplyView::Authenticated(Err(cause)) => cause,
        ReplyView::Token(Err(cause)) => cause,
        ReplyView::Images(Err(cause)) => cause,
        ReplyView::SheetResolved(Err(cause)) => cause,
        ReplyView::Copied(Err(cause)) => cause,
        ReplyView::SheetTitle(Err(cause)) => cause,
        ReplyView::RowCount(Err(cause)) => cause,
        ReplyView::Written(Err(cause)) => cause,
        ReplyView::Exported(Err(cause)) => cause,
        ReplyView::Uploaded(Err(cause)) => cause,
        _ => Seq::empty(),
    }
}

/// Handing the worker one more reply is one more step.
pub proof fn lemma_run_push(w: WorkerView, inputs: Seq<Input>, next: Input)
    ensures
        run(w, inputs.push(next)) == step_spec(run(w, inputs), next.reply, next.ids).worker,
        run_events(w, inputs.push(next)) == run_events(w, inputs) + step_spec(
            run(w, inputs),
            next.reply,
            next.ids,
        ).events,
        run_requests(w, inputs.push(next)) == run_requests(w, inputs).push(
            request_for(run(w, inputs.push(next))),
        ),
{
    reveal(run);
    reveal(run_events);
    reveal(run_requests);
    assert(inputs.push(next).drop_last() =~= inputs);
}

/// A run over no replies leaves the worker as it is, publishes nothing and
/// asks for nothing.
pub proof fn lemma_run_empty(w: WorkerView)
    ensures
        run(w, Seq::empty()) == w,
        run_events(w, Seq::empty()) == Seq::<WorkerEventView>::empty(),
        run_requests(w, Seq::empty()) == Seq::<RequestView>::empty(),
{
    reveal(run);
    reveal(run_events);
    reveal(run_requests);
}

/// The run over the first `k + 1` replies is the run over the first `k`
/// and one more step.
pub proof fn lemma_run_take(w: WorkerView, inputs: Seq<Input>, k: int)
    requires
        0 <= k < inputs.len(),
    ensures
        run(w, inputs.take(k + 1)) == step_spec(
            run(w, inputs.take(k)),
            inputs[k].reply,
            inputs[k].ids,
        ).worker,
        run_events(w, inputs.take(k + 1)) == run_events(w, inputs.take(k)) + step_spec(
            run(w, inputs.take(k)),
            inputs[k].reply,
            inputs[k].ids,
        ).events,
        run_requests(w, inputs.take(k + 1)) == run_requests(w, inputs.take(k)).push(
            request_for(run(w, inputs.take(k + 1))),
        ),
{
    assert(inputs.take(k).push(inputs[k]) =~= inputs.take(k + 1));
    lemma_run_push(w, inputs.take(k), inputs[k]);
}

/// The command that commits `job`.
pub open spec fn commit_command(job: CommitJobView) -> Input {
    Input {
        reply: ReplyView::Command(
            Some(
                WorkerCmdView::CommitJobEdits {
                    job_id: job.job_id,
                    fields: job.fields,
                    target_month_ym: job.target_month_ym,
                },
            ),
        ),
        ids: Seq::empty(),
    }
}

/// A reply, with no identifiers drawn.
pub open spec fn plain(reply: ReplyView) -> Input {
    Input { reply, ids: Seq::empty() }
}

/// The replies of a commit up to the point where the values are to be
/// written: the command, a token, the template resolved, the copy made, the
/// name of its first sheet, the number of rows filled.
pub open spec fn commit_up_to_write(
    job: CommitJobView,
    token: Seq<char>,
    template_sheet_id: Seq<char>,
    sheet_id: Seq<char>,
    sheet_title: Seq<char>,
    existing: nat,
) -> Seq<Input> {
    seq![
        commit_command(job),
        plain(ReplyView::Token(Ok(token))),
        plain(ReplyView::SheetResolved(Ok(template_sheet_id))),
        plain(ReplyView::Copied(Ok(sheet_id))),
        plain(ReplyView::SheetTitle(Ok(sheet_title))),
        plain(ReplyView::RowCount(Ok(existing))),
    ]
}

/// The outside work asked for by a commit up to the point where the
/// values are to be written: one token, the template resolved, one copy
/// made, the name of its first sheet read, its filled rows counted, one
/// batch of values written.
pub open spec fn requests_up_to_write(
    cfg: ConfigView,
    job: CommitJobView,
    token: Seq<char>,
    template_sheet_id: Seq<char>,
    sheet_id: Seq<char>,
    sheet_title: Seq<char>,
    existing: nat,
) -> Seq<RequestView> {
    seq![
        RequestView::AccessToken,
        RequestView::ResolveSheet { token, file_id: cfg.google.template_sheet_id },
        RequestView::CopyFile {
            token,
            file_id: template_sheet_id,
            new_name: sheet_name_text(job.target_month_ym, cfg.user.full_name),
        },
        RequestView::SheetTitle { token, spreadsheet_id: sheet_id },
        RequestView::CountRows {
            token,
            spreadsheet_id: sheet_id,
            sheet_title,
            col: cfg.general_expense.date_col,
            start_row: cfg.general_expense.start_row,
        },
        RequestView::BatchUpdate {
            token,
            spreadsheet_id: sheet_id,
            updates: commit_updates(cfg, job.fields, job.target_month_ym, sheet_title, existing),
        },
    ]
}

/// A commit whose every call succeeds up to the writing: the job has been
/// reported as `WritingSheet` and nothing else, and the worker waits for
/// the values to be written.
pub proof fn lemma_commit_reaches_write(
    cfg: ConfigView,
    job: CommitJobView,
    token: Seq<char>,
    template_sheet_id: Seq<char>,
    sheet_id: Seq<char>,
    sheet_title: Seq<char>,
    existing: nat,
)
    requires
        can_commit(cfg),
    ensures
        ({
            let w = WorkerView { cfg, phase: PhaseView::Idle };
            let inputs = commit_up_to_write(
                job,
                token,
                template_sheet_id,
                sheet_id,
                sheet_title,
                existing,
            );
            &&& run(w, inputs) == (WorkerView {
                cfg,
                phase: PhaseView::CommitWrite { job, token, sheet_id, sheet_title, existing },
            })
            &&& run_events(w, inputs) == seq![
                status_event(job.job_id, JobStatusView::WritingSheet),
            ]
            &&& run_requests(w, inputs) == requests_up_to_write(
                cfg,
                job,
                token,
                template_sheet_id,
                sheet_id,
                sheet_title,
                existing,
            )
        }),
{
    let w = WorkerView { cfg, phase: PhaseView::Idle };
    let written = seq![status_event(job.job_id, JobStatusView::WritingSheet)];
    let asked = requests_up_to_write(
        cfg,
        job,
        token,
        template_sheet_id,
        sheet_id,
        sheet_title,
        existing,
    );
    let inputs = commit_up_to_write(job, token, template_sheet_id, sheet_id, sheet_title, existing);
    let w1 = WorkerView { cfg, phase: PhaseView::CommitToken { job } };
    let w2 = WorkerView { cfg, phase: PhaseView::CommitResolve { job, token } };
    let w3 = WorkerView { cfg, phase: PhaseView::CommitCopy { job, token, template_sheet_id } };
    let w4 = WorkerView { cfg, phase: PhaseView::CommitTitle { job, token, sheet_id } };
    let w5 = WorkerView { cfg, phase: PhaseView::CommitCount { job, token, sheet_id, sheet_title } };
    let w6 = WorkerView {
        cfg,
        phase: PhaseView::CommitWrite { job, token, sheet_id, sheet_title, existing },
    };
    let i0 = inputs.take(0);
    let i1 = inputs.take(1);
    let i2 = inputs.take(2);
    let i3 = inputs.take(3);
    let i4 = inputs.take(4);
    let i5 = inputs.take(5);
    assert(inputs.take(6) =~= inputs);
    assert(i0 =~= Seq::<Input>::empty());
    lemma_run_empty(w);
    lemma_run_take(w, inputs, 0);
    lemma_run_take(w, inputs, 1);
    lemma_run_take(w, inputs, 2);
    lemma_run_take(w, inputs, 3);
    lemma_run_take(w, inputs, 4);
    lemma_run_take(w, inputs, 5);
    assert(run(w, i0) == w && run_events(w, i0).len() == 0 && run_requests(w, i0).len() == 0);
    assert(run(w, i1) == w1 && run_events(w, i1) == written && run_requests(w, i1) == asked.take(
        1,
    )) by {
        assert(step_spec(w, inputs[0].reply, inputs[0].ids).events == written);
        assert(run_events(w, i0) + written =~= written);
        assert(run_requests(w, i0).push(request_for(w1)) =~= asked.take(1));
    }
    assert(run(w, i2) == w2 && run_events(w, i2) == written && run_requests(w, i2) == asked.take(
        2,
    )) by {
        assert(step_spec(w1, inputs[1].reply, inputs[1].ids).events.len() == 0);
        assert(written + Seq::<WorkerEventView>::empty() =~= written);
        assert(asked.take(1).push(request_for(w2)) =~= asked.take(2));
    }
    assert(run(w, i3) == w3 && run_events(w, i3) == written && run_requests(w, i3) == asked.take(
        3,
    )) by {
        assert(step_spec(w2, inputs[2].reply, inputs[2].ids).events.len() == 0);
        assert(written + Seq::<WorkerEventView>::empty() =~= written);
        assert(asked.take(2).push(request_for(w3)) =~= asked.take(3));
    }
    assert(run(w, i4) == w4 && run_events(w, i4) == written && run_requests(w, i4) == asked.take(
        4,
    )) by {
        assert(step_spec(w3, inputs[3].reply, inputs[3].ids).events.len() == 0);
        assert(written + Seq::<WorkerEventView>::empty() =~= written);
        assert(asked.take(3).push(request_for(w4)) =~= asked.take(4));
    }
    assert(run(w, i5) == w5 && run_events(w, i5) == written && run_requests(w, i5) == asked.take(
        5,
    )) by {
        assert(step_spec(w4, inputs[4].reply, inputs[4].ids).events.len() == 0);
        assert(written + Seq::<WorkerEventView>::empty() =~= written);
        assert(asked.take(4).push(request_for(w5)) =~= asked.take(5));
    }
    assert(run(w, inputs) == w6 && run_events(w, inputs) == written && run_requests(w, inputs)
        == asked) by {
        assert(step_spec(w5, inputs[5].reply, inputs[5].ids).events.len() == 0);
        assert(written + Seq::<WorkerEventView>::empty() =~= written);
        assert(asked.take(5).push(request_for(w6)) =~= asked);
    }
}

/// A commit with complete settings whose every call succeeds ends in `Done`.
/// The job is reported as `WritingSheet`, `ExportingPdf`, `UploadingPdf` and
/// `Done`, in this order and each once. The outside work asked for is one
/// token, the template resolved, one copy made, its first sheet's name
/// read, its filled rows counted, one batch written, one export and one
/// upload; then the worker, idle again with the same settings, asks for the
/// next command.
pub proof fn law_successful_commit(
    cfg: ConfigView,
    job: CommitJobView,
    token: Seq<char>,
    template_sheet_id: Seq<char>,
    sheet_id: Seq<char>,
    sheet_title: Seq<char>,
    existing: nat,
    pdf: Seq<u8>,
    uploaded_id: Seq<char>,
)
    requires
        can_commit(cfg),
    ensures
        ({
            let w = WorkerView { cfg, phase: PhaseView::Idle };
            let inputs = commit_up_to_write(
                job,
                token,
                template_sheet_id,
                sheet_id,
                sheet_title,
                existing,
            ).push(plain(ReplyView::Written(Ok(())))).push(
                plain(ReplyView::Exported(Ok(pdf))),
            ).push(plain(ReplyView::Uploaded(Ok(uploaded_id))));
            &&& run(w, inputs) == w
            &&& run_events(w, inputs) == seq![
                status_event(job.job_id, JobStatusView::WritingSheet),
                status_event(job.job_id, JobStatusView::ExportingPdf),
                status_event(job.job_id, JobStatusView::UploadingPdf),
                status_event(job.job_id, JobStatusView::Done),
            ]
            &&& run_requests(w, inputs) == requests_up_to_write(
                cfg,
                job,
                token,
                template_sheet_id,
                sheet_id,
                sheet_title,
                existing,
            ).push(RequestView::ExportPdf { token, sheet_file_id: sheet_id }).push(
                RequestView::UploadPdf {
                    token,
                    parent_folder_id: cfg.google.output_folder_id,
                    filename: pdf_name_text(job.target_month_ym, cfg.user.full_name),
                    pdf_bytes: pdf,
                },
            ).push(RequestView::NextCommand)
        }),
{
    let w = WorkerView { cfg, phase: PhaseView::Idle };
    let i6 = commit_up_to_write(job, token, template_sheet_id, sheet_id, sheet_title, existing);
    let asked = requests_up_to_write(
        cfg,
        job,
        token,
        template_sheet_id,
        sheet_id,
        sheet_title,
        existing,
    );
    let e1 = status_event(job.job_id, JobStatusView::WritingSheet);
    let e2 = status_event(job.job_id, JobStatusView::ExportingPdf);
    let e3 = status_event(job.job_id, JobStatusView::UploadingPdf);
    let e4 = status_event(job.job_id, JobStatusView::Done);
    let x7 = plain(ReplyView::Written(Ok(())));
    let x8 = plain(ReplyView::Exported(Ok(pdf)));
    let x9 = plain(ReplyView::Uploaded(Ok(uploaded_id)));
    let w6 = WorkerView {
        cfg,
        phase: PhaseView::CommitWrite { job, token, sheet_id, sheet_title, existing },
    };
    let w7 = WorkerView { cfg, phase: PhaseView::CommitExport { job, token, sheet_id } };
    let w8 = WorkerView { cfg, phase: PhaseView::CommitUpload { job, token, pdf } };
    let i7 = i6.push(x7);
    let i8 = i7.push(x8);
    let i9 = i8.push(x9);
    lemma_commit_reaches_write(cfg, job, token, template_sheet_id, sheet_id, sheet_title, existing);
    assert(run(w, i7) == w7 && run_events(w, i7) == seq![e1, e2] && run_requests(w, i7)
        == asked.push(request_for(w7))) by {
        lemma_run_push(w, i6, x7);
        assert(step_spec(w6, x7.reply, x7.ids).events == seq![e2]);
        assert(seq![e1] + seq![e2] =~= seq![e1, e2]);
    }
    assert(run(w, i8) == w8 && run_events(w, i8) == seq![e1, e2, e3] && run_requests(w, i8)
        == asked.push(request_for(w7)).push(request_for(w8))) by {
        lemma_run_push(w, i7, x8);
        assert(step_spec(w7, x8.reply, x8.ids).events == seq![e3]);
        assert(seq![e1, e2] + seq![e3] =~= seq![e1, e2, e3]);
    }
    assert(run(w, i9) == w && run_events(w, i9) == seq![e1, e2, e3, e4] && run_requests(w, i9)
        == asked.push(request_for(w7)).push(request_for(w8)).push(request_for(w))) by {
        lemma_run_push(w, i8, x9);
        assert(step_spec(w8, x9.reply, x9.ids).events == seq![e4]);
        assert(seq![e1, e2, e3] + seq![e4] =~= seq![e1, e2, e3, e4]);
    }
}

/// A commit whose batch of values cannot be written ends in `Error`. The
/// job is reported as `WritingSheet` and then as `Error`, with a message
/// that names the writing and gives the cause;
/// `ExportingPdf`, `UploadingPdf` and `Done` are never reported. The copy
/// made earlier is left as it is: after the failed writing the worker asks
/// for nothing but the next command — no export, no upload, and nothing
/// that would remove or change the copy.
pub proof fn law_failed_write_ends_commit(
    cfg: ConfigView,
    job: CommitJobView,
    token: Seq<char>,
    template_sheet_id: Seq<char>,
    sheet_id: Seq<char>,
    sheet_title: Seq<char>,
    existing: nat,
    cause: Seq<char>,
)
    requires
        can_commit(cfg),
    ensures
        ({
            let w = WorkerView { cfg, phase: PhaseView::Idle };
            let inputs = commit_up_to_write(
                job,
                token,
                template_sheet_id,
                sheet_id,
                sheet_title,
                existing,
            ).push(plain(ReplyView::Written(Err(cause))));
            &&& run(w, inputs) == w
            &&& run_events(w, inputs) == seq![
                status_event(job.job_id, JobStatusView::WritingSheet),
                status_event(job.job_id, JobStatusView::Error(write_failure_text(cause))),
            ]
            &&& run_requests(w, inputs) == requests_up_to_write(
                cfg,
                job,
                token,
                template_sheet_id,
                sheet_id,
                sheet_title,
                existing,
            ).push(RequestView::NextCommand)
        }),
{
    let w = WorkerView { cfg, phase: PhaseView::Idle };
    let i6 = commit_up_to_write(job, token, template_sheet_id, sheet_id, sheet_title, existing);
    let e1 = status_event(job.job_id, JobStatusView::WritingSheet);
    let e2 = status_event(job.job_id, JobStatusView::Error(write_failure_text(cause)));
    let w6 = WorkerView {
        cfg,
        phase: PhaseView::CommitWrite { job, token, sheet_id, sheet_title, existing },
    };
    let x7 = plain(ReplyView::Written(Err(cause)));
    lemma_commit_reaches_write(cfg, job, token, template_sheet_id, sheet_id, sheet_title, existing);
    lemma_run_push(w, i6, x7);
    assert(step_spec(w6, x7.reply, x7.ids).events == seq![e2]);
    assert(seq![e1] + seq![e2] =~= seq![e1, e2]);
}

} // verus!
