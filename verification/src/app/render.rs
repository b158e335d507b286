//! The texts that the screens show. Laying them out on the terminal is
//! left to whoever draws them.

use crate::app::handlers::field_text;
use crate::app::{App, AppView};
use crate::events::Screen;
use crate::jobs::{Job, JobStatus, JobStatusView, JobView};
use crate::shortcuts::{Shortcuts, ShortcutsView};
use crate::text::{decimal, i64_to_string, join, joined, push_decimal, signed_decimal};
use crate::wizard::{prompt_text, step_number};
use vstd::prelude::*;

verus! {

/// The short label of a stage, as the list of jobs shows it.
pub open spec fn status_label(status: JobStatusView) -> Seq<char> {
    match status {
        JobStatusView::Queued => "Queued"@,
        JobStatusView::WaitingUserFix => "Edit"@,
        JobStatusView::WritingSheet => "WriteSheet"@,
        JobStatusView::ExportingPdf => "ExportPdf"@,
        JobStatusView::UploadingPdf => "UploadPdf"@,
        JobStatusView::Done => "Done"@,
        JobStatusView::Error(message) => "Error: "@ + message,
    }
}

/// The shortcuts of one action as the help line shows them, with `/`
/// between them.
pub open spec fn keys_text(keys: Seq<Seq<char>>) -> Seq<char> {
    joined(keys, "/"@)
}

/// The help line of a screen.
pub open spec fn help_text(screen: Screen, shortcuts: ShortcutsView) -> Seq<char> {
    match screen {
        Screen::Main => keys_text(shortcuts.main.quit) + ": quit | "@ + keys_text(
            shortcuts.main.refresh,
        ) + ": refresh | "@ + keys_text(shortcuts.main.settings) + ": settings | "@ + keys_text(
            shortcuts.main.enter,
        ) + ": edit | "@ + keys_text(shortcuts.main.up) + "/"@ + keys_text(shortcuts.main.down)
            + "↑: navigate"@,
        Screen::Settings => keys_text(shortcuts.settings.input_folder) + ": input folder | "@
            + keys_text(shortcuts.settings.output_folder) + ": output folder | "@ + keys_text(
            shortcuts.settings.template,
        ) + ": template | "@ + keys_text(shortcuts.settings.name) + ": name | "@ + keys_text(
            shortcuts.settings.save,
        ) + ": save | "@ + keys_text(shortcuts.settings.cancel) + ": cancel"@,
        Screen::EditJob => keys_text(shortcuts.edit_job.edit_field) + ": edit field | "@
            + keys_text(shortcuts.edit_job.next_field) + ": next field | "@ + keys_text(
            shortcuts.edit_job.target_month,
        ) + ": month | "@ + keys_text(shortcuts.edit_job.commit) + ": commit | "@ + keys_text(
            shortcuts.edit_job.cancel,
        ) + ": cancel"@,
        Screen::InitialSetup => "Follow wizard steps | "@ + keys_text(shortcuts.wizard.proceed)
            + ": proceed | "@ + keys_text(shortcuts.wizard.skip) + ": skip step"@,
    }
}

/// The name of a screen, as the status bar shows it.
pub open spec fn screen_name(screen: Screen) -> Seq<char> {
    match screen {
        Screen::Main => "Main"@,
        Screen::Settings => "Settings"@,
        Screen::EditJob => "EditJob"@,
        Screen::InitialSetup => "Setup"@,
    }
}

/// How many of the jobs are done.
pub open spec fn done_count(jobs: Seq<JobView>) -> nat
    decreases jobs.len(),
{
    if jobs.len() == 0 {
        0
    } else {
        done_count(jobs.drop_last()) + if jobs.last().status is Done {
            1nat
        } else {
            0nat
        }
    }
}

/// The status bar: the screen, how many jobs there are and how many are
/// done, and the status line, or the error where there is one.
pub open spec fn status_bar_text(app: AppView) -> Seq<char> {
    "["@ + screen_name(app.ui.screen) + "] Jobs: "@ + decimal(app.jobs.len()) + " total, "@
        + decimal(done_count(app.jobs)) + " done | "@ + match app.ui.error {
        Some(error) => "ERROR: "@ + error,
        None => app.ui.status,
    }
}

/// The name of field `index` of a job, as the info panel shows it.
pub open spec fn field_name(index: nat) -> Seq<char> {
    if index == 0 {
        "Date"@
    } else if index == 1 {
        "Reason"@
    } else if index == 2 {
        "Amount"@
    } else if index == 3 {
        "Category"@
    } else {
        "Note"@
    }
}

/// The line of field `index` of `job` in the info panel; an arrow marks
/// the field that `marked` points at.
pub open spec fn field_line(job: JobView, index: nat, marked: nat) -> Seq<char> {
    (if index == marked {
        "→"@
    } else {
        " "@
    }) + " ["@ + decimal(index) + "] "@ + field_name(index) + ": "@ + field_text(job.fields, index)
}

/// The info panel while a job is edited: the job's name, its five fields
/// with the one to edit marked, and the target month.
pub open spec fn edit_info_text(app: AppView) -> Seq<char> {
    if app.ui.selected < app.jobs.len() {
        let job = app.jobs[app.ui.selected as int];
        let marked = app.ui.editing_field_idx;
        joined(
            seq![
                "Editing: "@ + job.filename,
                Seq::empty(),
                "Fields (use Tab to navigate):"@,
                field_line(job, 0, marked),
                field_line(job, 1, marked),
                field_line(job, 2, marked),
                field_line(job, 3, marked),
                field_line(job, 4, marked),
                Seq::empty(),
                "Target Month: "@ + app.edit_target_month,
            ],
            "\n"@,
        )
    } else {
        "No job selected"@
    }
}

/// The last remarks of the log, eight at most, oldest first.
pub open spec fn recent_log(log: Seq<Seq<char>>) -> Seq<Seq<char>> {
    if log.len() > 8 {
        log.subrange(log.len() - 8, log.len() as int)
    } else {
        log
    }
}

/// The name of the selected job, or a dash where none is selected.
pub open spec fn selected_name(app: AppView) -> Seq<char> {
    if app.ui.selected < app.jobs.len() {
        app.jobs[app.ui.selected as int].filename
    } else {
        "-"@
    }
}

/// The image of the selected job, or a dash where none is selected.
pub open spec fn selected_file(app: AppView) -> Seq<char> {
    if app.ui.selected < app.jobs.len() {
        app.jobs[app.ui.selected as int].drive_file_id
    } else {
        "-"@
    }
}

/// The info panel of the list of jobs: the selected job, the settings in
/// force, the target month, and the last remarks of the log.
pub open spec fn main_info_text(app: AppView) -> Seq<char> {
    "Selected: "@ + selected_name(app) + "\nSelected ID: "@ + selected_file(app) + "\n\nIn: "@
        + app.cfg.google.input_folder_id + "\nOut: "@ + app.cfg.google.output_folder_id
        + "\nTpl: "@ + app.cfg.google.template_sheet_id + "\nName: "@ + app.cfg.user.full_name
        + "\nMonth: "@ + app.edit_target_month + "\n\nLog:\n"@ + joined(
        recent_log(app.ui.log),
        "\n"@,
    )
}

/// The info panel: the fields of the job while one is edited, else the
/// overview.
pub open spec fn info_text(app: AppView) -> Seq<char> {
    if app.ui.screen == Screen::EditJob {
        edit_info_text(app)
    } else {
        main_info_text(app)
    }
}

/// What the wizard's screen says: the number of the step among all steps,
/// the step's prompt, and how to go on.
pub open spec fn wizard_text(app: AppView) -> Seq<char> {
    "=== Initial Setup Wizard ===\n\nStep "@ + decimal(
        step_number(app.wizard_state.current_step),
    ) + "/"@ + decimal(app.wizard_state.total_steps as nat) + "\n\n"@ + prompt_text(
        app.wizard_state.current_step,
    ) + "\n\nPress Enter to proceed, ESC to skip step."@
}

/// How an error is shown on the wizard's screen.
pub open spec fn error_text(error: Seq<char>) -> Seq<char> {
    "ERROR: "@ + error
}

/// The help line of the input box.
pub open spec fn input_help_text() -> Seq<char> {
    "Enter=確定 | ESC=キャンセル | Ctrl+U=クリア"@
}

/// The row of the list for the job at place `index`: its number counted
/// from 1, its name, its stage, its amount and its date.
pub open spec fn job_row_text(index: nat, job: JobView) -> Seq<Seq<char>> {
    seq![
        decimal(index + 1),
        job.filename,
        status_label(job.status),
        signed_decimal(job.fields.amount_yen),
        job.fields.date_ymd,
    ]
}

/// The short label of a stage.
pub fn status_str(status: &JobStatus) -> (label: String)
    ensures
        label@ == status_label(status@),
{
    match status {
        JobStatus::Queued => "Queued".to_owned(),
        JobStatus::WaitingUserFix => "Edit".to_owned(),
        JobStatus::WritingSheet => "WriteSheet".to_owned(),
        JobStatus::ExportingPdf => "ExportPdf".to_owned(),
        JobStatus::UploadingPdf => "UploadPdf".to_owned(),
        JobStatus::Done => "Done".to_owned(),
        JobStatus::Error(message) => {
            let mut out = "Error: ".to_owned();
            out.append(message.as_str());
            out
        },
    }
}

/// The shortcuts of one action with `/` between them.
pub fn format_keys(keys: &[String]) -> (text: String)
    ensures
        text@ == keys_text(keys.deep_view()),
{
    join(keys, "/")
}

/// The help line of the screen `screen`.
pub fn get_help_text(screen: &Screen, shortcuts: &Shortcuts) -> (text: String)
    ensures
        text@ == help_text(*screen, shortcuts@),
{
    match screen {
        Screen::Main => {
            let mut out = format_keys(shortcuts.main.quit.as_slice());
            out.append(": quit | ");
            out.append(format_keys(shortcuts.main.refresh.as_slice()).as_str());
            out.append(": refresh | ");
            out.append(format_keys(shortcuts.main.settings.as_slice()).as_str());
            out.append(": settings | ");
            out.append(format_keys(shortcuts.main.enter.as_slice()).as_str());
            out.append(": edit | ");
            out.append(format_keys(shortcuts.main.up.as_slice()).as_str());
            out.append("/");
            out.append(format_keys(shortcuts.main.down.as_slice()).as_str());
            out.append("↑: navigate");
            out
        },
        Screen::Settings => {
            let mut out = format_keys(shortcuts.settings.input_folder.as_slice());
            out.append(": input folder | ");
            out.append(format_keys(shortcuts.settings.output_folder.as_slice()).as_str());
            out.append(": output folder | ");
            out.append(format_keys(shortcuts.settings.template.as_slice()).as_str());
            out.append(": template | ");
            out.append(format_keys(shortcuts.settings.name.as_slice()).as_str());
            out.append(": name | ");
            out.append(format_keys(shortcuts.settings.save.as_slice()).as_str());
            out.append(": save | ");
            out.append(format_keys(shortcuts.settings.cancel.as_slice()).as_str());
            out.append(": cancel");
            out
        },
        Screen::EditJob => {
            let mut out = format_keys(shortcuts.edit_job.edit_field.as_slice());
            out.append(": edit field | ");
            out.append(format_keys(shortcuts.edit_job.next_field.as_slice()).as_str());
            out.append(": next field | ");
            out.append(format_keys(shortcuts.edit_job.target_month.as_slice()).as_str());
            out.append(": month | ");
            out.append(format_keys(shortcuts.edit_job.commit.as_slice()).as_str());
            out.append(": commit | ");
            out.append(format_keys(shortcuts.edit_job.cancel.as_slice()).as_str());
            out.append(": cancel");
            out
        },
        Screen::InitialSetup => {
            let mut out = "Follow wizard steps | ".to_owned();
            out.append(format_keys(shortcuts.wizard.proceed.as_slice()).as_str());
            out.append(": proceed | ");
            out.append(format_keys(shortcuts.wizard.skip.as_slice()).as_str());
            out.append(": skip step");
            out
        },
    }
}

/// How many of the jobs are done.
pub fn count_done(jobs: &Vec<Job>) -> (count: usize)
    ensures
        count == done_count(jobs.deep_view()),
{
    let mut count: usize = 0;
    let mut i: usize = 0;
    while i < jobs.len()
        invariant
            i <= jobs.len(),
            count <= i,
            count == done_count(jobs.deep_view().take(i as int)),
        decreases jobs.len() - i,
    {
        proof {
            let next = jobs.deep_view().take(i as int + 1);
            assert(next.drop_last() =~= jobs.deep_view().take(i as int));
            assert(next.last() == jobs@[i as int]@);
        }
        match &jobs[i].status {
            JobStatus::Done => {
                count += 1;
            },
            _ => {},
        }
        i += 1;
    }
    proof {
        assert(jobs.deep_view().take(jobs.len() as int) =~= jobs.deep_view());
    }
    count
}

/// The status bar.
pub fn build_status_bar(app: &App) -> (text: String)
    ensures
        text@ == status_bar_text(app@),
{
    let mut out = "[".to_owned();
    out.append(
        match app.ui.screen {
            Screen::Main => "Main",
            Screen::Settings => "Settings",
            Screen::EditJob => "EditJob",
            Screen::InitialSetup => "Setup",
        },
    );
    out.append("] Jobs: ");
    push_decimal(&mut out, app.jobs.len() as u64);
    out.append(" total, ");
    push_decimal(&mut out, count_done(&app.jobs) as u64);
    out.append(" done | ");
    match &app.ui.error {
        Some(error) => {
            let ghost before = out@;
            out.append("ERROR: ");
            out.append(error.as_str());
            proof {
                assert(out@ =~= before + ("ERROR: "@ + error@));
            }
        },
        None => {
            out.append(app.ui.status.as_str());
        },
    }
    out
}

/// The text of field `index` of `job`, for `index` from 0 to 4.
fn field_value(job: &Job, index: usize) -> (text: String)
    ensures
        text@ == field_text(job@.fields, index as nat),
{
    if index == 0 {
        job.fields.date_ymd.clone()
    } else if index == 1 {
        job.fields.reason.clone()
    } else if index == 2 {
        i64_to_string(job.fields.amount_yen)
    } else if index == 3 {
        job.fields.category.clone()
    } else {
        job.fields.note.clone()
    }
}

/// The line of field `index` of `job` in the info panel.
fn build_field_line(job: &Job, index: usize, marked: usize) -> (line: String)
    ensures
        line@ == field_line(job@, index as nat, marked as nat),
{
    let mut out = if index == marked {
        "→".to_owned()
    } else {
        " ".to_owned()
    };
    out.append(" [");
    push_decimal(&mut out, index as u64);
    out.append("] ");
    out.append(
        if index == 0 {
            "Date"
        } else if index == 1 {
            "Reason"
        } else if index == 2 {
            "Amount"
        } else if index == 3 {
            "Category"
        } else {
            "Note"
        },
    );
    out.append(": ");
    out.append(field_value(job, index).as_str());
    out
}

/// The info panel while a job is edited.
pub fn build_edit_info_text(app: &App) -> (text: String)
    ensures
        text@ == edit_info_text(app@),
{
    if app.ui.selected < app.jobs.len() {
        let job = &app.jobs[app.ui.selected];
        let marked = app.ui.editing_field_idx;
        let mut lines: Vec<String> = Vec::new();
        let mut title = "Editing: ".to_owned();
        title.append(job.filename.as_str());
        lines.push(title);
        lines.push(String::new());
        lines.push("Fields (use Tab to navigate):".to_owned());
        lines.push(build_field_line(job, 0, marked));
        lines.push(build_field_line(job, 1, marked));
        lines.push(build_field_line(job, 2, marked));
        lines.push(build_field_line(job, 3, marked));
        lines.push(build_field_line(job, 4, marked));
        lines.push(String::new());
        let mut month = "Target Month: ".to_owned();
        month.append(app.edit_target_month.as_str());
        lines.push(month);
        proof {
            let shown = app.jobs.deep_view()[app.ui.selected as int];
            assert(shown == job@);
            assert(lines.deep_view() =~= seq![
                "Editing: "@ + shown.filename,
                Seq::empty(),
                "Fields (use Tab to navigate):"@,
                field_line(shown, 0, marked as nat),
                field_line(shown, 1, marked as nat),
                field_line(shown, 2, marked as nat),
                field_line(shown, 3, marked as nat),
                field_line(shown, 4, marked as nat),
                Seq::empty(),
                "Target Month: "@ + app.edit_target_month@,
            ]);
        }
        join(lines.as_slice(), "\n")
    } else {
        "No job selected".to_owned()
    }
}

/// The last remarks of the log, eight at most.
fn recent(log: &Vec<String>) -> (last: Vec<String>)
    ensures
        last.deep_view() == recent_log(log.deep_view()),
{
    let n = log.len();
    let from: usize = if n > 8 {
        n - 8
    } else {
        0
    };
    let mut last: Vec<String> = Vec::new();
    let mut i: usize = from;
    while i < n
        invariant
            n == log.len(),
            from <= i <= n,
            last.deep_view() == log.deep_view().subrange(from as int, i as int),
        decreases n - i,
    {
        let ghost before = last.deep_view();
        last.push(log[i].clone());
        proof {
            assert(last.deep_view() =~= before.push(log@[i as int]@));
            assert(log.deep_view().subrange(from as int, i as int + 1) =~= before.push(
                log@[i as int]@,
            ));
        }
        i += 1;
    }
    proof {
        if n <= 8 {
            assert(log.deep_view().subrange(0, n as int) =~= log.deep_view());
        }
    }
    last
}

/// The info panel of the list of jobs.
pub fn build_main_info_text(app: &App) -> (text: String)
    ensures
        text@ == main_info_text(app@),
{
    let mut out = "Selected: ".to_owned();
    if app.ui.selected < app.jobs.len() {
        proof {
            assert(app.jobs.deep_view()[app.ui.selected as int] == app.jobs@[app.ui.selected as int]@);
        }
        out.append(app.jobs[app.ui.selected].filename.as_str());
        out.append("\nSelected ID: ");
        out.append(app.jobs[app.ui.selected].drive_file_id.as_str());
    } else {
        out.append("-");
        out.append("\nSelected ID: ");
        out.append("-");
    }
    out.append("\n\nIn: ");
    out.append(app.cfg.google.input_folder_id.as_str());
    out.append("\nOut: ");
    out.append(app.cfg.google.output_folder_id.as_str());
    out.append("\nTpl: ");
    out.append(app.cfg.google.template_sheet_id.as_str());
    out.append("\nName: ");
    out.append(app.cfg.user.full_name.as_str());
    out.append("\nMonth: ");
    out.append(app.edit_target_month.as_str());
    out.append("\n\nLog:\n");
    out.append(join(recent(&app.ui.log).as_slice(), "\n").as_str());
    out
}

/// The info panel.
pub fn build_info_text(app: &App) -> (text: String)
    ensures
        text@ == info_text(app@),
{
    match app.ui.screen {
        Screen::EditJob => build_edit_info_text(app),
        _ => build_main_info_text(app),
    }
}

/// What the wizard's screen says.
pub fn build_wizard_text(app: &App) -> (text: String)
    ensures
        text@ == wizard_text(app@),
{
    let mut out = "=== Initial Setup Wizard ===\n\nStep ".to_owned();
    push_decimal(&mut out, app.wizard_state.get_step_number() as u64);
    out.append("/");
    push_decimal(&mut out, app.wizard_state.total_steps as u64);
    out.append("\n\n");
    out.append(app.wizard_state.get_prompt().as_str());
    out.append("\n\nPress Enter to proceed, ESC to skip step.");
    out
}

/// How the error `error` is shown on the wizard's screen.
pub fn build_error_text(error: &str) -> (text: String)
    ensures
        text@ == error_text(error@),
{
    let mut out = "ERROR: ".to_owned();
    out.append(error);
    out
}

/// The help line of the input box.
pub fn build_input_help() -> (text: String)
    ensures
        text@ == input_help_text(),
{
    "Enter=確定 | ESC=キャンセル | Ctrl+U=クリア".to_owned()
}

/// The row of the list for the job at place `index`.
pub fn job_row(index: usize, job: &Job) -> (cells: Vec<String>)
    requires
        index < usize::MAX,
    ensures
        cells.deep_view() == job_row_text(index as nat, job@),
{
    let mut cells: Vec<String> = Vec::new();
    let mut number = String::new();
    push_decimal(&mut number, (index + 1) as u64);
    cells.push(number);
    cells.push(job.filename.clone());
    cells.push(status_str(&job.status));
    cells.push(i64_to_string(job.fields.amount_yen));
    cells.push(job.fields.date_ymd.clone());
    proof {
        assert(number@ =~= decimal(index as nat + 1));
        assert(cells.deep_view() =~= job_row_text(index as nat, job@));
    }
    cells
}

} // verus!
