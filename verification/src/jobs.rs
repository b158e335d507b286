//! Jobs: one receipt image each, with the fields the user fills in and the
//! stage the job has reached.

use vstd::prelude::*;

verus! {

/// What the user enters for one receipt.
#[derive(Debug, PartialEq, Eq)]
pub struct ReceiptFields {
    /// Date of the expense, `YYYY-MM-DD`.
    pub date_ymd: String,
    /// What the money was spent on.
    pub reason: String,
    /// Amount in yen.
    pub amount_yen: i64,
    /// Category, as the template names it.
    pub category: String,
    /// Free remark.
    pub note: String,
}

/// Where a job stands.
#[derive(Debug, PartialEq, Eq)]
pub enum JobStatus {
    /// Created, not yet offered to the user.
    Queued,
    /// Waiting for the user to fill in the fields.
    WaitingUserFix,
    /// The fields are being written into the sheet.
    WritingSheet,
    /// The sheet is being exported as PDF.
    ExportingPdf,
    /// The PDF is being uploaded.
    UploadingPdf,
    /// Finished.
    Done,
    /// Failed, with the reason.
    Error(String),
}

/// One receipt image and its progress.
#[derive(Debug, PartialEq, Eq)]
pub struct Job {
    /// Identifier of the job, fixed when the job is made.
    pub id: u128,
    /// Identifier of the image in the document store.
    pub drive_file_id: String,
    /// Name of the image.
    pub filename: String,
    /// Where the job stands.
    pub status: JobStatus,
    /// What the user has entered.
    pub fields: ReceiptFields,
}

/// `ReceiptFields` as mathematical text and numbers.
pub struct ReceiptFieldsView {
    pub date_ymd: Seq<char>,
    pub reason: Seq<char>,
    pub amount_yen: int,
    pub category: Seq<char>,
    pub note: Seq<char>,
}

/// `JobStatus` with its message as mathematical text.
pub enum JobStatusView {
    Queued,
    WaitingUserFix,
    WritingSheet,
    ExportingPdf,
    UploadingPdf,
    Done,
    Error(Seq<char>),
}

/// `Job` as mathematical text and numbers.
pub struct JobView {
    pub id: u128,
    pub drive_file_id: Seq<char>,
    pub filename: Seq<char>,
    pub status: JobStatusView,
    pub fields: ReceiptFieldsView,
}

impl View for ReceiptFields {
    type V = ReceiptFieldsView;

    open spec fn view(&self) -> ReceiptFieldsView {
        ReceiptFieldsView {
            date_ymd: self.date_ymd@,
            reason: self.reason@,
            amount_yen: self.amount_yen as int,
            category: self.category@,
            note: self.note@,
        }
    }
}

impl DeepView for ReceiptFields {
    type V = ReceiptFieldsView;

    open spec fn deep_view(&self) -> ReceiptFieldsView {
        self@
    }
}

impl View for JobStatus {
    type V = JobStatusView;

    open spec fn view(&self) -> JobStatusView {
        match self {
            JobStatus::Queued => JobStatusView::Queued,
            JobStatus::WaitingUserFix => JobStatusView::WaitingUserFix,
            JobStatus::WritingSheet => JobStatusView::WritingSheet,
            JobStatus::ExportingPdf => JobStatusView::ExportingPdf,
            JobStatus::UploadingPdf => JobStatusView::UploadingPdf,
            JobStatus::Done => JobStatusView::Done,
            JobStatus::Error(message) => JobStatusView::Error(message@),
        }
    }
}

impl DeepView for JobStatus {
    type V = JobStatusView;

    open spec fn deep_view(&self) -> JobStatusView {
        self@
    }
}

impl View for Job {
    type V = JobView;

    open spec fn view(&self) -> JobView {
        JobView {
            id: self.id,
            drive_file_id: self.drive_file_id@,
            filename: self.filename@,
            status: self.status@,
            fields: self.fields@,
        }
    }
}

impl DeepView for Job {
    type V = JobView;

    open spec fn deep_view(&self) -> JobView {
        self@
    }
}

impl JobStatusView {
    /// A job in a final state moves no further by itself.
    pub open spec fn is_terminal(self) -> bool {
        self is Done || self is Error
    }
}

/// Fields as they are before the user has entered anything.
pub open spec fn empty_fields() -> ReceiptFieldsView {
    ReceiptFieldsView {
        date_ymd: Seq::empty(),
        reason: Seq::empty(),
        amount_yen: 0,
        category: Seq::empty(),
        note: Seq::empty(),
    }
}

/// What holds of every identifier that `Job::new` hands out: it is marked
/// as a random identifier (version 4, standard variant).
pub open spec fn is_random_id(id: u128) -> bool {
    id & 0x0000_0000_0000_f000_c000_0000_0000_0000 == 0x0000_0000_0000_4000_8000_0000_0000_0000
}

impl Default for ReceiptFields {
    fn default() -> (fields: Self)
        ensures
            fields@ == empty_fields(),
    {
        ReceiptFields {
            date_ymd: String::new(),
            reason: String::new(),
            amount_yen: 0,
            category: String::new(),
            note: String::new(),
        }
    }
}

impl Clone for ReceiptFields {
    fn clone(&self) -> (copy: Self)
        ensures
            copy == *self,
    {
        ReceiptFields {
            date_ymd: self.date_ymd.clone(),
            reason: self.reason.clone(),
            amount_yen: self.amount_yen,
            category: self.category.clone(),
            note: self.note.clone(),
        }
    }
}

impl Clone for JobStatus {
    fn clone(&self) -> (copy: Self)
        ensures
            copy == *self,
    {
        match self {
            JobStatus::Queued => JobStatus::Queued,
            JobStatus::WaitingUserFix => JobStatus::WaitingUserFix,
            JobStatus::WritingSheet => JobStatus::WritingSheet,
            JobStatus::ExportingPdf => JobStatus::ExportingPdf,
            JobStatus::UploadingPdf => JobStatus::UploadingPdf,
            JobStatus::Done => JobStatus::Done,
            JobStatus::Error(message) => JobStatus::Error(message.clone()),
        }
    }
}

impl Clone for Job {
    fn clone(&self) -> (copy: Self)
        ensures
            copy == *self,
    {
        Job {
            id: self.id,
            drive_file_id: self.drive_file_id.clone(),
            filename: self.filename.clone(),
            status: self.status.clone(),
            fields: self.fields.clone(),
        }
    }
}

/// Draws a fresh identifier with `uuid::Uuid::new_v4` and packs it into one
/// integer with `Uuid::as_u128`. The bits come from the system's random
/// source; the contract claims only what `new_v4` sets in every identifier,
/// the version and variant bits.
#[verifier::external_body]
fn random_id() -> (id: u128)
    ensures
        is_random_id(id),
{
    uuid::Uuid::new_v4().as_u128()
}

impl Job {
    /// A new job for the image `drive_file_id` named `filename`: queued, with
    /// empty fields and a fresh identifier.
    pub fn new(drive_file_id: String, filename: String) -> (job: Self)
        ensures
            job.drive_file_id == drive_file_id,
            job.filename == filename,
            job.status == JobStatus::Queued,
            job.fields@ == empty_fields(),
            is_random_id(job.id),
    {
        Job {
            id: random_id(),
            drive_file_id,
            filename,
            status: JobStatus::Queued,
            fields: ReceiptFields::default(),
        }
    }
}

} // verus!
