use receipt_tui::jobs::{Job, JobStatus};

#[test]
fn new_job_is_queued_with_empty_fields() {
    let job = Job::new(String::from("file-1"), String::from("a.png"));
    assert_eq!(job.drive_file_id, "file-1");
    assert_eq!(job.filename, "a.png");
    assert_eq!(job.status, JobStatus::Queued);
    assert_eq!(job.fields.amount_yen, 0);
    assert_eq!(job.fields.date_ymd, "");
    assert_eq!((job.id >> 76) & 0xf, 4);
    assert_eq!((job.id >> 62) & 0x3, 2);
}

#[test]
fn new_jobs_get_distinct_ids() {
    let a = Job::new(String::from("f"), String::from("n"));
    let b = Job::new(String::from("f"), String::from("n"));
    assert_ne!(a.id, b.id);
}
