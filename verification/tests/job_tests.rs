use lazyproarcconvert::artifact::{artifact_file_name, ArtifactConfig, ArtifactKind};
use lazyproarcconvert::job::{
    announce_job, batch_label, batch_output_dir, check_batch_already_done, check_page_complete,
    contains_name, is_done, logs_dir_name, update_jobs_status_on_start, BatchJob,
    JobStatus, OutputDir, OutputEvidence,
};

fn job(name: &str, index_start: u32, file_count: usize, status: JobStatus) -> BatchJob {
    BatchJob {
        dir: format!("input/{name}"),
        name: name.to_string(),
        is_root: false,
        index_start,
        file_count,
        status,
    }
}

fn all_kinds() -> [ArtifactKind; 4] {
    [
        ArtifactKind::MasterDerivative,
        ArtifactKind::UserDerivative,
        ArtifactKind::PlainText,
        ArtifactKind::LayoutXml,
    ]
}

fn full_output(index_start: u32, pages: u32, digits: usize) -> OutputEvidence {
    let mut files = Vec::new();
    for seq_no in index_start..index_start + pages {
        for kind in all_kinds() {
            files.push(artifact_file_name(seq_no, digits, kind));
        }
    }
    OutputEvidence { dir_exists: true, files }
}

fn full_output_from(index_start: u32, pages: u32, digits: usize) -> OutputEvidence {
    let mut files = Vec::new();
    for page in 0..pages {
        for kind in all_kinds() {
            files.push(artifact_file_name(index_start + page, digits, kind));
        }
    }
    OutputEvidence { dir_exists: true, files }
}

fn only_text() -> ArtifactConfig {
    ArtifactConfig { master: false, user: false, text: true, layout: false }
}

#[test]
fn complete_output_is_already_done() {
    let batch = job("batchA", 1, 3, JobStatus::Pending);
    let evidence = full_output(1, 3, 4);
    assert_eq!(evidence.files.len(), 12);
    assert!(check_batch_already_done(&batch, &evidence, &ArtifactConfig::all(), 4));
}

#[test]
fn missing_output_directory_is_not_done() {
    let batch = job("batchA", 1, 3, JobStatus::Pending);
    let mut evidence = full_output(1, 3, 4);
    evidence.dir_exists = false;
    assert!(!check_batch_already_done(&batch, &evidence, &ArtifactConfig::all(), 4));
}

#[test]
fn any_one_missing_file_makes_the_batch_incomplete() {
    let batch = job("batchA", 1, 3, JobStatus::Pending);
    let full = full_output(1, 3, 4);
    for gone in 0..full.files.len() {
        let mut evidence = full.clone();
        evidence.files.remove(gone);
        assert!(!check_batch_already_done(&batch, &evidence, &ArtifactConfig::all(), 4));
    }
}

#[test]
fn deleting_a_file_demotes_to_pending_on_reconciliation() {
    let mut jobs = vec![job("batchA", 1, 3, JobStatus::Pending)];
    let full = full_output(1, 3, 4);
    update_jobs_status_on_start(&mut jobs, &vec![full.clone()], &ArtifactConfig::all(), 4);
    assert_eq!(jobs[0].status, JobStatus::AlreadyDone);
    let mut after = full;
    after.files.retain(|f| f != "0002.ocr.xml");
    update_jobs_status_on_start(&mut jobs, &vec![after], &ArtifactConfig::all(), 4);
    assert_eq!(jobs[0].status, JobStatus::Pending);
}

#[test]
fn only_enabled_kinds_are_checked() {
    let mut jobs = vec![job("batchA", 1, 3, JobStatus::Pending)];
    let evidence = full_output(1, 3, 4);
    update_jobs_status_on_start(&mut jobs, &vec![evidence], &only_text(), 4);
    assert_eq!(jobs[0].status, JobStatus::AlreadyDone);
}

#[test]
fn text_alone_suffices_when_only_text_is_enabled() {
    let batch = job("batchA", 1, 2, JobStatus::Pending);
    let evidence = OutputEvidence {
        dir_exists: true,
        files: vec!["0001.ocr.txt".to_string(), "0002.ocr.txt".to_string()],
    };
    assert!(check_batch_already_done(&batch, &evidence, &only_text(), 4));
    assert!(!check_batch_already_done(&batch, &evidence, &ArtifactConfig::all(), 4));
}

#[test]
fn nothing_enabled_counts_as_done_where_the_directory_exists() {
    let batch = job("batchA", 1, 3, JobStatus::Pending);
    let none = ArtifactConfig { master: false, user: false, text: false, layout: false };
    let empty = OutputEvidence { dir_exists: true, files: Vec::new() };
    assert!(check_batch_already_done(&batch, &empty, &none, 4));
    let absent = OutputEvidence { dir_exists: false, files: Vec::new() };
    assert!(!check_batch_already_done(&batch, &absent, &none, 4));
}

#[test]
fn the_label_width_is_part_of_the_file_name() {
    let batch = job("batchA", 1, 1, JobStatus::Pending);
    let evidence = full_output(1, 1, 4);
    assert!(check_batch_already_done(&batch, &evidence, &ArtifactConfig::all(), 4));
    assert!(!check_batch_already_done(&batch, &evidence, &ArtifactConfig::all(), 5));
}

#[test]
fn pages_are_looked_up_by_their_sequence_numbers() {
    let batch = job("batchB", 4, 2, JobStatus::Pending);
    assert!(!check_batch_already_done(&batch, &full_output(1, 3, 4), &ArtifactConfig::all(), 4));
    assert!(check_batch_already_done(&batch, &full_output(4, 2, 4), &ArtifactConfig::all(), 4));
    assert!(check_batch_already_done(&batch, &full_output(1, 6, 4), &ArtifactConfig::all(), 4));
}

#[test]
fn reconciliation_never_demotes_a_done_job() {
    let mut jobs = vec![job("batchA", 1, 3, JobStatus::Done)];
    let nothing = OutputEvidence { dir_exists: false, files: Vec::new() };
    update_jobs_status_on_start(&mut jobs, &vec![nothing], &ArtifactConfig::all(), 4);
    assert_eq!(jobs[0].status, JobStatus::Done);
    update_jobs_status_on_start(&mut jobs, &vec![full_output(1, 3, 4)], &ArtifactConfig::all(), 4);
    assert_eq!(jobs[0].status, JobStatus::Done);
}

#[test]
fn reconciliation_demotes_every_incomplete_job_but_a_done_one() {
    let mut jobs = vec![
        job("a", 1, 1, JobStatus::Pending),
        job("b", 2, 1, JobStatus::Failed("x".to_string())),
        job("c", 3, 1, JobStatus::Processing),
        job("d", 4, 1, JobStatus::AlreadyDone),
        job("e", 5, 1, JobStatus::Done),
    ];
    let nothing = OutputEvidence { dir_exists: true, files: Vec::new() };
    let evidence = vec![nothing.clone(), nothing.clone(), nothing.clone(), nothing.clone(), nothing];
    update_jobs_status_on_start(&mut jobs, &evidence, &ArtifactConfig::all(), 4);
    assert_eq!(jobs[0].status, JobStatus::Pending);
    assert_eq!(jobs[1].status, JobStatus::Pending);
    assert_eq!(jobs[2].status, JobStatus::Pending);
    assert_eq!(jobs[3].status, JobStatus::Pending);
    assert_eq!(jobs[4].status, JobStatus::Done);
}

#[test]
fn a_failed_job_with_one_file_missing_becomes_pending() {
    let mut jobs = vec![job("a", 1, 2, JobStatus::Failed("Master JP2 selhalo".to_string()))];
    let mut evidence = full_output(1, 2, 4);
    evidence.files.retain(|f| f != "0002.ac.jp2");
    update_jobs_status_on_start(&mut jobs, &vec![evidence], &ArtifactConfig::all(), 4);
    assert_eq!(jobs[0], job("a", 1, 2, JobStatus::Pending));
}

#[test]
fn a_failed_job_without_output_directory_becomes_pending() {
    let mut jobs = vec![job("a", 1, 1, JobStatus::Failed("x".to_string()))];
    let mut evidence = full_output(1, 1, 4);
    evidence.dir_exists = false;
    update_jobs_status_on_start(&mut jobs, &vec![evidence], &ArtifactConfig::all(), 4);
    assert_eq!(jobs[0].status, JobStatus::Pending);
}

#[test]
fn the_last_page_may_carry_the_largest_number() {
    let batch = job("a", u32::MAX - 1, 2, JobStatus::Pending);
    let evidence = full_output_from(u32::MAX - 1, 2, 4);
    assert_eq!(evidence.files[4], "4294967295.ac.jp2");
    assert!(check_batch_already_done(&batch, &evidence, &ArtifactConfig::all(), 4));
    let mut short = evidence.clone();
    short.files.pop();
    assert!(!check_batch_already_done(&batch, &short, &ArtifactConfig::all(), 4));
}

#[test]
fn reconciliation_marks_complete_failed_jobs_as_already_done() {
    let mut jobs = vec![job("a", 1, 1, JobStatus::Failed("x".to_string()))];
    update_jobs_status_on_start(&mut jobs, &vec![full_output(1, 1, 4)], &ArtifactConfig::all(), 4);
    assert_eq!(jobs[0].status, JobStatus::AlreadyDone);
}

#[test]
fn a_job_without_evidence_counts_as_incomplete() {
    let mut jobs = vec![job("a", 1, 1, JobStatus::AlreadyDone), job("b", 2, 1, JobStatus::AlreadyDone)];
    update_jobs_status_on_start(&mut jobs, &vec![full_output(1, 1, 4)], &ArtifactConfig::all(), 4);
    assert_eq!(jobs[0].status, JobStatus::AlreadyDone);
    assert_eq!(jobs[1].status, JobStatus::Pending);
}

#[test]
fn reconciliation_changes_nothing_but_the_status() {
    let before = job("batchA", 7, 2, JobStatus::Pending);
    let mut jobs = vec![before.clone()];
    update_jobs_status_on_start(&mut jobs, &vec![full_output(7, 2, 4)], &ArtifactConfig::all(), 4);
    assert_eq!(jobs[0], BatchJob { status: JobStatus::AlreadyDone, ..before });
}

#[test]
fn names_and_pages_are_looked_up_exactly() {
    let files = vec!["0001.ac.jp2".to_string(), "0001.ocr.txt".to_string()];
    assert!(contains_name(&files, &"0001.ac.jp2".to_string()));
    assert!(!contains_name(&files, &"0001.ac.jp".to_string()));
    assert!(!contains_name(&Vec::new(), &"0001.ac.jp2".to_string()));
    let both = ArtifactConfig { master: true, user: false, text: true, layout: false };
    assert!(check_page_complete(&files, 1, 4, &both));
    assert!(!check_page_complete(&files, 2, 4, &both));
    assert!(!check_page_complete(&files, 1, 4, &ArtifactConfig::all()));
}

#[test]
fn status_tests_tell_the_variants_apart() {
    assert!(is_done(&JobStatus::Done));
    assert!(!is_done(&JobStatus::AlreadyDone));
    assert!(!is_done(&JobStatus::Failed("Done".to_string())));
}

#[test]
fn output_goes_below_the_root_by_batch_name() {
    let named = job("batchA", 1, 1, JobStatus::Pending);
    assert_eq!(batch_output_dir(&named), OutputDir::Named("batchA".to_string()));
    let root = BatchJob { is_root: true, ..job("input", 1, 1, JobStatus::Pending) };
    assert_eq!(batch_output_dir(&root), OutputDir::Root);
    let nameless = job("", 1, 1, JobStatus::Pending);
    assert_eq!(batch_output_dir(&nameless), OutputDir::Root);
}

#[test]
fn audit_directory_is_named_after_the_batch() {
    assert_eq!(logs_dir_name(&job("batchA", 1, 1, JobStatus::Pending)), "batchA_logs");
    assert_eq!(logs_dir_name(&job("", 1, 1, JobStatus::Pending)), "root_logs");
    assert_eq!(batch_label(&job("batchA", 1, 1, JobStatus::Pending)), "batchA");
    assert_eq!(batch_label(&job("", 1, 1, JobStatus::Pending)), "root");
}

#[test]
fn a_run_is_announced_with_batch_engine_and_data() {
    let mut logs = vec!["before".to_string()];
    announce_job(
        &job("batchA", 12, 3, JobStatus::Processing),
        "4.4",
        "/usr/bin/tesseract",
        "path",
        "None",
        &mut logs,
    );
    assert_eq!(
        logs,
        vec![
            "before".to_string(),
            "=== Dávka batchA (input/batchA), start index 12, ALTO v4.4 ===".to_string(),
            "Tesseract: /usr/bin/tesseract (path)".to_string(),
            "Tessdata dir: None".to_string(),
        ]
    );
    let mut nameless = Vec::new();
    announce_job(&job("", 1, 1, JobStatus::Processing), "3.0", "t", "s", "d", &mut nameless);
    assert_eq!(nameless[0], "=== Dávka <root> (input/), start index 1, ALTO v3.0 ===");
}
