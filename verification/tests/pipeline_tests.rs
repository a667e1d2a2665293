use lazyproarcconvert::artifact::ArtifactConfig;
use lazyproarcconvert::pipeline::{process_batch, BatchRun, Stage, ToolCall};
use lazyproarcconvert::tools::{ExitReport, OcrFiles, Tessdata, ToolOutcome};

fn sources(count: usize) -> Vec<String> {
    (1..=count).map(|i| format!("in/p{i}.tif")).collect()
}

fn begin(count: usize, config: ArtifactConfig, dry_run: bool, logs: &mut Vec<String>) -> BatchRun {
    process_batch(
        sources(count),
        1,
        4,
        &config,
        dry_run,
        "tesseract".to_string(),
        "ces".to_string(),
        "4.4".to_string(),
        Tessdata::Unusable,
        logs,
    )
}

fn exited(success: bool) -> ToolOutcome {
    ToolOutcome::Exited(ExitReport {
        success,
        code: Some(if success { 0 } else { 1 }),
        stdout: String::new(),
        stderr: String::new(),
    })
}

fn no_files() -> OcrFiles {
    OcrFiles {
        text_path: "t".to_string(),
        text_present: true,
        layout_path: "l".to_string(),
        layout_present: true,
    }
}

fn drive(run: &mut BatchRun, fails: &[(usize, Stage)], logs: &mut Vec<String>) -> Vec<ToolCall> {
    let mut calls = Vec::new();
    while let Some(call) = run.next_call() {
        let failed = fails.contains(&(call.page, call.stage));
        run.complete_call("cmd", &exited(!failed), &no_files(), logs);
        calls.push(call);
    }
    calls
}

#[test]
fn every_page_goes_through_every_stage_in_order() {
    let mut logs = Vec::new();
    let mut run = begin(2, ArtifactConfig::all(), false, &mut logs);
    assert!(logs.is_empty());
    assert!(!run.is_finished());
    let calls = drive(&mut run, &[], &mut logs);
    let seen: Vec<(usize, Stage, &str, &str, &str)> = calls
        .iter()
        .map(|c| (c.page, c.stage, c.source.as_str(), c.label.as_str(), c.dest_name.as_str()))
        .collect();
    assert_eq!(
        seen,
        vec![
            (0, Stage::Master, "in/p1.tif", "0001", "0001.ac.jp2"),
            (0, Stage::User, "in/p1.tif", "0001", "0001.uc.jp2"),
            (0, Stage::Ocr, "in/p1.tif", "0001", "0001.ocr"),
            (1, Stage::Master, "in/p2.tif", "0002", "0002.ac.jp2"),
            (1, Stage::User, "in/p2.tif", "0002", "0002.uc.jp2"),
            (1, Stage::Ocr, "in/p2.tif", "0002", "0002.ocr"),
        ]
    );
    assert!(calls.iter().all(|c| c.spawn));
    assert!(run.is_finished());
    assert_eq!(run.outcome(), Ok(()));
}

#[test]
fn a_failure_on_page_three_does_not_stop_pages_four_and_five() {
    let mut logs = Vec::new();
    let mut run = begin(5, ArtifactConfig::all(), false, &mut logs);
    let calls = drive(&mut run, &[(2, Stage::Master)], &mut logs);
    assert_eq!(calls.len(), 15);
    let pages: Vec<usize> = calls.iter().map(|c| c.page).collect();
    assert_eq!(pages, vec![0, 0, 0, 1, 1, 1, 2, 2, 2, 3, 3, 3, 4, 4, 4]);
    assert_eq!(run.outcome(), Err("Master JP2 selhalo pro `in/p3.tif`".to_string()));
    assert!(logs.contains(&"Chyba Master: Master JP2 selhalo pro `in/p3.tif`".to_string()));
    assert!(logs.contains(&"--- Soubor in/p5.tif (index 0005) ---".to_string()));
}

#[test]
fn the_first_failure_is_the_reason() {
    let mut logs = Vec::new();
    let mut run = begin(3, ArtifactConfig::all(), false, &mut logs);
    let fails = [(1, Stage::Ocr), (1, Stage::User), (2, Stage::Master)];
    let calls = drive(&mut run, &fails, &mut logs);
    assert_eq!(calls.len(), 9);
    assert_eq!(run.outcome(), Err("User JP2 selhalo pro `in/p2.tif`".to_string()));
    let reported: Vec<&String> = logs.iter().filter(|l| l.starts_with("Chyba ")).collect();
    assert_eq!(
        reported,
        vec![
            "Chyba User: User JP2 selhalo pro `in/p2.tif`",
            "Chyba OCR: Tesseract selhalo pro `in/p2.tif`",
            "Chyba Master: Master JP2 selhalo pro `in/p3.tif`",
        ]
    );
}

#[test]
fn the_log_of_one_page() {
    let mut logs = Vec::new();
    let config = ArtifactConfig { master: true, user: false, text: true, layout: false };
    let mut run = begin(1, config, false, &mut logs);
    let first = run.next_call().unwrap();
    assert_eq!(first.stage, Stage::Master);
    run.complete_call("[Grok Master] grk -i in/p1.tif", &exited(true), &no_files(), &mut logs);
    let second = run.next_call().unwrap();
    assert_eq!(second.stage, Stage::Ocr);
    run.complete_call("[Tesseract] tess in/p1.tif", &exited(false), &no_files(), &mut logs);
    assert_eq!(run.next_call(), None);
    assert_eq!(
        logs,
        vec![
            "--- Soubor in/p1.tif (index 0001) ---",
            "[Grok Master] grk -i in/p1.tif",
            "OK",
            "Tesseract: tesseract",
            "Jazyk: ces",
            "ALTO verze: 4.4",
            "[Tesseract] tess in/p1.tif",
            "Spouštím Tesseract...",
            "✗ Tesseract FAILED (exit code: 1)",
            "Chyba OCR: Tesseract selhalo pro `in/p1.tif`",
        ]
    );
    assert_eq!(run.outcome(), Err("Tesseract selhalo pro `in/p1.tif`".to_string()));
}

#[test]
fn only_enabled_stages_are_called() {
    let mut logs = Vec::new();
    let config = ArtifactConfig { master: false, user: true, text: false, layout: true };
    let mut run = begin(2, config, false, &mut logs);
    let calls = drive(&mut run, &[], &mut logs);
    let stages: Vec<Stage> = calls.iter().map(|c| c.stage).collect();
    assert_eq!(stages, vec![Stage::User, Stage::Ocr, Stage::User, Stage::Ocr]);
    assert_eq!(run.ocr.want_text, false);
    assert_eq!(run.ocr.want_layout, true);
}

#[test]
fn a_batch_without_pages_is_skipped() {
    let mut logs = Vec::new();
    let run = begin(0, ArtifactConfig::all(), false, &mut logs);
    assert_eq!(logs, vec!["Dávka neobsahuje žádné TIFF soubory – přeskočeno."]);
    assert!(run.is_finished());
    assert_eq!(run.next_call(), None);
    assert_eq!(run.outcome(), Ok(()));
}

#[test]
fn a_run_with_nothing_enabled_is_skipped() {
    let mut logs = Vec::new();
    let none = ArtifactConfig { master: false, user: false, text: false, layout: false };
    let run = begin(3, none, false, &mut logs);
    assert_eq!(logs, vec!["Nic není zapnuto (AC/UC/TXT/ALTO) – dávka přeskočena."]);
    assert!(run.is_finished());
    assert_eq!(run.next_call(), None);
    assert_eq!(run.outcome(), Ok(()));
}

#[test]
fn a_dry_run_names_the_calls_without_starting_them() {
    let mut logs = Vec::new();
    let mut run = begin(1, ArtifactConfig::all(), true, &mut logs);
    let mut count = 0;
    while let Some(call) = run.next_call() {
        assert!(!call.spawn);
        run.complete_call("cmd", &ToolOutcome::NotRun, &no_files(), &mut logs);
        count += 1;
    }
    assert_eq!(count, 3);
    assert_eq!(run.outcome(), Ok(()));
    assert_eq!(logs.iter().filter(|l| *l == "(dry-run)").count(), 3);
}

#[test]
fn sequence_numbers_start_at_the_batch_start() {
    let mut logs = Vec::new();
    let only_master = ArtifactConfig { master: true, user: false, text: false, layout: false };
    let run = process_batch(
        sources(2),
        98,
        2,
        &only_master,
        false,
        "t".to_string(),
        "eng".to_string(),
        "3.0".to_string(),
        Tessdata::NotFound,
        &mut logs,
    );
    let call = run.next_call().unwrap();
    assert_eq!(call.label, "98");
    assert_eq!(call.dest_name, "98.ac.jp2");
    let mut run = run;
    run.complete_call("c", &exited(true), &no_files(), &mut logs);
    let next = run.next_call().unwrap();
    assert_eq!(next.label, "99");
    assert_eq!(next.page, 1);
    assert_eq!(run.index_start, 98);
    assert_eq!(run.ocr.lang, "eng");
}
