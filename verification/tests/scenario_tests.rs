use lazyproarcconvert::artifact::ArtifactConfig;
use lazyproarcconvert::discovery::{collect_tiffs_in_dir, discover, Candidate, ListedEntry};
use lazyproarcconvert::job::{
    announce_job, batch_label, batch_output_dir, logs_dir_name, update_jobs_status_on_start,
    JobStatus, OutputDir, OutputEvidence,
};
use lazyproarcconvert::manifest::{
    assemble_manifest, file_info, ledger_text, BatchDescription, PageFiles,
};
use lazyproarcconvert::orchestrator::{begin_job, process_selected, resolve_job};
use lazyproarcconvert::pipeline::{process_batch, Stage};
use lazyproarcconvert::tools::{
    command_to_string, grok_args, grok_label, tesseract_args, ExitReport, OcrFiles, Profile,
    Tessdata, ToolOutcome,
};

fn file(name: &str) -> ListedEntry {
    ListedEntry { name: name.to_string(), is_file: true }
}

fn tree() -> Vec<Candidate> {
    vec![
        Candidate {
            dir: "input".to_string(),
            name: "input".to_string(),
            is_root: true,
            entries: vec![ListedEntry { name: "batchA".to_string(), is_file: false }],
        },
        Candidate {
            dir: "input/batchA".to_string(),
            name: "batchA".to_string(),
            is_root: false,
            entries: vec![file("p3.tif"), file("p1.tif"), file("notes.txt"), file("p2.TIFF")],
        },
    ]
}

fn success() -> ToolOutcome {
    ToolOutcome::Exited(ExitReport {
        success: true,
        code: Some(0),
        stdout: String::new(),
        stderr: String::new(),
    })
}

#[test]
fn one_batch_of_three_pages_from_discovery_to_ledger() {
    let candidates = tree();
    let mut jobs = discover(&candidates, 1).unwrap();
    assert_eq!(jobs.len(), 1);
    assert_eq!((jobs[0].index_start, jobs[0].file_count), (1, 3));
    assert_eq!(batch_output_dir(&jobs[0]), OutputDir::Named("batchA".to_string()));
    assert_eq!(logs_dir_name(&jobs[0]), "batchA_logs");

    let mut session = Vec::new();
    assert_eq!(process_selected(&jobs, 0, &mut session), Some(0));
    assert!(begin_job(&mut jobs, 0));
    assert_eq!(jobs[0].status, JobStatus::Processing);

    let mut logs = Vec::new();
    announce_job(&jobs[0], "4.4", "tesseract", "path", "None", &mut logs);
    let names = collect_tiffs_in_dir(&candidates[1].entries);
    assert_eq!(names, vec!["p1.tif", "p2.TIFF", "p3.tif"]);
    let sources: Vec<String> = names.iter().map(|n| format!("input/batchA/{n}")).collect();
    let mut run = process_batch(
        sources.clone(),
        jobs[0].index_start,
        4,
        &ArtifactConfig::all(),
        false,
        "tesseract".to_string(),
        "ces".to_string(),
        "4.4".to_string(),
        Tessdata::NotFound,
        &mut logs,
    );
    let mut written: Vec<String> = Vec::new();
    while let Some(call) = run.next_call() {
        let dest = format!("output/batchA/{}", call.dest_name);
        let command = match call.stage {
            Stage::Master => {
                written.push(call.dest_name.clone());
                command_to_string(
                    grok_label(Profile::Master),
                    "grk_compress",
                    &grok_args(Profile::Master, &call.source, &dest),
                )
            }
            Stage::User => {
                written.push(call.dest_name.clone());
                command_to_string(
                    grok_label(Profile::User),
                    "grk_compress",
                    &grok_args(Profile::User, &call.source, &dest),
                )
            }
            Stage::Ocr => {
                written.push(format!("{}.txt", call.dest_name));
                written.push(format!("{}.xml", call.dest_name));
                command_to_string("Tesseract", "tesseract", &tesseract_args(&run.ocr, &call.source, &dest))
            }
        };
        let files = OcrFiles {
            text_path: format!("{dest}.txt"),
            text_present: true,
            layout_path: format!("{dest}.xml"),
            layout_present: true,
        };
        run.complete_call(&command, &success(), &files, &mut logs);
    }
    assert_eq!(
        written,
        vec![
            "0001.ac.jp2", "0001.uc.jp2", "0001.ocr.txt", "0001.ocr.xml", "0002.ac.jp2",
            "0002.uc.jp2", "0002.ocr.txt", "0002.ocr.xml", "0003.ac.jp2", "0003.uc.jp2",
            "0003.ocr.txt", "0003.ocr.xml",
        ]
    );
    assert!(resolve_job(&mut jobs, 0, run.outcome(), &mut logs));
    assert_eq!(jobs[0].status, JobStatus::Done);

    let found: Vec<PageFiles> = (0..3)
        .map(|i| {
            let record = |name: &str| {
                Some(file_info(&format!("output/batchA/{name}"), name.as_bytes()))
            };
            PageFiles {
                original: file_info(&sources[i], sources[i].as_bytes()),
                master: record(&written[4 * i]),
                user: record(&written[4 * i + 1]),
                text: record(&written[4 * i + 2]),
                layout: record(&written[4 * i + 3]),
            }
        })
        .collect();
    let manifest = assemble_manifest(
        BatchDescription {
            batch_name: batch_label(&jobs[0]),
            input_dir: "input/batchA".to_string(),
            output_dir: "output/batchA".to_string(),
            logs_dir: "output/batchA_logs".to_string(),
            lang: "ces".to_string(),
            alto_version: "4.4".to_string(),
        },
        jobs[0].index_start,
        4,
        &ArtifactConfig::all(),
        &found,
        "created".to_string(),
        "generated".to_string(),
    );
    assert_eq!(manifest.pages.len(), 3);
    let records: usize = manifest
        .pages
        .iter()
        .map(|p| [&p.ac_jp2, &p.uc_jp2, &p.txt, &p.alto].iter().filter(|f| f.is_some()).count())
        .sum();
    assert_eq!(records, 12);
    assert_eq!(manifest.pages[1].original_tiff.path, "input/batchA/p2.TIFF");
    assert_eq!(manifest.pages[2].alto.as_ref().unwrap().path, "output/batchA/0003.ocr.xml");

    let ledger = ledger_text(&manifest, &logs);
    for line in &logs {
        assert!(ledger.contains(&format!("{line}\n")));
    }
    assert_eq!(logs[0], "=== Dávka batchA (input/batchA), start index 1, ALTO v4.4 ===");
    assert_eq!(logs[3], "--- Soubor input/batchA/p1.tif (index 0001) ---");
    assert!(logs[4].starts_with("[Grok Master] grk_compress -i input/batchA/p1.tif -o output/batchA/0001.ac.jp2 -t 4096,4096"));
    assert_eq!(logs[logs.len() - 2], "Dávka OK");
    assert!(ledger.contains("[Page 0003]\n  Original TIFF: input/batchA/p3.tif\n"));

    let evidence = vec![OutputEvidence { dir_exists: true, files: written }];
    jobs[0].status = JobStatus::Pending;
    update_jobs_status_on_start(&mut jobs, &evidence, &ArtifactConfig::all(), 4);
    assert_eq!(jobs[0].status, JobStatus::AlreadyDone);
    let mut turned_down = Vec::new();
    assert_eq!(process_selected(&jobs, 0, &mut turned_down), None);

    let text_only = ArtifactConfig { master: false, user: false, text: true, layout: false };
    jobs[0].status = JobStatus::Pending;
    update_jobs_status_on_start(&mut jobs, &evidence, &text_only, 4);
    assert_eq!(jobs[0].status, JobStatus::AlreadyDone);
}
