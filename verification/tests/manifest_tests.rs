use lazyproarcconvert::artifact::{ArtifactConfig, ArtifactKind};
use lazyproarcconvert::digest::hash_file;
use lazyproarcconvert::manifest::{
    assemble_manifest, build_manifest_for_batch, checksums_text, file_info, ledger_text,
    BatchDescription, BatchManifest, FileInfo, PageEntry, PageFiles,
};

fn info(path: &str, size: u64, digest: &str) -> FileInfo {
    FileInfo { path: path.to_string(), size, blake3: digest.to_string() }
}

fn description() -> BatchDescription {
    BatchDescription {
        batch_name: "batchA".to_string(),
        input_dir: "input/batchA".to_string(),
        output_dir: "output/batchA".to_string(),
        logs_dir: "output/batchA_logs".to_string(),
        lang: "ces".to_string(),
        alto_version: "4.4".to_string(),
    }
}

fn found_page(n: u32, with: [bool; 4]) -> PageFiles {
    let file = |suffix: &str, present: bool| {
        if present {
            Some(info(&format!("output/batchA/{n:04}{suffix}"), 10 + n as u64, &format!("d{n}{suffix}")))
        } else {
            None
        }
    };
    PageFiles {
        original: info(&format!("input/batchA/p{n}.tif"), 100, &format!("src{n}")),
        master: file(".ac.jp2", with[0]),
        user: file(".uc.jp2", with[1]),
        text: file(".ocr.txt", with[2]),
        layout: file(".ocr.xml", with[3]),
    }
}

fn assemble(found: &Vec<PageFiles>, config: &ArtifactConfig) -> BatchManifest {
    assemble_manifest(
        description(),
        1,
        4,
        config,
        found,
        "2024-01-02T03:04:05+01:00".to_string(),
        "2024-01-02T03:04:06+01:00".to_string(),
    )
}

#[test]
fn a_file_is_recorded_with_its_size_and_digest() {
    let record = file_info("out/0001.ocr.txt", b"abc");
    assert_eq!(record.path, "out/0001.ocr.txt");
    assert_eq!(record.size, 3);
    assert_eq!(record.blake3, "6437b3ac38465133ffb63b75273a8db548c558465d79db03fd359c6cd5bd9d85");
    assert_eq!(record.blake3, hash_file(b"abc"));
    let empty = file_info("e", &[]);
    assert_eq!(empty.size, 0);
    assert_eq!(empty.blake3, hash_file(&[]));
}

#[test]
fn three_pages_with_four_records_each() {
    let found: Vec<PageFiles> = (1..=3).map(|n| found_page(n, [true; 4])).collect();
    let manifest = assemble(&found, &ArtifactConfig::all());
    assert_eq!(manifest.batch_name, "batchA");
    assert_eq!(manifest.start_index, 1);
    assert_eq!(manifest.file_count, 3);
    assert_eq!(manifest.input_dir, "input/batchA");
    assert_eq!(manifest.output_dir, "output/batchA");
    assert_eq!(manifest.logs_dir, "output/batchA_logs");
    assert_eq!(manifest.created_at, "2024-01-02T03:04:05+01:00");
    assert_eq!(manifest.generated, "2024-01-02T03:04:06+01:00");
    assert_eq!(manifest.lang, "ces");
    assert_eq!(manifest.alto_version, "4.4");
    assert_eq!(manifest.pages.len(), 3);
    let labels: Vec<&str> = manifest.pages.iter().map(|p| p.index.as_str()).collect();
    assert_eq!(labels, vec!["0001", "0002", "0003"]);
    for (page, from) in manifest.pages.iter().zip(found.iter()) {
        assert_eq!(page.original_tiff, from.original);
        assert_eq!(page.ac_jp2, from.master);
        assert_eq!(page.uc_jp2, from.user);
        assert_eq!(page.txt, from.text);
        assert_eq!(page.alto, from.layout);
        assert!(page.ac_jp2.is_some() && page.uc_jp2.is_some());
        assert!(page.txt.is_some() && page.alto.is_some());
    }
}

#[test]
fn a_missing_artifact_is_recorded_as_absent() {
    let found = vec![
        found_page(1, [true; 4]),
        found_page(2, [true; 4]),
        found_page(3, [false, true, true, true]),
        found_page(4, [true; 4]),
        found_page(5, [true; 4]),
    ];
    let manifest = assemble(&found, &ArtifactConfig::all());
    assert_eq!(manifest.pages.len(), 5);
    assert_eq!(manifest.pages[2].ac_jp2, None);
    assert_eq!(manifest.pages[2].uc_jp2, found[2].user);
    assert!(manifest.pages[2].has(ArtifactKind::PlainText));
    assert!(!manifest.pages[2].has(ArtifactKind::MasterDerivative));
    for i in [0, 1, 3, 4] {
        assert_eq!(manifest.pages[i].ac_jp2, found[i].master);
        assert!(manifest.pages[i].ac_jp2.is_some());
    }
}

#[test]
fn a_disabled_kind_is_not_recorded_even_if_its_file_exists() {
    let found = vec![found_page(1, [true; 4])];
    let config = ArtifactConfig { master: false, user: true, text: false, layout: true };
    let manifest = assemble(&found, &config);
    assert_eq!(manifest.pages[0].ac_jp2, None);
    assert_eq!(manifest.pages[0].uc_jp2, found[0].user);
    assert_eq!(manifest.pages[0].txt, None);
    assert_eq!(manifest.pages[0].alto, found[0].layout);
    assert!(manifest.has_any(ArtifactKind::UserDerivative));
    assert!(!manifest.has_any(ArtifactKind::MasterDerivative));
    assert!(manifest.has_derivatives());
}

#[test]
fn a_manifest_without_derivatives_says_so() {
    let found = vec![found_page(1, [false, false, true, true]), found_page(2, [false; 4])];
    let manifest = assemble(&found, &ArtifactConfig::all());
    assert!(!manifest.has_derivatives());
    assert!(manifest.has_any(ArtifactKind::PlainText));
    assert!(manifest.has_any(ArtifactKind::LayoutXml));
    let empty = assemble(&Vec::new(), &ArtifactConfig::all());
    assert_eq!(empty.file_count, 0);
    assert!(!empty.has_derivatives());
    assert!(!empty.has_any(ArtifactKind::PlainText));
}

#[test]
fn the_clock_stamps_a_built_manifest() {
    let found = vec![found_page(1, [true; 4])];
    let manifest = build_manifest_for_batch(description(), 7, 3, &ArtifactConfig::all(), &found);
    assert_eq!(manifest.start_index, 7);
    assert_eq!(manifest.file_count, 1);
    assert_eq!(manifest.pages[0].index, "007");
    assert_eq!(manifest.pages[0].txt, found[0].text);
    assert_eq!(manifest.batch_name, "batchA");
    assert!(manifest.created_at.len() >= 20);
    assert!(manifest.created_at.contains('T'));
    assert!(manifest.generated.contains('T'));
    assert_eq!(&manifest.created_at[4..5], "-");
}

#[test]
fn checksums_list_every_recorded_file() {
    let found = vec![found_page(1, [true, false, true, false]), found_page(2, [false, true, false, true])];
    let manifest = assemble(&found, &ArtifactConfig::all());
    assert_eq!(
        checksums_text(&manifest),
        "src1  input/batchA/p1.tif\n\
         d1.ac.jp2  output/batchA/0001.ac.jp2\n\
         d1.ocr.txt  output/batchA/0001.ocr.txt\n\
         src2  input/batchA/p2.tif\n\
         d2.uc.jp2  output/batchA/0002.uc.jp2\n\
         d2.ocr.xml  output/batchA/0002.ocr.xml\n"
    );
    assert_eq!(checksums_text(&assemble(&Vec::new(), &ArtifactConfig::all())), "");
}

#[test]
fn the_ledger_carries_head_log_and_listing() {
    let found = vec![found_page(1, [true, false, true, false]), found_page(2, [false; 4])];
    let manifest = assemble(&found, &ArtifactConfig::all());
    let log = vec!["first line".to_string(), "Dávka OK".to_string()];
    let rule = "=".repeat(80);
    let expected = format!(
        "BATCH PROCESSING LOG\n\
         ===================\n\
         \n\
         Batch: batchA\n\
         Start index: 1\n\
         File count: 2\n\
         Generated: 2024-01-02T03:04:06+01:00\n\
         Language: ces\n\
         ALTO version: 4.4\n\
         Formats: AC=true, UC=false, TXT=true, ALTO=false\n\
         \n\
         {rule}\n\
         PROCESS EXECUTION LOG\n\
         {rule}\n\
         \n\
         first line\n\
         Dávka OK\n\
         \n\
         {rule}\n\
         FILE CHECKSUMS\n\
         {rule}\n\
         \n\
         [Page 0001]\n  Original TIFF: input/batchA/p1.tif\n  AC JP2: output/batchA/0001.ac.jp2 = d1.ac.jp2\n  TXT: output/batchA/0001.ocr.txt = d1.ocr.txt\n\
         \n\
         [Page 0002]\n  Original TIFF: input/batchA/p2.tif\n\
         \n"
    );
    assert_eq!(ledger_text(&manifest, &log), expected);
}

#[test]
fn the_ledger_of_an_empty_run() {
    let manifest = assemble(&Vec::new(), &ArtifactConfig::all());
    let rule = "=".repeat(80);
    let expected = format!(
        "BATCH PROCESSING LOG\n===================\n\nBatch: batchA\nStart index: 1\nFile count: 0\n\
         Generated: 2024-01-02T03:04:06+01:00\nLanguage: ces\nALTO version: 4.4\n\
         Formats: AC=false, UC=false, TXT=false, ALTO=false\n\
         \n{rule}\nPROCESS EXECUTION LOG\n{rule}\n\n\n{rule}\nFILE CHECKSUMS\n{rule}\n\n"
    );
    assert_eq!(ledger_text(&manifest, &Vec::new()), expected);
}

#[test]
fn the_ledger_lists_all_four_kinds() {
    let found = vec![found_page(3, [true; 4])];
    let manifest = assemble_manifest(
        description(),
        3,
        4,
        &ArtifactConfig::all(),
        &found,
        "c".to_string(),
        "g".to_string(),
    );
    let text = ledger_text(&manifest, &Vec::new());
    assert!(text.contains("Start index: 3\n"));
    assert!(text.contains("Formats: AC=true, UC=true, TXT=true, ALTO=true\n"));
    assert!(text.ends_with(
        "[Page 0003]\n  Original TIFF: input/batchA/p3.tif\n  AC JP2: output/batchA/0003.ac.jp2 = d3.ac.jp2\n  UC JP2: output/batchA/0003.uc.jp2 = d3.uc.jp2\n  TXT: output/batchA/0003.ocr.txt = d3.ocr.txt\n  ALTO: output/batchA/0003.ocr.xml = d3.ocr.xml\n\n"
    ));
}

#[test]
fn entries_compare_by_their_fields() {
    let a = PageEntry {
        index: "0001".to_string(),
        original_tiff: info("a", 1, "x"),
        ac_jp2: None,
        uc_jp2: None,
        txt: None,
        alto: None,
    };
    let mut b = a.clone();
    assert_eq!(a, b);
    b.txt = Some(info("t", 2, "y"));
    assert_ne!(a, b);
}
