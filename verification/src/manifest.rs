//! The manifest of a batch: what was found of its output after the run, with
//! the size and digest of every file, and the texts written beside it.

use vstd::prelude::*;
use crate::artifact::{index_label, page_label, ArtifactConfig, ArtifactKind};
use crate::clock::now_rfc3339;
use crate::digest::{compute_blake3, digest_of, is_digest_text};
use crate::text::{decimal, decimal_of, lines_of, push_char};

verus! {

/// One file: where it is, how large, and the digest of its content.
#[derive(Clone, Debug, PartialEq, Eq)]
pub struct FileInfo {
    pub path: String,
    pub size: u64,
    pub blake3: String,
}

/// One page: its label, its source image, and each artifact that was found.
#[derive(Clone, Debug, PartialEq, Eq)]
pub struct PageEntry {
    pub index: String,
    pub original_tiff: FileInfo,
    pub ac_jp2: Option<FileInfo>,
    pub uc_jp2: Option<FileInfo>,
    pub txt: Option<FileInfo>,
    pub alto: Option<FileInfo>,
}

/// The manifest of one batch.
#[derive(Clone, Debug, PartialEq, Eq)]
pub struct BatchManifest {
    pub batch_name: String,
    pub start_index: u32,
    pub file_count: usize,
    pub input_dir: String,
    pub output_dir: String,
    pub logs_dir: String,
    pub created_at: String,
    pub generated: String,
    pub lang: String,
    pub alto_version: String,
    pub pages: Vec<PageEntry>,
}

/// What was found for one page: the source image, and each artifact whose
/// file exists.
#[derive(Clone, Debug, PartialEq, Eq)]
pub struct PageFiles {
    pub original: FileInfo,
    pub master: Option<FileInfo>,
    pub user: Option<FileInfo>,
    pub text: Option<FileInfo>,
    pub layout: Option<FileInfo>,
}

/// The record of a file at `path` whose content is `content`.
pub fn file_info(path: &str, content: &[u8]) -> (info: FileInfo)
    requires
        content@.len() <= u64::MAX,
    ensures
        info.path@ == path@,
        info.size == content@.len(),
        info.blake3@ == digest_of(content@),
        is_digest_text(info.blake3@),
{
    FileInfo {
        path: String::from_str(path),
        size: content.len() as u64,
        blake3: compute_blake3(content),
    }
}

fn copy_info(info: &FileInfo) -> (copy: FileInfo)
    ensures
        copy == *info,
{
    FileInfo { path: info.path.clone(), size: info.size, blake3: info.blake3.clone() }
}

fn copy_if(wanted: bool, found: &Option<FileInfo>) -> (kept: Option<FileInfo>)
    ensures
        kept == recorded(wanted, *found),
{
    if wanted {
        match found {
            Some(info) => Some(copy_info(info)),
            None => None,
        }
    } else {
        None
    }
}

/// What the manifest records of an artifact: the file that was found, if its
/// kind is enabled; nothing for a kind that is switched off or a file that
/// is missing.
pub open spec fn recorded(wanted: bool, found: Option<FileInfo>) -> Option<FileInfo> {
    if wanted {
        found
    } else {
        None
    }
}

/// The manifest entry of the page numbered `seq_no`.
pub open spec fn entry_matches(
    entry: PageEntry,
    found: PageFiles,
    seq_no: nat,
    digits: nat,
    config: ArtifactConfig,
) -> bool {
    &&& entry.index@ == page_label(seq_no, digits)
    &&& entry.original_tiff == found.original
    &&& entry.ac_jp2 == recorded(config.master, found.master)
    &&& entry.uc_jp2 == recorded(config.user, found.user)
    &&& entry.txt == recorded(config.text, found.text)
    &&& entry.alto == recorded(config.layout, found.layout)
}

/// The pages of a manifest: one entry for each page found, in page order,
/// numbered on from `index_start`.
pub open spec fn pages_match(
    pages: Seq<PageEntry>,
    found: Seq<PageFiles>,
    index_start: nat,
    digits: nat,
    config: ArtifactConfig,
) -> bool {
    &&& pages.len() == found.len()
    &&& forall|i: int|
        0 <= i < pages.len() ==> entry_matches(
            #[trigger] pages[i],
            found[i],
            (index_start + i) as nat,
            digits,
            config,
        )
}

/// The description of a batch that a manifest carries besides its pages.
pub struct BatchDescription {
    pub batch_name: String,
    pub input_dir: String,
    pub output_dir: String,
    pub logs_dir: String,
    pub lang: String,
    pub alto_version: String,
}

/// Puts a manifest together from what was found and from the two
/// timestamps.
pub fn assemble_manifest(
    batch: BatchDescription,
    index_start: u32,
    digits: usize,
    config: &ArtifactConfig,
    found: &Vec<PageFiles>,
    created_at: String,
    generated: String,
) -> (manifest: BatchManifest)
    requires
        index_start + found.len() <= u32::MAX + 1,
    ensures
        manifest.batch_name == batch.batch_name,
        manifest.start_index == index_start,
        manifest.file_count == found.len(),
        manifest.input_dir == batch.input_dir,
        manifest.output_dir == batch.output_dir,
        manifest.logs_dir == batch.logs_dir,
        manifest.created_at == created_at,
        manifest.generated == generated,
        manifest.lang == batch.lang,
        manifest.alto_version == batch.alto_version,
        pages_match(manifest.pages@, found@, index_start as nat, digits as nat, *config),
{
    let mut pages: Vec<PageEntry> = Vec::new();
    let mut i: usize = 0;
    while i < found.len()
        invariant
            i <= found.len(),
            index_start + found.len() <= u32::MAX + 1,
            pages_match(pages@, found@.take(i as int), index_start as nat, digits as nat, *config),
        decreases found.len() - i,
    {
        let seq_no: u32 = index_start + i as u32;
        let entry = PageEntry {
            index: index_label(seq_no, digits),
            original_tiff: copy_info(&found[i].original),
            ac_jp2: copy_if(config.master, &found[i].master),
            uc_jp2: copy_if(config.user, &found[i].user),
            txt: copy_if(config.text, &found[i].text),
            alto: copy_if(config.layout, &found[i].layout),
        };
        pages.push(entry);
        i += 1;
    }
    BatchManifest {
        batch_name: batch.batch_name,
        start_index: index_start,
        file_count: pages.len(),
        input_dir: batch.input_dir,
        output_dir: batch.output_dir,
        logs_dir: batch.logs_dir,
        created_at,
        generated,
        lang: batch.lang,
        alto_version: batch.alto_version,
        pages,
    }
}

/// Builds the manifest of a batch from what was found of it: for every page
/// the source image and, for each enabled kind, the artifact if its file
/// exists. A missing file is recorded as absent. The two timestamps are read
/// from the clock.
pub fn build_manifest_for_batch(
    batch: BatchDescription,
    index_start: u32,
    digits: usize,
    config: &ArtifactConfig,
    found: &Vec<PageFiles>,
) -> (manifest: BatchManifest)
    requires
        index_start + found.len() <= u32::MAX + 1,
    ensures
        manifest.batch_name == batch.batch_name,
        manifest.start_index == index_start,
        manifest.file_count == found.len(),
        manifest.input_dir == batch.input_dir,
        manifest.output_dir == batch.output_dir,
        manifest.logs_dir == batch.logs_dir,
        manifest.lang == batch.lang,
        manifest.alto_version == batch.alto_version,
        pages_match(manifest.pages@, found@, index_start as nat, digits as nat, *config),
{
    let created_at = now_rfc3339();
    let generated = now_rfc3339();
    assemble_manifest(batch, index_start, digits, config, found, created_at, generated)
}

/// One line of the checksum list: digest, two spaces, path.
pub open spec fn checksum_line(info: FileInfo) -> Seq<char> {
    info.blake3@ + "  "@ + info.path@ + "\n"@
}

/// The checksum line of a file that may be absent.
pub open spec fn optional_checksum_line(info: Option<FileInfo>) -> Seq<char> {
    match info {
        Some(f) => checksum_line(f),
        None => Seq::<char>::empty(),
    }
}

/// The checksum lines of one page: the source image, then each artifact that
/// is recorded.
pub open spec fn page_checksums(page: PageEntry) -> Seq<char> {
    checksum_line(page.original_tiff) + optional_checksum_line(page.ac_jp2)
        + optional_checksum_line(page.uc_jp2) + optional_checksum_line(page.txt)
        + optional_checksum_line(page.alto)
}

/// The checksum list of a run of pages.
pub open spec fn checksums_of(pages: Seq<PageEntry>) -> Seq<char>
    decreases pages.len(),
{
    if pages.len() == 0 {
        Seq::<char>::empty()
    } else {
        checksums_of(pages.drop_last()) + page_checksums(pages.last())
    }
}

fn append_checksum(out: &mut String, info: &FileInfo)
    ensures
        final(out)@ == old(out)@ + checksum_line(*info),
{
    out.append(info.blake3.as_str());
    out.append("  ");
    out.append(info.path.as_str());
    out.append("\n");
}

fn append_optional_checksum(out: &mut String, info: &Option<FileInfo>)
    ensures
        final(out)@ == old(out)@ + optional_checksum_line(*info),
{
    match info {
        Some(f) => append_checksum(out, f),
        None => {
        },
    }
}

/// The checksum list of a manifest: for every page, in order, one line for
/// the source image and one for each recorded artifact.
pub fn checksums_text(manifest: &BatchManifest) -> (text: String)
    ensures
        text@ == checksums_of(manifest.pages@),
{
    let mut text = String::new();
    let mut i: usize = 0;
    while i < manifest.pages.len()
        invariant
            i <= manifest.pages.len(),
            text@ == checksums_of(manifest.pages@.take(i as int)),
        decreases manifest.pages.len() - i,
    {
        let page = &manifest.pages[i];
        append_checksum(&mut text, &page.original_tiff);
        append_optional_checksum(&mut text, &page.ac_jp2);
        append_optional_checksum(&mut text, &page.uc_jp2);
        append_optional_checksum(&mut text, &page.txt);
        append_optional_checksum(&mut text, &page.alto);
        proof {
            let next = manifest.pages@.take(i + 1);
            assert(next.drop_last() =~= manifest.pages@.take(i as int));
        }
        i += 1;
    }
    assert(manifest.pages@.take(manifest.pages.len() as int) =~= manifest.pages@);
    text
}

impl PageEntry {
    /// What the entry records for `kind`.
    pub open spec fn artifact(self, kind: ArtifactKind) -> Option<FileInfo> {
        match kind {
            ArtifactKind::MasterDerivative => self.ac_jp2,
            ArtifactKind::UserDerivative => self.uc_jp2,
            ArtifactKind::PlainText => self.txt,
            ArtifactKind::LayoutXml => self.alto,
        }
    }

    /// Whether the entry records an artifact of `kind`.
    pub fn has(&self, kind: ArtifactKind) -> (yes: bool)
        ensures
            yes == (self.artifact(kind) is Some),
    {
        match kind {
            ArtifactKind::MasterDerivative => self.ac_jp2.is_some(),
            ArtifactKind::UserDerivative => self.uc_jp2.is_some(),
            ArtifactKind::PlainText => self.txt.is_some(),
            ArtifactKind::LayoutXml => self.alto.is_some(),
        }
    }
}

/// Whether some page records an artifact of `kind`.
pub open spec fn any_recorded(pages: Seq<PageEntry>, kind: ArtifactKind) -> bool {
    exists|i: int| 0 <= i < pages.len() && (#[trigger] pages[i]).artifact(kind) is Some
}

impl BatchManifest {
    /// Whether some page records an artifact of `kind`.
    pub fn has_any(&self, kind: ArtifactKind) -> (yes: bool)
        ensures
            yes == any_recorded(self.pages@, kind),
    {
        let mut i: usize = 0;
        while i < self.pages.len()
            invariant
                i <= self.pages.len(),
                forall|j: int| 0 <= j < i ==> !((#[trigger] self.pages@[j]).artifact(kind) is Some),
            decreases self.pages.len() - i,
        {
            if self.pages[i].has(kind) {
                return true;
            }
            i += 1;
        }
        false
    }

    /// Whether any image derivative is recorded, so that previews can be
    /// made.
    pub fn has_derivatives(&self) -> (yes: bool)
        ensures
            yes == (any_recorded(self.pages@, ArtifactKind::MasterDerivative) || any_recorded(
                self.pages@,
                ArtifactKind::UserDerivative,
            )),
    {
        self.has_any(ArtifactKind::MasterDerivative) || self.has_any(ArtifactKind::UserDerivative)
    }
}

/// A line of eighty equals signs.
pub open spec fn rule() -> Seq<char> {
    Seq::new(80, |i: int| '=')
}

/// How a truth value is written.
pub open spec fn bool_text(b: bool) -> Seq<char> {
    if b {
        "true"@
    } else {
        "false"@
    }
}

/// The head of the ledger: what the run was.
pub open spec fn ledger_head(manifest: BatchManifest) -> Seq<char> {
    "BATCH PROCESSING LOG\n"@ + "===================\n\n"@ + "Batch: "@ + manifest.batch_name@
        + "\n"@ + "Start index: "@ + decimal(manifest.start_index as nat) + "\n"@
        + "File count: "@ + decimal(manifest.file_count as nat) + "\n"@ + "Generated: "@
        + manifest.generated@ + "\n"@ + "Language: "@ + manifest.lang@ + "\n"@
        + "ALTO version: "@ + manifest.alto_version@ + "\n"@ + "Formats: AC="@ + bool_text(
        any_recorded(manifest.pages@, ArtifactKind::MasterDerivative),
    ) + ", UC="@ + bool_text(any_recorded(manifest.pages@, ArtifactKind::UserDerivative))
        + ", TXT="@ + bool_text(any_recorded(manifest.pages@, ArtifactKind::PlainText))
        + ", ALTO="@ + bool_text(any_recorded(manifest.pages@, ArtifactKind::LayoutXml)) + "\n"@
}

/// The heading of a section of the ledger.
pub open spec fn section_heading(title: Seq<char>) -> Seq<char> {
    "\n"@ + rule() + "\n"@ + title + "\n"@ + rule() + "\n\n"@
}

/// The lines of the action log, each ended by a line break.
pub open spec fn log_text(lines: Seq<Seq<char>>) -> Seq<char>
    decreases lines.len(),
{
    if lines.len() == 0 {
        Seq::<char>::empty()
    } else {
        log_text(lines.drop_last()) + lines.last() + "\n"@
    }
}

/// One artifact in the page listing of the ledger: its name, path and digest,
/// or nothing where it is absent.
pub open spec fn listing_line(name: Seq<char>, info: Option<FileInfo>) -> Seq<char> {
    match info {
        Some(f) => "  "@ + name + ": "@ + f.path@ + " = "@ + f.blake3@ + "\n"@,
        None => Seq::<char>::empty(),
    }
}

/// One page in the listing of the ledger.
pub open spec fn page_listing(page: PageEntry) -> Seq<char> {
    "[Page "@ + page.index@ + "]\n"@ + "  Original TIFF: "@ + page.original_tiff.path@ + "\n"@
        + listing_line("AC JP2"@, page.ac_jp2) + listing_line("UC JP2"@, page.uc_jp2)
        + listing_line("TXT"@, page.txt) + listing_line("ALTO"@, page.alto) + "\n"@
}

/// The page listing of the ledger.
pub open spec fn listing_of(pages: Seq<PageEntry>) -> Seq<char>
    decreases pages.len(),
{
    if pages.len() == 0 {
        Seq::<char>::empty()
    } else {
        listing_of(pages.drop_last()) + page_listing(pages.last())
    }
}

/// The ledger of a run: its head, the action log in full, and the listing of
/// every page with the digests of its artifacts.
pub open spec fn ledger_of(manifest: BatchManifest, log: Seq<Seq<char>>) -> Seq<char> {
    ledger_head(manifest) + section_heading("PROCESS EXECUTION LOG"@) + log_text(log)
        + section_heading("FILE CHECKSUMS"@) + listing_of(manifest.pages@)
}

fn bool_str(b: bool) -> (text: &'static str)
    ensures
        text@ == bool_text(b),
{
    if b {
        "true"
    } else {
        "false"
    }
}

fn head_text(manifest: &BatchManifest) -> (text: String)
    ensures
        text@ == ledger_head(*manifest),
{
    let start = decimal_of(manifest.start_index as u64);
    let count = decimal_of(manifest.file_count as u64);
    let mut text = String::from_str("BATCH PROCESSING LOG\n");
    text.append("===================\n\n");
    text.append("Batch: ");
    text.append(manifest.batch_name.as_str());
    text.append("\n");
    text.append("Start index: ");
    text.append(start.as_str());
    text.append("\n");
    text.append("File count: ");
    text.append(count.as_str());
    text.append("\n");
    text.append("Generated: ");
    text.append(manifest.generated.as_str());
    text.append("\n");
    text.append("Language: ");
    text.append(manifest.lang.as_str());
    text.append("\n");
    text.append("ALTO version: ");
    text.append(manifest.alto_version.as_str());
    text.append("\n");
    text.append("Formats: AC=");
    text.append(bool_str(manifest.has_any(ArtifactKind::MasterDerivative)));
    text.append(", UC=");
    text.append(bool_str(manifest.has_any(ArtifactKind::UserDerivative)));
    text.append(", TXT=");
    text.append(bool_str(manifest.has_any(ArtifactKind::PlainText)));
    text.append(", ALTO=");
    text.append(bool_str(manifest.has_any(ArtifactKind::LayoutXml)));
    text.append("\n");
    text
}

fn rule_text() -> (text: String)
    ensures
        text@ == rule(),
{
    let mut text = String::new();
    let mut i: usize = 0;
    while i < 80
        invariant
            i <= 80,
            text@ == Seq::new(i as nat, |k: int| '='),
        decreases 80 - i,
    {
        push_char(&mut text, '=');
        i += 1;
    }
    text
}

fn heading_text(title: &str) -> (text: String)
    ensures
        text@ == section_heading(title@),
{
    let rule = rule_text();
    let mut text = String::from_str("\n");
    text.append(rule.as_str());
    text.append("\n");
    text.append(title);
    text.append("\n");
    text.append(rule.as_str());
    text.append("\n\n");
    text
}

fn log_lines_text(log: &Vec<String>) -> (text: String)
    ensures
        text@ == log_text(lines_of(log@)),
{
    let ghost lines = lines_of(log@);
    let mut text = String::new();
    let mut i: usize = 0;
    while i < log.len()
        invariant
            i <= log.len(),
            lines == lines_of(log@),
            text@ == log_text(lines.take(i as int)),
        decreases log.len() - i,
    {
        text.append(log[i].as_str());
        text.append("\n");
        proof {
            let next = lines.take(i + 1);
            assert(next.drop_last() =~= lines.take(i as int));
        }
        i += 1;
    }
    assert(lines.take(log.len() as int) =~= lines);
    text
}

fn listing_line_text(name: &str, info: &Option<FileInfo>) -> (text: String)
    ensures
        text@ == listing_line(name@, *info),
{
    match info {
        Some(f) => {
            let mut text = String::from_str("  ");
            text.append(name);
            text.append(": ");
            text.append(f.path.as_str());
            text.append(" = ");
            text.append(f.blake3.as_str());
            text.append("\n");
            text
        },
        None => String::new(),
    }
}

fn page_listing_text(page: &PageEntry) -> (text: String)
    ensures
        text@ == page_listing(*page),
{
    let mut text = String::from_str("[Page ");
    text.append(page.index.as_str());
    text.append("]\n");
    text.append("  Original TIFF: ");
    text.append(page.original_tiff.path.as_str());
    text.append("\n");
    text.append(listing_line_text("AC JP2", &page.ac_jp2).as_str());
    text.append(listing_line_text("UC JP2", &page.uc_jp2).as_str());
    text.append(listing_line_text("TXT", &page.txt).as_str());
    text.append(listing_line_text("ALTO", &page.alto).as_str());
    text.append("\n");
    text
}

fn listing_text(pages: &Vec<PageEntry>) -> (text: String)
    ensures
        text@ == listing_of(pages@),
{
    let mut text = String::new();
    let mut i: usize = 0;
    while i < pages.len()
        invariant
            i <= pages.len(),
            text@ == listing_of(pages@.take(i as int)),
        decreases pages.len() - i,
    {
        text.append(page_listing_text(&pages[i]).as_str());
        proof {
            let next = pages@.take(i + 1);
            assert(next.drop_last() =~= pages@.take(i as int));
        }
        i += 1;
    }
    assert(pages@.take(pages.len() as int) =~= pages@);
    text
}

/// Renders the ledger of a run: the head with the run's settings, the action
/// log `log` in full and in order, and the listing of every page with the
/// path and digest of each recorded artifact.
pub fn ledger_text(manifest: &BatchManifest, log: &Vec<String>) -> (text: String)
    ensures
        text@ == ledger_of(*manifest, lines_of(log@)),
{
    let mut text = head_text(manifest);
    text.append(heading_text("PROCESS EXECUTION LOG").as_str());
    text.append(log_lines_text(log).as_str());
    text.append(heading_text("FILE CHECKSUMS").as_str());
    text.append(listing_text(&manifest.pages).as_str());
    text
}

impl PageFiles {
    /// What was found for `kind`.
    pub open spec fn artifact(self, kind: ArtifactKind) -> Option<FileInfo> {
        match kind {
            ArtifactKind::MasterDerivative => self.master,
            ArtifactKind::UserDerivative => self.user,
            ArtifactKind::PlainText => self.text,
            ArtifactKind::LayoutXml => self.layout,
        }
    }
}

/// A manifest has one entry for every page found, none dropped and none
/// shifted: the entry of page `i` carries the label of its own sequence
/// number and the record of its source image, and for every kind exactly the
/// record that was found, where the kind is enabled. An artifact that was not
/// produced is absent from its page and changes nothing about the pages
/// after it.
pub proof fn lemma_manifest_records_what_was_found(
    pages: Seq<PageEntry>,
    found: Seq<PageFiles>,
    index_start: nat,
    digits: nat,
    config: ArtifactConfig,
    i: int,
    kind: ArtifactKind,
)
    requires
        pages_match(pages, found, index_start, digits, config),
        0 <= i < found.len(),
    ensures
        pages.len() == found.len(),
        pages[i].index@ == page_label((index_start + i) as nat, digits),
        pages[i].original_tiff == found[i].original,
        config.enabled(kind) ==> pages[i].artifact(kind) == found[i].artifact(kind),
        !config.enabled(kind) ==> pages[i].artifact(kind) is None,
        found[i].artifact(kind) is None ==> pages[i].artifact(kind) is None,
{
    assert(entry_matches(pages[i], found[i], (index_start + i) as nat, digits, config));
}

} // verus!
