//! Batch jobs and their status, and the reconciliation of that status with
//! what is found in the output directory.

use vstd::prelude::*;
use crate::artifact::{artifact_file_name, artifact_name, ArtifactConfig, ArtifactKind};
use crate::text::{concat2, decimal, decimal_of, lines_of, push_line};

verus! {

/// Where a batch stands in its life.
#[derive(Clone, Debug, PartialEq, Eq)]
pub enum JobStatus {
    Pending,
    Processing,
    Done,
    /// Carries the message of the first failure of the run.
    Failed(String),
    /// Derived from the output found on disk, never stored.
    AlreadyDone,
}

/// One directory of page images, processed as a unit.
#[derive(Clone, Debug, PartialEq, Eq)]
pub struct BatchJob {
    /// The directory, as the operator sees it.
    pub dir: String,
    /// The last component of the directory, empty where it has none.
    pub name: String,
    /// Whether the directory is the input root itself.
    pub is_root: bool,
    /// Sequence number of the first page.
    pub index_start: u32,
    /// Number of pages.
    pub file_count: usize,
    pub status: JobStatus,
}

impl BatchJob {
    /// The sequence number of every page of the batch fits its type.
    pub open spec fn wf(&self) -> bool {
        self.index_start + self.file_count <= u32::MAX + 1
    }

    /// The sequence number of page `i` of the batch.
    pub open spec fn page_number(&self, i: int) -> nat {
        (self.index_start + i) as nat
    }
}

/// What was found of a batch's output: whether its directory is there, and
/// the names of the files in it.
#[derive(Clone, Debug, PartialEq, Eq)]
pub struct OutputEvidence {
    pub dir_exists: bool,
    pub files: Vec<String>,
}

/// Whether a file called `name` is among `files`.
pub open spec fn has_file(files: Seq<String>, name: Seq<char>) -> bool {
    exists|i: int| 0 <= i < files.len() && (#[trigger] files[i])@ == name
}

/// Whether every enabled kind has its file for the page numbered `seq_no`.
pub open spec fn page_complete(
    files: Seq<String>,
    seq_no: nat,
    digits: nat,
    config: ArtifactConfig,
) -> bool {
    forall|kind: ArtifactKind| #[trigger]
        config.enabled(kind) ==> has_file(files, artifact_name(seq_no, digits, kind))
}

/// Whether a batch's output is complete: its directory exists and every page
/// has a file of every enabled kind.
pub open spec fn batch_complete(
    job: BatchJob,
    evidence: OutputEvidence,
    config: ArtifactConfig,
    digits: nat,
) -> bool {
    &&& evidence.dir_exists
    &&& forall|i: int|
        0 <= i < job.file_count ==> page_complete(
            evidence.files@,
            #[trigger] job.page_number(i),
            digits,
            config,
        )
}

/// The status that reconciliation gives a job, from the status it had and
/// from whether its output is complete. A job that is `Done` stays `Done`.
/// Every other job is `AlreadyDone` where its output is complete and
/// `Pending` where anything is missing.
pub open spec fn reconciled(status: JobStatus, complete: bool) -> JobStatus {
    if status is Done {
        status
    } else if complete {
        JobStatus::AlreadyDone
    } else {
        JobStatus::Pending
    }
}

/// Looks `name` up among `files`.
pub fn contains_name(files: &Vec<String>, name: &String) -> (found: bool)
    ensures
        found == has_file(files@, name@),
{
    let mut i: usize = 0;
    while i < files.len()
        invariant
            i <= files.len(),
            forall|j: int| 0 <= j < i ==> (#[trigger] files@[j])@ != name@,
        decreases files.len() - i,
    {
        if files[i] == *name {
            return true;
        }
        i += 1;
    }
    false
}

fn kind_satisfied(
    files: &Vec<String>,
    seq_no: u32,
    digits: usize,
    config: &ArtifactConfig,
    kind: ArtifactKind,
) -> (ok: bool)
    ensures
        ok == (config.enabled(kind) ==> has_file(
            files@,
            artifact_name(seq_no as nat, digits as nat, kind),
        )),
{
    if config.is_enabled(kind) {
        let name = artifact_file_name(seq_no, digits, kind);
        contains_name(files, &name)
    } else {
        true
    }
}

/// Decides whether every enabled kind has its file for page `seq_no`.
pub fn check_page_complete(
    files: &Vec<String>,
    seq_no: u32,
    digits: usize,
    config: &ArtifactConfig,
) -> (complete: bool)
    ensures
        complete == page_complete(files@, seq_no as nat, digits as nat, *config),
{
    kind_satisfied(files, seq_no, digits, config, ArtifactKind::MasterDerivative)
        && kind_satisfied(files, seq_no, digits, config, ArtifactKind::UserDerivative)
        && kind_satisfied(files, seq_no, digits, config, ArtifactKind::PlainText)
        && kind_satisfied(files, seq_no, digits, config, ArtifactKind::LayoutXml)
}

/// Decides whether a batch has already been processed in full: its output
/// directory exists and holds, for every page, a file of every enabled kind.
/// Only the presence of the files counts, not what is in them.
pub fn check_batch_already_done(
    batch: &BatchJob,
    evidence: &OutputEvidence,
    config: &ArtifactConfig,
    digits: usize,
) -> (done: bool)
    requires
        batch.wf(),
    ensures
        done == batch_complete(*batch, *evidence, *config, digits as nat),
{
    if !evidence.dir_exists {
        return false;
    }
    if config.required_count() == 0 {
        return true;
    }
    let mut i: usize = 0;
    while i < batch.file_count
        invariant
            i <= batch.file_count,
            batch.wf(),
            forall|j: int|
                0 <= j < i ==> page_complete(
                    evidence.files@,
                    #[trigger] batch.page_number(j),
                    digits as nat,
                    *config,
                ),
        decreases batch.file_count - i,
    {
        let seq_no: u32 = batch.index_start + i as u32;
        assert(seq_no as nat == batch.page_number(i as int));
        if !check_page_complete(&evidence.files, seq_no, digits, config) {
            return false;
        }
        i += 1;
    }
    true
}

/// Whether the output of job `i` is complete, as far as `evidence` shows. A
/// job for which no evidence was gathered counts as incomplete.
pub open spec fn complete_at(
    jobs: Seq<BatchJob>,
    evidence: Seq<OutputEvidence>,
    config: ArtifactConfig,
    digits: nat,
    i: int,
) -> bool {
    i < evidence.len() && batch_complete(jobs[i], evidence[i], config, digits)
}

/// Brings the status of every job in line with the output found on disk.
/// `evidence[i]` is what was found for `jobs[i]`. A job that is `Done` stays
/// `Done`. Every other job becomes `AlreadyDone` where its output is
/// complete, and `Pending` where a file of an enabled kind is missing for any
/// page, or the output directory itself. Nothing but the status changes.
pub fn update_jobs_status_on_start(
    jobs: &mut Vec<BatchJob>,
    evidence: &Vec<OutputEvidence>,
    config: &ArtifactConfig,
    digits: usize,
)
    requires
        forall|i: int| 0 <= i < old(jobs).len() ==> (#[trigger] old(jobs)[i]).wf(),
    ensures
        final(jobs).len() == old(jobs).len(),
        forall|i: int|
            0 <= i < old(jobs).len() ==> (#[trigger] final(jobs)[i]) == (BatchJob {
                status: reconciled(
                    old(jobs)[i].status,
                    complete_at(old(jobs)@, evidence@, *config, digits as nat, i),
                ),
                ..old(jobs)[i]
            }),
{
    let mut i: usize = 0;
    while i < jobs.len()
        invariant
            i <= jobs.len(),
            jobs.len() == old(jobs).len(),
            forall|j: int| i <= j < jobs.len() ==> (#[trigger] jobs[j]) == old(jobs)[j],
            forall|j: int| 0 <= j < old(jobs).len() ==> (#[trigger] old(jobs)[j]).wf(),
            forall|j: int|
                0 <= j < i ==> (#[trigger] jobs[j]) == (BatchJob {
                    status: reconciled(
                        old(jobs)[j].status,
                        complete_at(old(jobs)@, evidence@, *config, digits as nat, j),
                    ),
                    ..old(jobs)[j]
                }),
        decreases jobs.len() - i,
    {
        let complete = i < evidence.len() && check_batch_already_done(
            &jobs[i],
            &evidence[i],
            config,
            digits,
        );
        if !is_done(&jobs[i].status) {
            if complete {
                jobs[i].status = JobStatus::AlreadyDone;
            } else {
                jobs[i].status = JobStatus::Pending;
            }
        }
        i += 1;
    }
}

/// Whether a status is `Done`.
pub fn is_done(status: &JobStatus) -> (yes: bool)
    ensures
        yes == (*status is Done),
{
    match status {
        JobStatus::Done => true,
        _ => false,
    }
}

/// After reconciliation a job is `AlreadyDone` exactly when its output is
/// complete and `Pending` exactly when it is not, except that a job that is
/// `Done` stays `Done` whatever is found.
pub proof fn lemma_already_done_iff_complete(status: JobStatus, complete: bool)
    ensures
        !(status is Done) ==> (reconciled(status, complete) is AlreadyDone <==> complete),
        !(status is Done) ==> (reconciled(status, complete) is Pending <==> !complete),
        status is Done ==> reconciled(status, complete) is Done,
{
}

/// One missing file of an enabled kind, for any page of the batch, makes the
/// batch incomplete; every job but one that is `Done` is then `Pending`
/// after the next reconciliation, whatever its status was.
pub proof fn lemma_missing_file_demotes(
    job: BatchJob,
    evidence: OutputEvidence,
    config: ArtifactConfig,
    digits: nat,
    page: int,
    kind: ArtifactKind,
)
    requires
        0 <= page < job.file_count,
        config.enabled(kind),
        !has_file(evidence.files@, artifact_name(job.page_number(page), digits, kind)),
    ensures
        !batch_complete(job, evidence, config, digits),
        !(job.status is Done) ==> reconciled(
            job.status,
            batch_complete(job, evidence, config, digits),
        ) is Pending,
{
    assert(!page_complete(evidence.files@, job.page_number(page), digits, config));
}

/// A missing output directory makes the batch incomplete, with the same
/// consequence.
pub proof fn lemma_missing_directory_demotes(
    job: BatchJob,
    evidence: OutputEvidence,
    config: ArtifactConfig,
    digits: nat,
)
    requires
        !evidence.dir_exists,
    ensures
        !batch_complete(job, evidence, config, digits),
        !(job.status is Done) ==> reconciled(
            job.status,
            batch_complete(job, evidence, config, digits),
        ) is Pending,
{
}

/// Completeness looks at the enabled kinds only: output that is complete
/// for one configuration is complete for every configuration that enables
/// no more than that one, whatever else lies in the directory.
pub proof fn lemma_fewer_kinds_still_complete(
    job: BatchJob,
    evidence: OutputEvidence,
    config: ArtifactConfig,
    narrower: ArtifactConfig,
    digits: nat,
)
    requires
        batch_complete(job, evidence, config, digits),
        forall|kind: ArtifactKind| narrower.enabled(kind) ==> config.enabled(kind),
    ensures
        batch_complete(job, evidence, narrower, digits),
{
}

/// Where the output of a batch goes, relative to the output root.
#[derive(Clone, Debug, PartialEq, Eq)]
pub enum OutputDir {
    /// Into the output root itself.
    Root,
    /// Into the directory of this name inside the output root.
    Named(String),
}

/// Whether two output places are the same.
pub open spec fn same_place(a: OutputDir, b: Option<Seq<char>>) -> bool {
    match a {
        OutputDir::Root => b is None,
        OutputDir::Named(name) => b == Some(name@),
    }
}

/// The name of the directory under the output root that takes a batch's
/// output, or nothing where the output goes into the root itself: that is so
/// for the batch that is the input root, and for a batch without a name.
pub open spec fn output_subdir(job: BatchJob) -> Option<Seq<char>> {
    if job.is_root || job.name@.len() == 0 {
        None
    } else {
        Some(job.name@)
    }
}

/// Says where the output of a batch goes.
pub fn batch_output_dir(job: &BatchJob) -> (place: OutputDir)
    ensures
        same_place(place, output_subdir(*job)),
{
    if job.is_root || job.name.as_str().unicode_len() == 0 {
        OutputDir::Root
    } else {
        OutputDir::Named(job.name.clone())
    }
}

/// The name under which a batch is shown.
pub open spec fn display_name(job: BatchJob) -> Seq<char> {
    if job.name@.len() == 0 {
        "<root>"@
    } else {
        job.name@
    }
}

/// The name of the directory that takes the manifest and the ledger of a
/// batch: the batch's name, or `root` where it has none, followed by `_logs`.
pub open spec fn audit_dir_name(job: BatchJob) -> Seq<char> {
    (if job.name@.len() == 0 {
        "root"@
    } else {
        job.name@
    }) + "_logs"@
}

/// The name a batch carries in its manifest: its own, or `root` where it has
/// none.
pub fn batch_label(job: &BatchJob) -> (label: String)
    ensures
        label@ == (if job.name@.len() == 0 { "root"@ } else { job.name@ }),
{
    if job.name.as_str().unicode_len() == 0 {
        String::from_str("root")
    } else {
        job.name.clone()
    }
}

/// The name of the audit directory of a batch.
pub fn logs_dir_name(job: &BatchJob) -> (name: String)
    ensures
        name@ == audit_dir_name(*job),
{
    let mut name = batch_label(job);
    name.append("_logs");
    name
}

/// The lines that open the log of a job's run.
pub open spec fn intro_lines(
    job: BatchJob,
    layout_version: Seq<char>,
    tess_program: Seq<char>,
    tess_source: Seq<char>,
    tessdata_shown: Seq<char>,
) -> Seq<Seq<char>> {
    seq![
        "=== Dávka "@ + display_name(job) + " ("@ + job.dir@ + "), start index "@ + decimal(
            job.index_start as nat,
        ) + ", ALTO v"@ + layout_version + " ==="@,
        "Tesseract: "@ + tess_program + " ("@ + tess_source + ")"@,
        "Tessdata dir: "@ + tessdata_shown,
    ]
}

/// Opens the log of a job's run: the batch with its first sequence number
/// and the layout version, the OCR engine and where it was found, and the
/// language data as given.
pub fn announce_job(
    job: &BatchJob,
    layout_version: &str,
    tess_program: &str,
    tess_source: &str,
    tessdata_shown: &str,
    logs: &mut Vec<String>,
)
    ensures
        lines_of(final(logs)@) == lines_of(old(logs)@) + intro_lines(
            *job,
            layout_version@,
            tess_program@,
            tess_source@,
            tessdata_shown@,
        ),
{
    let mut first = String::from_str("=== Dávka ");
    if job.name.as_str().unicode_len() == 0 {
        first.append("<root>");
    } else {
        first.append(job.name.as_str());
    }
    first.append(" (");
    first.append(job.dir.as_str());
    first.append("), start index ");
    first.append(decimal_of(job.index_start as u64).as_str());
    first.append(", ALTO v");
    first.append(layout_version);
    first.append(" ===");
    push_line(logs, first);
    let mut second = String::from_str("Tesseract: ");
    second.append(tess_program);
    second.append(" (");
    second.append(tess_source);
    second.append(")");
    push_line(logs, second);
    push_line(logs, concat2("Tessdata dir: ", tessdata_shown));
}

} // verus!
