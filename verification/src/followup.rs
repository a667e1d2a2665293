//! What follows the run of a batch that succeeded: the bounded wait for its
//! files to appear, and the steps that record and present the result.

use vstd::prelude::*;
use crate::artifact::{ArtifactConfig, ArtifactKind};
use crate::job::{check_page_complete, page_complete, BatchJob};
use crate::text::{concat2, concat3, decimal, decimal_of, lines_of, push_line, push_text};

verus! {

/// How often the files of a batch are looked for before the wait is given up.
pub const WAIT_ATTEMPTS: u32 = 5;

/// The pause between two looks, in milliseconds.
pub const WAIT_DELAY_MS: u64 = 500;

/// The pause after a successful run before the first look, in milliseconds.
pub const SETTLE_DELAY_MS: u64 = 1000;

/// What to do after one look for the files.
#[derive(Clone, Copy, Debug, PartialEq, Eq, Structural)]
pub enum WaitStep {
    /// All files are there.
    Ready,
    /// Pause, then look again.
    Retry,
    /// Files are still missing after the last look; go on without them.
    GiveUp,
}

/// Whether every page of the batch has a file of every enabled kind.
pub open spec fn outputs_present(
    job: BatchJob,
    files: Seq<String>,
    config: ArtifactConfig,
    digits: nat,
) -> bool {
    forall|i: int|
        0 <= i < job.file_count ==> page_complete(
            files,
            #[trigger] job.page_number(i),
            digits,
            config,
        )
}

/// The step taken after look number `attempt`.
pub open spec fn wait_step(attempt: u32, present: bool) -> WaitStep {
    if present {
        WaitStep::Ready
    } else if attempt < WAIT_ATTEMPTS {
        WaitStep::Retry
    } else {
        WaitStep::GiveUp
    }
}

/// What the log says after look number `attempt`.
pub open spec fn wait_line(attempt: u32, present: bool) -> Seq<char> {
    match wait_step(attempt, present) {
        WaitStep::Ready => "Všechny výstupní soubory připraveny (pokus "@ + decimal(attempt as nat)
            + "/"@ + decimal(WAIT_ATTEMPTS as nat) + ")"@,
        WaitStep::Retry => "Čekám na výstupní soubory... (pokus "@ + decimal(attempt as nat) + "/"@
            + decimal(WAIT_ATTEMPTS as nat) + ")"@,
        WaitStep::GiveUp => "Varování: Některé výstupní soubory nebyly vytvořeny včas"@,
    }
}

/// Whether a run is followed by a wait at all: wherever any kind is enabled,
/// so that there are files to wait for.
pub fn needs_wait(config: &ArtifactConfig) -> (needed: bool)
    ensures
        needed == exists|kind: ArtifactKind| config.enabled(kind),
{
    config.required_count() > 0
}

fn attempt_text(prefix: &str, attempt: u32) -> (line: String)
    ensures
        line@ == prefix@ + decimal(attempt as nat) + "/"@ + decimal(WAIT_ATTEMPTS as nat) + ")"@,
{
    let mut line = String::from_str(prefix);
    line.append(decimal_of(attempt as u64).as_str());
    line.append("/");
    line.append(decimal_of(WAIT_ATTEMPTS as u64).as_str());
    line.append(")");
    line
}

/// Takes look number `attempt` at the files found in the output directory of
/// a batch and says how the wait goes on. With a file of every enabled kind
/// there for every page, the wait is over. Else there is another look, as long
/// as fewer than `WAIT_ATTEMPTS` were taken; after the last one the wait is
/// given up with a warning, which does not fail the batch. Counting looks
/// from 1, the wait ends after `WAIT_ATTEMPTS` looks at the latest.
pub fn wait_for_jp2_files(
    attempt: u32,
    job: &BatchJob,
    files: &Vec<String>,
    config: &ArtifactConfig,
    digits: usize,
    logs: &mut Vec<String>,
) -> (step: WaitStep)
    requires
        job.wf(),
    ensures
        step == wait_step(attempt, outputs_present(*job, files@, *config, digits as nat)),
        step is Retry ==> attempt < WAIT_ATTEMPTS,
        lines_of(final(logs)@) == lines_of(old(logs)@).push(
            wait_line(attempt, outputs_present(*job, files@, *config, digits as nat)),
        ),
{
    let mut present = true;
    let mut i: usize = 0;
    while present && i < job.file_count
        invariant
            i <= job.file_count,
            job.wf(),
            present ==> forall|j: int|
                0 <= j < i ==> page_complete(
                    files@,
                    #[trigger] job.page_number(j),
                    digits as nat,
                    *config,
                ),
            !present ==> !outputs_present(*job, files@, *config, digits as nat),
        decreases job.file_count - i,
    {
        let seq_no: u32 = job.index_start + i as u32;
        assert(seq_no as nat == job.page_number(i as int));
        if !check_page_complete(files, seq_no, digits, config) {
            present = false;
        }
        i += 1;
    }
    if present {
        push_line(logs, attempt_text("Všechny výstupní soubory připraveny (pokus ", attempt));
        WaitStep::Ready
    } else if attempt < WAIT_ATTEMPTS {
        push_line(logs, attempt_text("Čekám na výstupní soubory... (pokus ", attempt));
        WaitStep::Retry
    } else {
        push_text(logs, "Varování: Některé výstupní soubory nebyly vytvořeny včas");
        WaitStep::GiveUp
    }
}

/// A step that follows a successful run.
#[derive(Clone, Copy, Debug, PartialEq, Eq, Structural)]
pub enum FollowUp {
    BuildManifest,
    WriteLedger,
    MakePreviews,
    WriteReport,
    Finished,
}

/// The step that comes after `step` has ended. Without a manifest nothing
/// more is done. Once there is one, the ledger, the previews and the report
/// each get their turn whatever came of the steps before; previews are made
/// only where the manifest records an image derivative.
pub open spec fn next_follow_up(step: FollowUp, ok: bool, has_derivatives: bool) -> FollowUp {
    match step {
        FollowUp::BuildManifest => if ok {
            FollowUp::WriteLedger
        } else {
            FollowUp::Finished
        },
        FollowUp::WriteLedger => if has_derivatives {
            FollowUp::MakePreviews
        } else {
            FollowUp::WriteReport
        },
        FollowUp::MakePreviews => FollowUp::WriteReport,
        FollowUp::WriteReport => FollowUp::Finished,
        FollowUp::Finished => FollowUp::Finished,
    }
}

/// What the log says when `step` has ended with `result`.
pub open spec fn follow_up_lines(
    step: FollowUp,
    result: Result<(), String>,
    has_derivatives: bool,
    logs_dir: Seq<char>,
    report_path: Seq<char>,
) -> Seq<Seq<char>> {
    match step {
        FollowUp::BuildManifest => match result {
            Ok(_) => Seq::<Seq<char>>::empty(),
            Err(e) => seq!["Chyba při generování manifestu: "@ + e@],
        },
        FollowUp::WriteLedger => seq![
            match result {
                Ok(_) => "Manifest a log.txt vytvořeny"@,
                Err(e) => "Chyba při zápisu manifestu/log.txt: "@ + e@,
            },
            if has_derivatives {
                "Generuji WebP náhledy..."@
            } else {
                "Žádné JP2 soubory pro WebP konverzi"@
            },
        ],
        FollowUp::MakePreviews => seq![
            match result {
                Ok(_) => "WEBP náhledy vygenerovány v "@ + logs_dir + " (z TIFF)"@,
                Err(e) => "Chyba při generování WEBP náhledů: "@ + e@,
            },
        ],
        FollowUp::WriteReport => seq![
            match result {
                Ok(_) => "HTML report vytvořen: "@ + report_path,
                Err(e) => "Chyba při tvorbě HTML reportu: "@ + e@,
            },
        ],
        FollowUp::Finished => Seq::<Seq<char>>::empty(),
    }
}

/// Takes the result of the follow-up step `step`, writes it into the log and
/// says which step comes next. `has_derivatives` tells whether the manifest
/// records any image derivative. A failed step is logged; it changes neither
/// the status of the batch, which this function never sees, nor the steps
/// that follow, except that nothing follows a manifest that could not be
/// built.
pub fn follow_up(
    step: FollowUp,
    result: &Result<(), String>,
    has_derivatives: bool,
    logs_dir: &str,
    report_path: &str,
    logs: &mut Vec<String>,
) -> (next: FollowUp)
    ensures
        next == next_follow_up(step, *result is Ok, has_derivatives),
        lines_of(final(logs)@) == lines_of(old(logs)@) + follow_up_lines(
            step,
            *result,
            has_derivatives,
            logs_dir@,
            report_path@,
        ),
{
    match step {
        FollowUp::BuildManifest => match result {
            Ok(_) => FollowUp::WriteLedger,
            Err(e) => {
                push_line(logs, concat2("Chyba při generování manifestu: ", e.as_str()));
                FollowUp::Finished
            },
        },
        FollowUp::WriteLedger => {
            match result {
                Ok(_) => push_text(logs, "Manifest a log.txt vytvořeny"),
                Err(e) => push_line(
                    logs,
                    concat2("Chyba při zápisu manifestu/log.txt: ", e.as_str()),
                ),
            }
            if has_derivatives {
                push_text(logs, "Generuji WebP náhledy...");
                FollowUp::MakePreviews
            } else {
                push_text(logs, "Žádné JP2 soubory pro WebP konverzi");
                FollowUp::WriteReport
            }
        },
        FollowUp::MakePreviews => {
            match result {
                Ok(_) => push_line(
                    logs,
                    concat3("WEBP náhledy vygenerovány v ", logs_dir, " (z TIFF)"),
                ),
                Err(e) => push_line(
                    logs,
                    concat2("Chyba při generování WEBP náhledů: ", e.as_str()),
                ),
            }
            FollowUp::WriteReport
        },
        FollowUp::WriteReport => {
            match result {
                Ok(_) => push_line(logs, concat2("HTML report vytvořen: ", report_path)),
                Err(e) => push_line(logs, concat2("Chyba při tvorbě HTML reportu: ", e.as_str())),
            }
            FollowUp::Finished
        },
        FollowUp::Finished => FollowUp::Finished,
    }
}

/// The wait is bounded: whatever is found, the look numbered `WAIT_ATTEMPTS`
/// or higher is the last one, and every look before it that does not end
/// the wait leads to a look with a higher number.
pub proof fn lemma_wait_ends(attempt: u32, present: bool)
    ensures
        attempt >= WAIT_ATTEMPTS ==> !(wait_step(attempt, present) is Retry),
        wait_step(attempt, present) is Retry ==> attempt + 1 <= WAIT_ATTEMPTS,
        present ==> wait_step(attempt, present) is Ready,
{
}

} // verus!
