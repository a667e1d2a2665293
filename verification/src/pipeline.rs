//! The run of one batch through its stages: which tool call comes next,
//! what each outcome adds to the log, and how the run ends.

use vstd::prelude::*;
use crate::artifact::{
    artifact_file_name, artifact_name, index_label, page_label, ArtifactConfig, ArtifactKind,
};
use crate::text::{concat3, lines_of, push_line, push_text};
use crate::tools::{
    grok_lines, grok_report, ocr_lines, ocr_ok, tesseract_report, OcrFiles, OcrRequest, Profile,
    Tessdata, ToolOutcome,
};

verus! {

/// One step in the processing of a page.
#[derive(Clone, Copy, Debug, PartialEq, Eq, Structural)]
pub enum Stage {
    /// Encoding of the master derivative.
    Master,
    /// Encoding of the user derivative.
    User,
    /// One OCR run for text and layout together.
    Ocr,
}

/// The stages every page of a run goes through, in order.
pub open spec fn page_stages(config: ArtifactConfig) -> Seq<Stage> {
    (if config.master {
        seq![Stage::Master]
    } else {
        Seq::<Stage>::empty()
    }) + (if config.user {
        seq![Stage::User]
    } else {
        Seq::<Stage>::empty()
    }) + (if config.text || config.layout {
        seq![Stage::Ocr]
    } else {
        Seq::<Stage>::empty()
    })
}

/// The name of a stage in the log.
pub open spec fn stage_name(stage: Stage) -> Seq<char> {
    match stage {
        Stage::Master => "Master"@,
        Stage::User => "User"@,
        Stage::Ocr => "OCR"@,
    }
}

/// The message by which the failure of a stage on one source is known. The
/// first such message of a run becomes the reason of the failed batch.
pub open spec fn failure_context(stage: Stage, source: Seq<char>) -> Seq<char> {
    (match stage {
        Stage::Master => "Master JP2 selhalo pro `"@,
        Stage::User => "User JP2 selhalo pro `"@,
        Stage::Ocr => "Tesseract selhalo pro `"@,
    }) + source + "`"@
}

/// The line that opens a page in the log.
pub open spec fn page_header(source: Seq<char>, label: Seq<char>) -> Seq<char> {
    "--- Soubor "@ + source + " (index "@ + label + ") ---"@
}

/// The run of one batch. The pages are visited in order, and each goes
/// through every stage of the run, whatever came of the calls before.
#[derive(Debug)]
pub struct BatchRun {
    /// The source image of each page, in page order.
    pub sources: Vec<String>,
    /// Sequence number of the first page.
    pub index_start: u32,
    /// Width of page labels.
    pub digits: usize,
    pub do_master: bool,
    pub do_user: bool,
    /// Whether tools are only named, not started.
    pub dry_run: bool,
    /// The OCR engine, as it is named in the log.
    pub tess_program: String,
    pub ocr: OcrRequest,
    /// Position of the page whose call comes next.
    pub page: usize,
    /// Position of that call among the stages of the page.
    pub stage_pos: usize,
    /// The message of the first failed call, once there is one.
    pub first_error: Option<String>,
}

/// A tool call that is due.
#[derive(Clone, Debug, PartialEq, Eq)]
pub struct ToolCall {
    /// Position of the page in the batch.
    pub page: usize,
    pub stage: Stage,
    /// The source image.
    pub source: String,
    /// The label of the page.
    pub label: String,
    /// The name of the file to write, or for OCR the common start of the
    /// names of its outputs; to be taken inside the batch's output directory.
    pub dest_name: String,
    /// Whether the tool is to be started at all.
    pub spawn: bool,
}

impl BatchRun {
    /// The kinds this run produces.
    pub open spec fn config(&self) -> ArtifactConfig {
        ArtifactConfig {
            master: self.do_master,
            user: self.do_user,
            text: self.ocr.want_text,
            layout: self.ocr.want_layout,
        }
    }

    /// The stages of each page.
    pub open spec fn stages(&self) -> Seq<Stage> {
        page_stages(self.config())
    }

    /// The run is in a state that its own steps can reach.
    pub open spec fn wf(&self) -> bool {
        &&& self.index_start + self.sources.len() <= u32::MAX + 1
        &&& self.page <= self.sources.len()
        &&& self.page < self.sources.len() ==> self.stage_pos < self.stages().len()
        &&& self.page == self.sources.len() ==> self.stage_pos == 0
        &&& self.stages().len() == 0 ==> self.page == self.sources.len()
    }

    /// No call is left to make.
    pub open spec fn finished(&self) -> bool {
        self.page == self.sources.len()
    }

    /// The number of calls completed so far.
    pub open spec fn calls_done(&self) -> nat {
        (self.page * self.stages().len() + self.stage_pos) as nat
    }

    /// The number of calls the whole run consists of: one for each page and
    /// stage.
    pub open spec fn calls_total(&self) -> nat {
        (self.sources.len() * self.stages().len()) as nat
    }

    /// The sequence number of the page whose call comes next.
    pub open spec fn seq_no(&self) -> nat {
        (self.index_start + self.page) as nat
    }

    /// The stage of the call that comes next.
    pub open spec fn stage(&self) -> Stage {
        self.stages()[self.stage_pos as int]
    }

    /// The text of the source of the page whose call comes next.
    pub open spec fn source(&self) -> Seq<char> {
        self.sources[self.page as int]@
    }
}

/// The name handed out with a call: the artifact's file name for an encoder
/// stage, and for OCR the page label followed by `.ocr`.
pub open spec fn dest_name(stage: Stage, seq_no: nat, digits: nat) -> Seq<char> {
    match stage {
        Stage::Master => artifact_name(seq_no, digits, ArtifactKind::MasterDerivative),
        Stage::User => artifact_name(seq_no, digits, ArtifactKind::UserDerivative),
        Stage::Ocr => page_label(seq_no, digits) + ".ocr"@,
    }
}

/// What `process_batch` writes into the log when there is nothing to do.
pub open spec fn skip_lines(page_count: nat, config: ArtifactConfig) -> Seq<Seq<char>> {
    if page_count == 0 {
        seq!["Dávka neobsahuje žádné TIFF soubory – přeskočeno."@]
    } else if page_stages(config).len() == 0 {
        seq!["Nic není zapnuto (AC/UC/TXT/ALTO) – dávka přeskočena."@]
    } else {
        Seq::<Seq<char>>::empty()
    }
}

/// Begins the run of one batch over the page images `sources`. A batch
/// without pages, or a run with every kind switched off, is noted in the log
/// as skipped and is finished at once, with success. Otherwise the run stands
/// before the first stage of the first page.
pub fn process_batch(
    sources: Vec<String>,
    index_start: u32,
    digits: usize,
    config: &ArtifactConfig,
    dry_run: bool,
    tess_program: String,
    lang: String,
    layout_version: String,
    tessdata: Tessdata,
    logs: &mut Vec<String>,
) -> (run: BatchRun)
    requires
        index_start + sources.len() <= u32::MAX + 1,
    ensures
        run.wf(),
        run.sources == sources,
        run.index_start == index_start,
        run.digits == digits,
        run.config() == *config,
        run.dry_run == dry_run,
        run.tess_program == tess_program,
        run.ocr.lang == lang,
        run.ocr.layout_version == layout_version,
        run.ocr.tessdata == tessdata,
        run.first_error is None,
        run.calls_done() == (if run.finished() { run.calls_total() } else { 0 }),
        run.finished() <==> sources.len() == 0 || page_stages(*config).len() == 0,
        lines_of(final(logs)@) == lines_of(old(logs)@) + skip_lines(sources.len() as nat, *config),
{
    let nothing_wanted = !(config.master || config.user || config.text || config.layout);
    let page: usize = if nothing_wanted {
        sources.len()
    } else {
        0
    };
    if sources.len() == 0 {
        push_text(logs, "Dávka neobsahuje žádné TIFF soubory – přeskočeno.");
    } else if nothing_wanted {
        push_text(logs, "Nic není zapnuto (AC/UC/TXT/ALTO) – dávka přeskočena.");
    }
    BatchRun {
        sources,
        index_start,
        digits,
        do_master: config.master,
        do_user: config.user,
        dry_run,
        tess_program,
        ocr: OcrRequest {
            lang,
            layout_version,
            want_text: config.text,
            want_layout: config.layout,
            tessdata,
        },
        page,
        stage_pos: 0,
        first_error: None,
    }
}

impl BatchRun {
    fn stage_list(&self) -> (stages: Vec<Stage>)
        ensures
            stages@ == self.stages(),
    {
        let mut stages: Vec<Stage> = Vec::new();
        if self.do_master {
            stages.push(Stage::Master);
        }
        if self.do_user {
            stages.push(Stage::User);
        }
        if self.ocr.want_text || self.ocr.want_layout {
            stages.push(Stage::Ocr);
        }
        stages
    }

    /// Whether no call is left to make.
    pub fn is_finished(&self) -> (done: bool)
        ensures
            done == self.finished(),
    {
        self.page == self.sources.len()
    }

    /// The call that is due, or nothing once the run is finished.
    pub fn next_call(&self) -> (call: Option<ToolCall>)
        requires
            self.wf(),
        ensures
            call is None <==> self.finished(),
            call matches Some(c) ==> {
                &&& c.page == self.page
                &&& c.stage == self.stage()
                &&& c.source@ == self.source()
                &&& c.label@ == page_label(self.seq_no(), self.digits as nat)
                &&& c.dest_name@ == dest_name(self.stage(), self.seq_no(), self.digits as nat)
                &&& c.spawn == !self.dry_run
            },
    {
        if self.page == self.sources.len() {
            return None;
        }
        let stages = self.stage_list();
        let stage = stages[self.stage_pos];
        let seq_no: u32 = self.index_start + self.page as u32;
        let dest_name = match stage {
            Stage::Master => artifact_file_name(seq_no, self.digits, ArtifactKind::MasterDerivative),
            Stage::User => artifact_file_name(seq_no, self.digits, ArtifactKind::UserDerivative),
            Stage::Ocr => {
                let mut stem = index_label(seq_no, self.digits);
                stem.append(".ocr");
                stem
            },
        };
        Some(
            ToolCall {
                page: self.page,
                stage,
                source: self.sources[self.page].clone(),
                label: index_label(seq_no, self.digits),
                dest_name,
                spawn: !self.dry_run,
            },
        )
    }

    /// Whether the call that is due succeeds with `outcome`.
    pub open spec fn call_ok(&self, outcome: ToolOutcome) -> bool {
        match self.stage() {
            Stage::Ocr => ocr_ok(self.ocr, outcome),
            _ => outcome.ok(),
        }
    }

    /// What the call that is due adds to the log when it ends with `outcome`:
    /// the page header where the call opens a page, the lines of the tool,
    /// and, where the call failed, the line that reports the failure.
    pub open spec fn call_lines(
        &self,
        command: Seq<char>,
        outcome: ToolOutcome,
        files: OcrFiles,
    ) -> Seq<Seq<char>> {
        (if self.stage_pos == 0 {
            seq![page_header(self.source(), page_label(self.seq_no(), self.digits as nat))]
        } else {
            Seq::<Seq<char>>::empty()
        }) + (match self.stage() {
            Stage::Ocr => ocr_lines(self.tess_program@, self.ocr, command, outcome, files),
            _ => grok_lines(command, outcome),
        }) + (if self.call_ok(outcome) {
            Seq::<Seq<char>>::empty()
        } else {
            seq![
                "Chyba "@ + stage_name(self.stage()) + ": "@ + failure_context(
                    self.stage(),
                    self.source(),
                ),
            ]
        })
    }

    /// The run as it stands after the call that is due has ended with
    /// `outcome`: one call further, and holding the first failure.
    pub open spec fn after_call(&self, outcome: ToolOutcome, first_error: Option<String>) -> bool {
        &&& self.first_error is Some ==> first_error == self.first_error
        &&& self.first_error is None && self.call_ok(outcome) ==> first_error is None
        &&& self.first_error is None && !self.call_ok(outcome) ==> first_error is Some
            && first_error->0@ == failure_context(self.stage(), self.source())
    }

    /// Whether `after` is this run one call further: the call that was due
    /// has ended with `outcome`, the run stands at the next call, holds the
    /// first failure, and is the same run otherwise.
    pub open spec fn steps_to(&self, after: BatchRun, outcome: ToolOutcome) -> bool {
        &&& after.wf()
        &&& after.calls_done() == self.calls_done() + 1
        &&& after.sources == self.sources
        &&& after.index_start == self.index_start
        &&& after.digits == self.digits
        &&& after.do_master == self.do_master
        &&& after.do_user == self.do_user
        &&& after.dry_run == self.dry_run
        &&& after.tess_program == self.tess_program
        &&& after.ocr == self.ocr
        &&& self.after_call(outcome, after.first_error)
    }

    /// Takes the outcome of the call that was due. `command` is the command
    /// as it is to appear in the log; `files` tells which OCR outputs were
    /// found after the call and is read for an OCR call only. The log gets
    /// the lines of the call. A failed call is reported, and the first
    /// failure of the run is kept as its reason; the run goes on to the next
    /// call all the same.
    pub fn complete_call(
        &mut self,
        command: &str,
        outcome: &ToolOutcome,
        files: &OcrFiles,
        logs: &mut Vec<String>,
    )
        requires
            old(self).wf(),
            !old(self).finished(),
        ensures
            old(self).steps_to(*final(self), *outcome),
            lines_of(final(logs)@) == lines_of(old(logs)@) + old(self).call_lines(
                command@,
                *outcome,
                *files,
            ),
    {
        let failure = self.log_call(command, outcome, files, logs);
        let stages = self.stage_list();
        if self.first_error.is_none() {
            self.first_error = failure;
        }
        proof {
            let n = self.stages().len() as int;
            let p = self.page as int;
            assert((p + 1) * n == p * n + n) by (nonlinear_arith);
        }
        if self.stage_pos + 1 < stages.len() {
            self.stage_pos = self.stage_pos + 1;
        } else {
            self.stage_pos = 0;
            self.page = self.page + 1;
        }
    }

    /// Writes the lines of the call that is due into the log and gives the
    /// message of its failure, where it failed.
    fn log_call(
        &self,
        command: &str,
        outcome: &ToolOutcome,
        files: &OcrFiles,
        logs: &mut Vec<String>,
    ) -> (failure: Option<String>)
        requires
            self.wf(),
            !self.finished(),
        ensures
            failure is None <==> self.call_ok(*outcome),
            failure is Some ==> failure->0@ == failure_context(self.stage(), self.source()),
            lines_of(final(logs)@) == lines_of(old(logs)@) + self.call_lines(
                command@,
                *outcome,
                *files,
            ),
    {
        let ghost before = lines_of(logs@);
        let stages = self.stage_list();
        let stage = stages[self.stage_pos];
        let source = self.sources[self.page].as_str();
        if self.stage_pos == 0 {
            let seq_no: u32 = self.index_start + self.page as u32;
            let label = index_label(seq_no, self.digits);
            let mut header = concat3("--- Soubor ", source, " (index ");
            header.append(label.as_str());
            header.append(") ---");
            push_line(logs, header);
        }
        let ghost opened = lines_of(logs@);
        let result = match stage {
            Stage::Master => grok_report(Profile::Master, command, outcome, logs),
            Stage::User => grok_report(Profile::User, command, outcome, logs),
            Stage::Ocr => tesseract_report(
                self.tess_program.as_str(),
                &self.ocr,
                command,
                outcome,
                files,
                logs,
            ),
        };
        let failure = if result.is_err() {
            let context = match stage {
                Stage::Master => concat3("Master JP2 selhalo pro `", source, "`"),
                Stage::User => concat3("User JP2 selhalo pro `", source, "`"),
                Stage::Ocr => concat3("Tesseract selhalo pro `", source, "`"),
            };
            let mut line = String::from_str("Chyba ");
            line.append(
                match stage {
                    Stage::Master => "Master",
                    Stage::User => "User",
                    Stage::Ocr => "OCR",
                },
            );
            line.append(": ");
            line.append(context.as_str());
            push_line(logs, line);
            Some(context)
        } else {
            None
        };
        assert(opened =~= before + (if self.stage_pos == 0 {
            seq![page_header(self.source(), page_label(self.seq_no(), self.digits as nat))]
        } else {
            Seq::<Seq<char>>::empty()
        }));
        assert(lines_of(logs@) =~= before + self.call_lines(command@, *outcome, *files));
        failure
    }

    /// How the run ended: with success where no call failed, and else with
    /// the message of the first failure.
    pub fn outcome(&self) -> (result: Result<(), String>)
        requires
            self.finished(),
        ensures
            result is Ok <==> self.first_error is None,
            result is Err ==> result->Err_0@ == self.first_error->0@,
    {
        match &self.first_error {
            Some(message) => Err(message.clone()),
            None => Ok(()),
        }
    }
}

/// A run makes every one of its calls: it is finished exactly when as many
/// calls are done as there are pages times stages. Since every completed
/// call counts as one, whatever its outcome, a failure on one page never
/// keeps the pages after it from being attempted.
pub proof fn lemma_run_attempts_every_call(run: BatchRun)
    requires
        run.wf(),
    ensures
        run.calls_done() <= run.calls_total(),
        run.finished() <==> run.calls_done() == run.calls_total(),
{
    let n = run.stages().len() as int;
    let p = run.page as int;
    let len = run.sources.len() as int;
    let pos = run.stage_pos as int;
    if p < len {
        assert(p * n + pos < len * n) by (nonlinear_arith)
            requires
                0 <= p < len,
                0 <= pos < n,
        ;
    }
}

/// The reason of a failed run is the first failure and stays it: once a call
/// has failed, no later outcome changes the message, and a run in which no
/// call has failed so far fails with the message of the call at hand.
pub proof fn lemma_first_failure_is_kept(
    run: BatchRun,
    outcome: ToolOutcome,
    first_error: Option<String>,
)
    requires
        run.after_call(outcome, first_error),
    ensures
        run.first_error is Some ==> first_error == run.first_error,
        first_error is None <==> run.first_error is None && run.call_ok(outcome),
{
}

/// The calls of a run come in one fixed order, page by page and within a
/// page stage by stage: a run that has completed as many calls as lie before
/// stage number `pos` of page number `page` stands exactly at that call.
/// Which calls are made, and in what order, does not depend on how any of
/// them ended.
pub proof fn lemma_call_order_is_fixed(run: BatchRun, page: int, pos: int)
    requires
        run.wf(),
        0 <= page < run.sources.len(),
        0 <= pos < run.stages().len(),
        run.calls_done() == page * run.stages().len() + pos,
    ensures
        run.page == page,
        run.stage_pos == pos,
        !run.finished(),
{
    let n = run.stages().len() as int;
    let p = run.page as int;
    let q = run.stage_pos as int;
    assert(p == page && q == pos) by (nonlinear_arith)
        requires
            p * n + q == page * n + pos,
            0 <= q,
            0 <= pos < n,
            0 <= p,
            0 <= page,
            q < n || q == 0,
    ;
}

/// Whether `states` are the states a run goes through while its calls end
/// with `outcomes`, one after the other: it begins fresh, and every call is
/// made while the run is not finished.
pub open spec fn is_run(states: Seq<BatchRun>, outcomes: Seq<ToolOutcome>) -> bool {
    &&& states.len() == outcomes.len() + 1
    &&& states[0].wf()
    &&& states[0].calls_done() == 0
    &&& states[0].first_error is None
    &&& forall|k: int|
        0 <= k < outcomes.len() ==> !(#[trigger] states[k]).finished() && states[k].steps_to(
            states[k + 1],
            outcomes[k],
        )
}

/// Whether call number `k` of a run is the first that failed.
pub open spec fn is_first_failure(states: Seq<BatchRun>, outcomes: Seq<ToolOutcome>, k: int) -> bool {
    &&& 0 <= k < outcomes.len()
    &&& !states[k].call_ok(outcomes[k])
    &&& forall|j: int| 0 <= j < k ==> (#[trigger] states[j]).call_ok(outcomes[j])
}

/// A whole run, whatever its outcomes: the state after `k` calls has `k`
/// calls done, so that by `lemma_call_order_is_fixed` call number `k` is the
/// same call in every run, failures before it or not. The run is over
/// exactly when every page has gone through every stage. It ends with
/// success exactly when no call failed, and else holds the message of the
/// first call that failed.
pub proof fn lemma_whole_run(states: Seq<BatchRun>, outcomes: Seq<ToolOutcome>)
    requires
        is_run(states, outcomes),
    ensures
        forall|k: int|
            0 <= k <= outcomes.len() ==> {
                &&& (#[trigger] states[k]).wf()
                &&& states[k].calls_done() == k
                &&& states[k].sources == states[0].sources
                &&& states[k].index_start == states[0].index_start
                &&& states[k].config() == states[0].config()
            },
        outcomes.len() <= states[0].calls_total(),
        states.last().finished() <==> outcomes.len() == states[0].calls_total(),
        states.last().first_error is None <==> forall|k: int|
            0 <= k < outcomes.len() ==> (#[trigger] states[k]).call_ok(outcomes[k]),
        states.last().first_error is Some ==> exists|k: int|
            #![trigger states[k]]
            is_first_failure(states, outcomes, k) && states.last().first_error->0@
                == failure_context(states[k].stage(), states[k].source()),
    decreases outcomes.len(),
{
    if outcomes.len() == 0 {
        lemma_run_attempts_every_call(states[0]);
    } else {
        let n = outcomes.len() as int;
        let before = states.drop_last();
        let earlier = outcomes.drop_last();
        assert forall|k: int| 0 <= k < earlier.len() implies !(#[trigger] before[k]).finished()
            && before[k].steps_to(before[k + 1], earlier[k]) by {
            assert(before[k] == states[k]);
            assert(before[k + 1] == states[k + 1]);
        }
        lemma_whole_run(before, earlier);
        assert forall|k: int| 0 <= k < n implies before[k] == #[trigger] states[k] by {}
        let last = states[n - 1];
        let end = states[n];
        assert(last == before.last());
        assert(last.steps_to(end, outcomes[n - 1]));
        assert(end.config() == last.config());
        lemma_run_attempts_every_call(end);
        if end.first_error is Some {
            if last.first_error is Some {
                let k = choose|k: int|
                    #![trigger before[k]]
                    is_first_failure(before, earlier, k) && last.first_error->0@
                        == failure_context(before[k].stage(), before[k].source());
                assert(is_first_failure(states, outcomes, k));
                assert(states[k] == before[k]);
            } else {
                assert(is_first_failure(states, outcomes, n - 1));
            }
        }
        if forall|k: int| 0 <= k < outcomes.len() ==> (#[trigger] states[k]).call_ok(outcomes[k]) {
            assert forall|k: int| 0 <= k < earlier.len() implies (#[trigger] before[k]).call_ok(
                earlier[k],
            ) by {
                assert(states[k].call_ok(outcomes[k]));
            }
            assert(states[n - 1].call_ok(outcomes[n - 1]));
        }
    }
}

} // verus!
