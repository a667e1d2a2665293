//! The operator's requests on the job list: run one job, run all that wait,
//! force jobs to be run again.

use vstd::prelude::*;
use crate::artifact::ArtifactConfig;
use crate::job::{batch_complete, BatchJob, JobStatus, OutputEvidence};
use crate::text::{concat3, decimal, decimal_of, lines_of, push_line, push_text};

verus! {

/// Whether a sweep over the job list runs a job of this status: it does so
/// for a job that waits or has failed.
pub open spec fn processable(status: JobStatus) -> bool {
    status is Pending || status is Failed
}

/// Whether forcing sets a job of this status back to `Pending`: it does so
/// for a job that is done, in this session or before it.
pub open spec fn forceable(status: JobStatus) -> bool {
    status is Done || status is AlreadyDone
}

/// The status of a job after it was forced.
pub open spec fn forced(status: JobStatus) -> JobStatus {
    if forceable(status) {
        JobStatus::Pending
    } else {
        status
    }
}

/// Decides whether a sweep runs a job of this status.
pub fn is_processable(status: &JobStatus) -> (yes: bool)
    ensures
        yes == processable(*status),
{
    match status {
        JobStatus::Pending => true,
        JobStatus::Failed(_) => true,
        _ => false,
    }
}

/// Decides whether forcing resets a job of this status.
pub fn is_forceable(status: &JobStatus) -> (yes: bool)
    ensures
        yes == forceable(*status),
{
    match status {
        JobStatus::Done => true,
        JobStatus::AlreadyDone => true,
        _ => false,
    }
}

/// What the log says to a request to run the selected job.
pub open spec fn selection_lines(jobs: Seq<BatchJob>, selected: int) -> Seq<Seq<char>> {
    if jobs.len() == 0 {
        seq!["Žádná dávka k zpracování."@]
    } else if jobs[selected].status is AlreadyDone {
        seq!["Dávka je již zpracována. Použijte 'F' pro vynucení přepracování."@]
    } else {
        Seq::<Seq<char>>::empty()
    }
}

/// Answers the request to run the selected job: the job to run, or nothing
/// where the list is empty or the job is `AlreadyDone`. A job that is
/// `AlreadyDone` is not run on request; the log points the operator to
/// forcing it.
pub fn process_selected(jobs: &Vec<BatchJob>, selected: usize, logs: &mut Vec<String>) -> (run:
    Option<usize>)
    requires
        jobs.len() > 0 ==> selected < jobs.len(),
    ensures
        run is Some <==> jobs.len() > 0 && !(jobs[selected as int].status is AlreadyDone),
        run is Some ==> run->0 == selected,
        lines_of(final(logs)@) == lines_of(old(logs)@) + selection_lines(jobs@, selected as int),
{
    if jobs.len() == 0 {
        push_text(logs, "Žádná dávka k zpracování.");
        return None;
    }
    match &jobs[selected].status {
        JobStatus::AlreadyDone => {
            push_text(logs, "Dávka je již zpracována. Použijte 'F' pro vynucení přepracování.");
            None
        },
        _ => {
            Some(selected)
        },
    }
}

/// Whether `sweep` lists, in rising order, exactly the jobs that a sweep
/// runs.
pub open spec fn is_sweep(jobs: Seq<BatchJob>, sweep: Seq<usize>) -> bool {
    &&& forall|k: int|
        0 <= k < sweep.len() ==> (#[trigger] sweep[k]) < jobs.len() && processable(
            jobs[sweep[k] as int].status,
        )
    &&& forall|k: int, l: int| 0 <= k < l < sweep.len() ==> #[trigger] sweep[k] < #[trigger] sweep[l]
    &&& forall|i: int|
        0 <= i < jobs.len() && processable((#[trigger] jobs[i]).status) ==> sweep.contains(
            i as usize,
        )
}

/// What the log says when a sweep begins.
pub open spec fn sweep_lines(jobs: Seq<BatchJob>) -> Seq<Seq<char>> {
    if jobs.len() == 0 {
        seq!["Žádné dávky k zpracování."@]
    } else {
        seq!["Spouštím zpracování všech Pending dávek..."@]
    }
}

/// Answers the request to run every job that waits: the jobs to run, in
/// list order. These are the jobs that are `Pending` or `Failed`; jobs that
/// are done or being processed are passed over.
pub fn process_all_pending(jobs: &Vec<BatchJob>, logs: &mut Vec<String>) -> (sweep: Vec<usize>)
    ensures
        is_sweep(jobs@, sweep@),
        lines_of(final(logs)@) == lines_of(old(logs)@) + sweep_lines(jobs@),
{
    let mut sweep: Vec<usize> = Vec::new();
    if jobs.len() == 0 {
        push_text(logs, "Žádné dávky k zpracování.");
        return sweep;
    }
    push_text(logs, "Spouštím zpracování všech Pending dávek...");
    let mut i: usize = 0;
    while i < jobs.len()
        invariant
            i <= jobs.len(),
            forall|k: int|
                0 <= k < sweep@.len() ==> (#[trigger] sweep@[k]) < i && processable(
                    jobs@[sweep@[k] as int].status,
                ),
            forall|k: int, l: int|
                0 <= k < l < sweep@.len() ==> #[trigger] sweep@[k] < #[trigger] sweep@[l],
            forall|j: int|
                0 <= j < i && processable((#[trigger] jobs@[j]).status) ==> sweep@.contains(
                    j as usize,
                ),
        decreases jobs.len() - i,
    {
        if is_processable(&jobs[i].status) {
            let ghost before = sweep@;
            sweep.push(i);
            assert(sweep@[before.len() as int] == i);
            assert forall|j: int|
                0 <= j < i + 1 && processable((#[trigger] jobs@[j]).status) implies sweep@.contains(
                j as usize,
            ) by {
                if j < i {
                    let k = choose|k: int| 0 <= k < before.len() && before[k] == j as usize;
                    assert(sweep@[k] == j as usize);
                }
            }
        }
        i += 1;
    }
    sweep
}

/// The line that closes a sweep in the log.
pub fn sweep_done_line() -> (line: String)
    ensures
        line@ == "Hromadné zpracování dokončeno."@,
{
    String::from_str("Hromadné zpracování dokončeno.")
}

/// What the log says to a request to force the selected job.
pub open spec fn force_lines(jobs: Seq<BatchJob>, selected: int) -> Seq<Seq<char>> {
    if jobs.len() == 0 {
        seq!["Žádná dávka k přepracování."@]
    } else if forceable(jobs[selected].status) {
        seq!["Dávka "@ + decimal(selected as nat) + " nastavena na Pending pro přepracování."@]
    } else if jobs[selected].status is Processing {
        seq!["Dávka právě zpracovává - nelze přepracovat."@]
    } else {
        seq!["Dávka již je ve stavu Pending nebo Failed."@]
    }
}

/// Forces the selected job to be run again: a job that is `Done` or
/// `AlreadyDone` becomes `Pending`. A job that is being processed is left as
/// it is, and the request is turned down, not kept for later. Nothing but the
/// status of the selected job changes.
pub fn force_rerun_selected(jobs: &mut Vec<BatchJob>, selected: usize, logs: &mut Vec<String>)
    requires
        old(jobs).len() > 0 ==> selected < old(jobs).len(),
    ensures
        final(jobs).len() == old(jobs).len(),
        forall|i: int|
            0 <= i < old(jobs).len() && i != selected ==> (#[trigger] final(jobs)[i]) == old(jobs)[i],
        old(jobs).len() > 0 ==> final(jobs)[selected as int] == (BatchJob {
            status: forced(old(jobs)[selected as int].status),
            ..old(jobs)[selected as int]
        }),
        lines_of(final(logs)@) == lines_of(old(logs)@) + force_lines(old(jobs)@, selected as int),
{
    if jobs.len() == 0 {
        push_text(logs, "Žádná dávka k přepracování.");
    } else if is_forceable(&jobs[selected].status) {
        jobs[selected].status = JobStatus::Pending;
        let number = decimal_of(selected as u64);
        push_line(
            logs,
            concat3("Dávka ", number.as_str(), " nastavena na Pending pro přepracování."),
        );
    } else {
        match &jobs[selected].status {
            JobStatus::Processing => {
                push_text(logs, "Dávka právě zpracovává - nelze přepracovat.");
            },
            _ => {
                push_text(logs, "Dávka již je ve stavu Pending nebo Failed.");
            },
        }
    }
}

/// The number of jobs that forcing resets.
pub open spec fn forceable_count(jobs: Seq<BatchJob>) -> nat
    decreases jobs.len(),
{
    if jobs.len() == 0 {
        0
    } else {
        forceable_count(jobs.drop_last()) + (if forceable(jobs.last().status) {
            1nat
        } else {
            0
        })
    }
}

/// Forces every job that is `Done` or `AlreadyDone` back to `Pending`, and
/// says in the log how many there were. All other jobs are left as they are.
pub fn force_rerun_all(jobs: &mut Vec<BatchJob>, logs: &mut Vec<String>) -> (count: usize)
    ensures
        final(jobs).len() == old(jobs).len(),
        forall|i: int|
            0 <= i < old(jobs).len() ==> (#[trigger] final(jobs)[i]) == (BatchJob {
                status: forced(old(jobs)[i].status),
                ..old(jobs)[i]
            }),
        count == forceable_count(old(jobs)@),
        lines_of(final(logs)@) == lines_of(old(logs)@).push(
            decimal(count as nat) + " hotových/AlreadyDone dávek nastaveno na Pending."@,
        ),
{
    let mut count: usize = 0;
    let mut i: usize = 0;
    while i < jobs.len()
        invariant
            i <= jobs.len(),
            jobs.len() == old(jobs).len(),
            count <= i,
            count == forceable_count(old(jobs)@.take(i as int)),
            forall|j: int| i <= j < jobs.len() ==> (#[trigger] jobs[j]) == old(jobs)[j],
            forall|j: int|
                0 <= j < i ==> (#[trigger] jobs[j]) == (BatchJob {
                    status: forced(old(jobs)[j].status),
                    ..old(jobs)[j]
                }),
        decreases jobs.len() - i,
    {
        proof {
            let next = old(jobs)@.take(i + 1);
            assert(next.drop_last() =~= old(jobs)@.take(i as int));
        }
        if is_forceable(&jobs[i].status) {
            jobs[i].status = JobStatus::Pending;
            count += 1;
        }
        i += 1;
    }
    assert(old(jobs)@.take(jobs.len() as int) =~= old(jobs)@);
    let number = decimal_of(count as u64);
    let mut line = number;
    line.append(" hotových/AlreadyDone dávek nastaveno na Pending.");
    push_line(logs, line);
    count
}

/// Forcing a job changes its status and nothing else. It reads and touches
/// no output: what is found on disk is judged after forcing exactly as
/// before, so files that were there are still there for the next run to
/// overwrite.
pub proof fn lemma_force_leaves_output_alone(
    job: BatchJob,
    evidence: OutputEvidence,
    config: ArtifactConfig,
    digits: nat,
)
    ensures
        forced(job.status) is Pending <==> forceable(job.status) || job.status is Pending,
        batch_complete(BatchJob { status: forced(job.status), ..job }, evidence, config, digits)
            == batch_complete(job, evidence, config, digits),
{
    let after = BatchJob { status: forced(job.status), ..job };
    assert forall|i: int| after.page_number(i) == job.page_number(i) by {}
    if batch_complete(job, evidence, config, digits) {
    }
    if batch_complete(after, evidence, config, digits) {
    }
}

/// Marks a job as being processed. A position outside the list changes
/// nothing.
pub fn begin_job(jobs: &mut Vec<BatchJob>, index: usize) -> (begun: bool)
    ensures
        begun == (index < old(jobs).len()),
        final(jobs).len() == old(jobs).len(),
        forall|i: int|
            0 <= i < old(jobs).len() && i != index ==> (#[trigger] final(jobs)[i]) == old(jobs)[i],
        begun ==> final(jobs)[index as int] == (BatchJob {
            status: JobStatus::Processing,
            ..old(jobs)[index as int]
        }),
{
    if index >= jobs.len() {
        return false;
    }
    jobs[index].status = JobStatus::Processing;
    true
}

/// What the log says when the run of a batch has ended.
pub open spec fn resolution_lines(succeeded: bool) -> Seq<Seq<char>> {
    if succeeded {
        seq!["Dávka OK"@, "Čekám na dokončení zápisu souborů..."@]
    } else {
        seq!["Dávka FAILED"@]
    }
}

/// Gives a job its status at the end of its run: `Done` where no call
/// failed, and else `Failed` with the message of the first failure. Says
/// whether the run succeeded; only then is there anything to follow it up
/// with.
pub fn resolve_job(
    jobs: &mut Vec<BatchJob>,
    index: usize,
    result: Result<(), String>,
    logs: &mut Vec<String>,
) -> (succeeded: bool)
    requires
        index < old(jobs).len(),
    ensures
        succeeded == (result is Ok),
        final(jobs).len() == old(jobs).len(),
        forall|i: int|
            0 <= i < old(jobs).len() && i != index ==> (#[trigger] final(jobs)[i]) == old(jobs)[i],
        final(jobs)[index as int] == (BatchJob {
            status: match result {
                Ok(_) => JobStatus::Done,
                Err(message) => JobStatus::Failed(message),
            },
            ..old(jobs)[index as int]
        }),
        lines_of(final(logs)@) == lines_of(old(logs)@) + resolution_lines(result is Ok),
{
    match result {
        Ok(_) => {
            jobs[index].status = JobStatus::Done;
            push_text(logs, "Dávka OK");
            push_text(logs, "Čekám na dokončení zápisu souborů...");
            true
        },
        Err(message) => {
            jobs[index].status = JobStatus::Failed(message);
            push_text(logs, "Dávka FAILED");
            false
        },
    }
}

} // verus!
