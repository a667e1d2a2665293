//! Discovery of batches: which directories hold page images, in what order
//! they are taken, and which sequence numbers their pages get.

use vstd::prelude::*;
use crate::job::{BatchJob, JobStatus};
use crate::sorting::{
    all_among, arranged, keys_differ, lemma_arranged_is_order_free,
    lemma_sorted_names_order_free, lemma_stable_order_sorted, sort_names, sort_order,
    sorted_names, stable_order,
};
use crate::text::{chars_of, lines_of, lowercase, push_char, strictly_before, to_lowercase};

verus! {

/// The position of the last dot in `name`, or -1 where it has none.
pub open spec fn last_dot(name: Seq<char>) -> int
    decreases name.len(),
{
    if name.len() == 0 {
        -1
    } else if name.last() == '.' {
        name.len() - 1
    } else {
        last_dot(name.drop_last())
    }
}

/// The extension of a file name: what follows its last dot. A name without a
/// dot has none, nor has one whose only dot comes first, nor has `..`.
pub open spec fn extension_of(name: Seq<char>) -> Option<Seq<char>> {
    if name =~= seq!['.', '.'] || last_dot(name) <= 0 {
        None
    } else {
        Some(name.subrange(last_dot(name) + 1, name.len() as int))
    }
}

/// Whether an extension, already in lower case, is that of a page image.
pub open spec fn is_page_extension(lower: Seq<char>) -> bool {
    lower == "tif"@ || lower == "tiff"@
}

/// Whether a file of this name is a page image: its extension is `tif` or
/// `tiff`, in any mix of upper and lower case.
pub open spec fn is_page_image(name: Seq<char>) -> bool {
    extension_of(name) matches Some(ext) && is_page_extension(lowercase(ext))
}

/// Takes the extension off a file name.
pub fn file_extension(name: &str) -> (ext: Option<String>)
    ensures
        ext is Some <==> extension_of(name@) is Some,
        ext matches Some(e) ==> e@ == extension_of(name@)->0,
{
    let chars = chars_of(name);
    let n = chars.len();
    if n == 2 && chars[0] == '.' && chars[1] == '.' {
        return None;
    }
    let mut i: usize = n;
    assert(chars@.take(n as int) =~= chars@);
    while i > 0 && chars[i - 1] != '.'
        invariant
            i <= n,
            n == chars.len(),
            last_dot(chars@) == last_dot(chars@.take(i as int)),
        decreases i,
    {
        proof {
            let prefix = chars@.take(i as int);
            assert(prefix.drop_last() =~= chars@.take(i - 1));
        }
        i -= 1;
    }
    if i <= 1 {
        return None;
    }
    let mut ext = String::new();
    let mut k: usize = i;
    while k < n
        invariant
            i <= k <= n,
            n == chars.len(),
            ext@ == chars@.subrange(i as int, k as int),
        decreases n - k,
    {
        push_char(&mut ext, chars[k]);
        k += 1;
    }
    Some(ext)
}

/// Decides whether a file of this name is a page image.
pub fn is_tiff_name(name: &str) -> (yes: bool)
    ensures
        yes == is_page_image(name@),
{
    match file_extension(name) {
        Some(ext) => is_tiff_extension(to_lowercase(ext.as_str()).as_str()),
        None => false,
    }
}

/// Decides whether an extension, already in lower case, is that of a page
/// image.
pub fn is_tiff_extension(lower: &str) -> (yes: bool)
    ensures
        yes == is_page_extension(lower@),
{
    let given = String::from_str(lower);
    given == String::from_str("tif") || given == String::from_str("tiff")
}

/// One entry of a directory listing.
#[derive(Clone, Debug, PartialEq, Eq)]
pub struct ListedEntry {
    pub name: String,
    /// Whether the entry is a regular file.
    pub is_file: bool,
}

/// Whether an entry is a page image file.
pub open spec fn is_page(entry: ListedEntry) -> bool {
    entry.is_file && is_page_image(entry.name@)
}

/// The number of page image files in a listing.
pub open spec fn page_count(entries: Seq<ListedEntry>) -> nat
    decreases entries.len(),
{
    if entries.len() == 0 {
        0
    } else {
        page_count(entries.drop_last()) + (if is_page(entries.last()) {
            1nat
        } else {
            0
        })
    }
}

/// The names of the page image files in a listing, in listing order.
pub open spec fn page_names(entries: Seq<ListedEntry>) -> Seq<Seq<char>>
    decreases entries.len(),
{
    if entries.len() == 0 {
        Seq::empty()
    } else if is_page(entries.last()) {
        page_names(entries.drop_last()).push(entries.last().name@)
    } else {
        page_names(entries.drop_last())
    }
}

/// A listing has as many page names as it has pages, and no more pages than
/// entries.
pub proof fn lemma_page_names_len(entries: Seq<ListedEntry>)
    ensures
        page_names(entries).len() == page_count(entries),
        page_count(entries) <= entries.len(),
    decreases entries.len(),
{
    if entries.len() > 0 {
        lemma_page_names_len(entries.drop_last());
    }
}

/// Whether a listing holds at least one page image file.
pub fn has_tiffs_in_dir(entries: &Vec<ListedEntry>) -> (found: bool)
    ensures
        found == (page_count(entries@) > 0),
{
    let mut i: usize = 0;
    while i < entries.len()
        invariant
            i <= entries.len(),
            page_count(entries@.take(i as int)) == 0,
        decreases entries.len() - i,
    {
        proof {
            let next = entries@.take(i + 1);
            assert(next.drop_last() =~= entries@.take(i as int));
        }
        if entries[i].is_file && is_tiff_name(entries[i].name.as_str()) {
            proof {
                lemma_page_count_grows(entries@, i + 1);
            }
            return true;
        }
        i += 1;
    }
    assert(entries@.take(entries.len() as int) =~= entries@);
    false
}

/// The start of a listing has no more pages than the whole.
pub proof fn lemma_page_count_grows(entries: Seq<ListedEntry>, k: int)
    requires
        0 <= k <= entries.len(),
    ensures
        page_count(entries.take(k)) <= page_count(entries),
    decreases entries.len() - k,
{
    if k < entries.len() {
        let next = entries.take(k + 1);
        assert(next.drop_last() =~= entries.take(k));
        lemma_page_count_grows(entries, k + 1);
    } else {
        assert(entries.take(k) =~= entries);
    }
}

/// The names of the page image files of a listing, in the order in which
/// the pages are taken.
pub fn collect_tiffs_in_dir(entries: &Vec<ListedEntry>) -> (names: Vec<String>)
    ensures
        lines_of(names@) == sorted_names(page_names(entries@)),
        names@.len() == page_count(entries@),
{
    let mut found: Vec<String> = Vec::new();
    let mut i: usize = 0;
    while i < entries.len()
        invariant
            i <= entries.len(),
            lines_of(found@) == page_names(entries@.take(i as int)),
        decreases entries.len() - i,
    {
        proof {
            let next = entries@.take(i + 1);
            assert(next.drop_last() =~= entries@.take(i as int));
        }
        if entries[i].is_file && is_tiff_name(entries[i].name.as_str()) {
            found.push(entries[i].name.clone());
        }
        i += 1;
    }
    assert(entries@.take(entries.len() as int) =~= entries@);
    proof {
        lemma_page_names_len(entries@);
    }
    let names = sort_names(&found);
    assert(lines_of(names@).len() == names@.len());
    names
}

/// A directory that may be a batch: the input root, or one of the
/// directories directly inside it, with what it holds.
#[derive(Clone, Debug, PartialEq, Eq)]
pub struct Candidate {
    /// The directory, as the operator sees it.
    pub dir: String,
    /// Its last component, empty where it has none.
    pub name: String,
    /// Whether it is the input root itself.
    pub is_root: bool,
    pub entries: Vec<ListedEntry>,
}

/// The candidates that are batches: those that hold a page image, in the
/// order in which they were listed.
pub open spec fn batches(candidates: Seq<Candidate>) -> Seq<Candidate>
    decreases candidates.len(),
{
    if candidates.len() == 0 {
        Seq::empty()
    } else if page_count(candidates.last().entries@) > 0 {
        batches(candidates.drop_last()).push(candidates.last())
    } else {
        batches(candidates.drop_last())
    }
}

/// The names of a list of candidates.
pub open spec fn names_of(list: Seq<Candidate>) -> Seq<Seq<char>> {
    Seq::new(list.len(), |i: int| list[i].name@)
}

/// The batches among `candidates` in the order in which they are numbered:
/// by name, equal names in the order in which they were listed.
pub open spec fn ordered_batches(candidates: Seq<Candidate>) -> Seq<Candidate> {
    let found = batches(candidates);
    Seq::new(found.len(), |i: int| found[stable_order(names_of(found), found.len())[i]])
}

/// The number of pages in the first `i` of `list`.
pub open spec fn pages_before(list: Seq<Candidate>, i: int) -> nat
    decreases i,
{
    if i <= 0 {
        0
    } else {
        pages_before(list, i - 1) + page_count(list[i - 1].entries@)
    }
}

/// The job list of a discovery: one pending job for each batch, in order,
/// each numbered on from where the one before it ends.
pub open spec fn jobs_match(jobs: Seq<BatchJob>, list: Seq<Candidate>, start: nat) -> bool {
    &&& jobs.len() == list.len()
    &&& forall|i: int|
        0 <= i < jobs.len() ==> {
            let job = #[trigger] jobs[i];
            &&& job.dir == list[i].dir
            &&& job.name == list[i].name
            &&& job.is_root == list[i].is_root
            &&& job.file_count == page_count(list[i].entries@)
            &&& job.file_count > 0
            &&& job.index_start == start + pages_before(list, i)
            &&& job.status is Pending
            &&& job.wf()
        }
}

/// Every batch holds at least one page.
pub proof fn lemma_batches_hold_pages(candidates: Seq<Candidate>)
    ensures
        forall|k: int|
            0 <= k < batches(candidates).len() ==> page_count(
                (#[trigger] batches(candidates)[k]).entries@,
            ) > 0,
    decreases candidates.len(),
{
    if candidates.len() > 0 {
        lemma_batches_hold_pages(candidates.drop_last());
        let shorter = batches(candidates.drop_last());
    }
}

/// Page counts only add up.
pub proof fn lemma_pages_before_grows(list: Seq<Candidate>, i: int, j: int)
    requires
        i <= j,
    ensures
        pages_before(list, i) <= pages_before(list, j),
    decreases j - i,
{
    if i < j {
        lemma_pages_before_grows(list, i, j - 1);
    }
}

/// Counts the page image files of a listing.
pub fn count_tiffs(entries: &Vec<ListedEntry>) -> (count: usize)
    ensures
        count == page_count(entries@),
{
    let mut count: usize = 0;
    let mut i: usize = 0;
    while i < entries.len()
        invariant
            i <= entries.len(),
            count == page_count(entries@.take(i as int)),
            count <= i,
        decreases entries.len() - i,
    {
        proof {
            let next = entries@.take(i + 1);
            assert(next.drop_last() =~= entries@.take(i as int));
        }
        if entries[i].is_file && is_tiff_name(entries[i].name.as_str()) {
            count += 1;
        }
        i += 1;
    }
    assert(entries@.take(entries.len() as int) =~= entries@);
    count
}

/// Looks through the candidates: which of them are batches, in the order in
/// which they are numbered, and how many pages each has. `picks[k]` is the
/// position among the candidates of the batch numbered as the `k`-th, and
/// `counts[k]` the number of its pages.
fn survey(candidates: &Vec<Candidate>) -> (found: (Vec<usize>, Vec<usize>))
    ensures
        found.0@.len() == ordered_batches(candidates@).len(),
        found.1@.len() == ordered_batches(candidates@).len(),
        forall|k: int|
            0 <= k < found.0@.len() ==> {
                &&& (#[trigger] found.0@[k]) < candidates@.len()
                &&& candidates@[found.0@[k] as int] == ordered_batches(candidates@)[k]
            },
        forall|k: int|
            0 <= k < found.1@.len() ==> {
                &&& (#[trigger] found.1@[k]) == page_count(
                    ordered_batches(candidates@)[k].entries@,
                )
                &&& found.1@[k] > 0
            },
{
    let mut kept: Vec<usize> = Vec::new();
    let mut names: Vec<String> = Vec::new();
    let mut sizes: Vec<usize> = Vec::new();
    let mut i: usize = 0;
    while i < candidates.len()
        invariant
            i <= candidates.len(),
            kept@.len() == batches(candidates@.take(i as int)).len(),
            names@.len() == kept@.len(),
            sizes@.len() == kept@.len(),
            forall|k: int|
                0 <= k < kept@.len() ==> {
                    &&& (#[trigger] kept@[k]) < candidates@.len()
                    &&& candidates@[kept@[k] as int] == batches(candidates@.take(i as int))[k]
                },
            forall|k: int|
                0 <= k < kept@.len() ==> (#[trigger] names@[k])@ == batches(
                    candidates@.take(i as int),
                )[k].name@,
            forall|k: int|
                0 <= k < kept@.len() ==> (#[trigger] sizes@[k]) == page_count(
                    batches(candidates@.take(i as int))[k].entries@,
                ),
        decreases candidates.len() - i,
    {
        proof {
            let next = candidates@.take(i + 1);
            assert(next.drop_last() =~= candidates@.take(i as int));
        }
        let count = count_tiffs(&candidates[i].entries);
        if count > 0 {
            kept.push(i);
            names.push(candidates[i].name.clone());
            sizes.push(count);
        }
        i += 1;
    }
    assert(candidates@.take(candidates.len() as int) =~= candidates@);
    let ghost all = batches(candidates@);
    let ghost list = ordered_batches(candidates@);
    proof {
        lemma_batches_hold_pages(candidates@);
    }
    assert(lines_of(names@) =~= names_of(all));
    let order = sort_order(&names);
    let mut picks: Vec<usize> = Vec::new();
    let mut counts: Vec<usize> = Vec::new();
    let mut j: usize = 0;
    while j < order.len()
        invariant
            j <= order.len(),
            all == batches(candidates@),
            list == ordered_batches(candidates@),
            order@.len() == all.len(),
            kept@.len() == all.len(),
            sizes@.len() == all.len(),
            names@.len() == all.len(),
            lines_of(names@) == names_of(all),
            picks@.len() == j,
            counts@.len() == j,
            forall|k: int|
                0 <= k < order@.len() ==> #[trigger] order@[k] as int == stable_order(
                    lines_of(names@),
                    names@.len(),
                )[k],
            forall|k: int| 0 <= k < order@.len() ==> (#[trigger] order@[k]) < names@.len(),
            forall|k: int|
                0 <= k < kept@.len() ==> {
                    &&& (#[trigger] kept@[k]) < candidates@.len()
                    &&& candidates@[kept@[k] as int] == all[k]
                },
            forall|k: int|
                0 <= k < kept@.len() ==> (#[trigger] sizes@[k]) == page_count(all[k].entries@),
            forall|k: int| 0 <= k < kept@.len() ==> page_count((#[trigger] all[k]).entries@) > 0,
            forall|k: int|
                0 <= k < j ==> {
                    &&& (#[trigger] picks@[k]) < candidates@.len()
                    &&& candidates@[picks@[k] as int] == list[k]
                },
            forall|k: int|
                0 <= k < j ==> {
                    &&& (#[trigger] counts@[k]) == page_count(list[k].entries@)
                    &&& counts@[k] > 0
                },
        decreases order.len() - j,
    {
        let at = order[j];
        assert(all[at as int] == list[j as int]);
        picks.push(kept[at]);
        counts.push(sizes[at]);
        j += 1;
    }
    (picks, counts)
}

/// Makes the job list for what was found under the input root. `candidates`
/// holds the root itself and then the directories directly inside it, as they
/// were listed. Every candidate that holds a page image becomes a batch; the
/// others are dropped. The batches are ordered by name, and their pages are
/// numbered in one run from `start_index` on. Where the number of a page
/// would pass the largest sequence number, there is no job list.
pub fn discover(candidates: &Vec<Candidate>, start_index: u32) -> (found: Option<Vec<BatchJob>>)
    ensures
        found is Some <==> start_index + pages_before(
            ordered_batches(candidates@),
            ordered_batches(candidates@).len() as int,
        ) <= u32::MAX + 1,
        found matches Some(jobs) ==> jobs_match(
            jobs@,
            ordered_batches(candidates@),
            start_index as nat,
        ),
{
    let (_, counts) = survey(candidates);
    let ghost list = ordered_batches(candidates@);
    let room: u64 = 0x1_0000_0000u64 - start_index as u64;
    let mut total: u64 = 0;
    let mut j: usize = 0;
    while j < counts.len()
        invariant
            j <= counts.len(),
            list == ordered_batches(candidates@),
            counts@.len() == list.len(),
            forall|k: int|
                0 <= k < counts@.len() ==> (#[trigger] counts@[k]) == page_count(
                    list[k].entries@,
                ),
            room == u32::MAX + 1 - start_index,
            total == pages_before(list, j as int),
            total <= room,
        decreases counts.len() - j,
    {
        let count = counts[j];
        assert(pages_before(list, j + 1) == pages_before(list, j as int) + count);
        if count as u64 > room - total {
            proof {
                lemma_pages_before_grows(list, j + 1, list.len() as int);
            }
            return None;
        }
        total = total + count as u64;
        j += 1;
    }
    Some(init_jobs_from_dirs(candidates, start_index))
}

/// The pages before position `k` are the same in a list and in a start of it
/// that reaches `k`.
pub proof fn lemma_pages_before_prefix(list: Seq<Candidate>, n: int, k: int)
    requires
        0 <= k <= n <= list.len(),
    ensures
        pages_before(list.take(n), k) == pages_before(list, k),
    decreases k,
{
    if k > 0 {
        lemma_pages_before_prefix(list, n, k - 1);
    }
}

/// Makes the job list for what was found under the input root, as `discover`
/// does, for a tree whose pages can all be numbered.
pub fn init_jobs_from_dirs(candidates: &Vec<Candidate>, start_index: u32) -> (jobs: Vec<BatchJob>)
    requires
        start_index + pages_before(
            ordered_batches(candidates@),
            ordered_batches(candidates@).len() as int,
        ) <= u32::MAX + 1,
    ensures
        jobs_match(jobs@, ordered_batches(candidates@), start_index as nat),
{
    let (picks, counts) = survey(candidates);
    let ghost list = ordered_batches(candidates@);
    let mut jobs: Vec<BatchJob> = Vec::new();
    let mut next: u64 = start_index as u64;
    let mut j: usize = 0;
    while j < picks.len()
        invariant
            j <= picks.len(),
            list == ordered_batches(candidates@),
            picks@.len() == list.len(),
            counts@.len() == list.len(),
            forall|k: int|
                0 <= k < picks@.len() ==> {
                    &&& (#[trigger] picks@[k]) < candidates@.len()
                    &&& candidates@[picks@[k] as int] == list[k]
                },
            forall|k: int|
                0 <= k < counts@.len() ==> {
                    &&& (#[trigger] counts@[k]) == page_count(list[k].entries@)
                    &&& counts@[k] > 0
                },
            start_index + pages_before(list, list.len() as int) <= u32::MAX + 1,
            next == start_index + pages_before(list, j as int),
            jobs_match(jobs@, list.take(j as int), start_index as nat),
        decreases picks.len() - j,
    {
        let candidate = &candidates[picks[j]];
        let count = counts[j];
        proof {
            assert(pages_before(list, j + 1) == pages_before(list, j as int) + count);
            lemma_pages_before_grows(list, j + 1, list.len() as int);
        }
        let ghost before = jobs@;
        jobs.push(
            BatchJob {
                dir: candidate.dir.clone(),
                name: candidate.name.clone(),
                is_root: candidate.is_root,
                index_start: next as u32,
                file_count: count,
                status: JobStatus::Pending,
            },
        );
        proof {
            let upto = list.take(j + 1);
            assert forall|k: int| 0 <= k <= j implies pages_before(upto, k) == pages_before(
                list,
                k,
            ) by {
                lemma_pages_before_prefix(list, j + 1, k);
            }
            assert forall|k: int| 0 <= k < j implies pages_before(list.take(j as int), k)
                == pages_before(list, k) by {
                lemma_pages_before_prefix(list, j as int, k);
            }
            assert forall|k: int| 0 <= k < j implies jobs@[k] == before[k] by {}
        }
        next = next + count as u64;
        j += 1;
    }
    assert(list.take(picks.len() as int) =~= list);
    jobs
}


/// The sequence numbers of a job list run on without gap or overlap: the
/// first job starts at the start offset, every job starts where the one
/// before it ends, and so every job starts above all pages of all jobs
/// before it.
pub proof fn lemma_numbers_contiguous(jobs: Seq<BatchJob>, list: Seq<Candidate>, start: nat)
    requires
        jobs_match(jobs, list, start),
    ensures
        jobs.len() > 0 ==> jobs[0].index_start == start,
        forall|i: int|
            0 <= i < jobs.len() - 1 ==> (#[trigger] jobs[i + 1]).index_start == jobs[i].index_start
                + jobs[i].file_count,
        forall|i: int, j: int|
            0 <= i < j < jobs.len() ==> (#[trigger] jobs[i]).index_start + jobs[i].file_count <= (
            #[trigger] jobs[j]).index_start,
        forall|i: int, j: int|
            0 <= i < j < jobs.len() ==> (#[trigger] jobs[i]).index_start < (
            #[trigger] jobs[j]).index_start,
{
    assert forall|i: int, j: int| 0 <= i < j < jobs.len() implies (#[trigger] jobs[i]).index_start
        + jobs[i].file_count <= (#[trigger] jobs[j]).index_start by {
        lemma_pages_before_grows(list, i + 1, j);
    }
}

/// Discovery is a function of what it is given: two job lists made for the
/// same candidates and the same start offset are the same list.
pub proof fn lemma_discovery_is_deterministic(
    first: Seq<BatchJob>,
    second: Seq<BatchJob>,
    candidates: Seq<Candidate>,
    start: nat,
)
    requires
        jobs_match(first, ordered_batches(candidates), start),
        jobs_match(second, ordered_batches(candidates), start),
    ensures
        first == second,
{
}

/// The batches are numbered in the order of their names: no batch has a name
/// that comes before the name of a batch numbered earlier.
pub proof fn lemma_batches_in_name_order(candidates: Seq<Candidate>, i: int, j: int)
    requires
        0 <= i < j < ordered_batches(candidates).len(),
    ensures
        !strictly_before(
            ordered_batches(candidates)[j].name@,
            ordered_batches(candidates)[i].name@,
        ),
{
    let found = batches(candidates);
    lemma_stable_order_sorted(names_of(found), found.len());
    let order = stable_order(names_of(found), found.len());
}

/// What the job list takes from a batch: its directory, its name, whether it
/// is the root, and the number of its pages.
pub open spec fn facts(candidate: Candidate) -> (String, String, bool, nat) {
    (candidate.dir, candidate.name, candidate.is_root, page_count(candidate.entries@))
}

/// The facts of a list of batches.
pub open spec fn facts_of(list: Seq<Candidate>) -> Seq<(String, String, bool, nat)> {
    Seq::new(list.len(), |i: int| facts(list[i]))
}

/// The name among the facts of a batch, by which the batches are ordered.
pub open spec fn name_in() -> spec_fn((String, String, bool, nat)) -> Seq<char> {
    |known: (String, String, bool, nat)| known.1@
}

proof fn lemma_pages_before_by_facts(first: Seq<Candidate>, second: Seq<Candidate>, i: int)
    requires
        facts_of(first) == facts_of(second),
        0 <= i <= first.len(),
    ensures
        pages_before(first, i) == pages_before(second, i),
    decreases i,
{
    assert(facts_of(first).len() == first.len() && facts_of(second).len() == second.len());
    if i > 0 {
        lemma_pages_before_by_facts(first, second, i - 1);
        assert(facts_of(first)[i - 1] == facts(first[i - 1]));
        assert(facts_of(second)[i - 1] == facts(second[i - 1]));
    }
}

/// The order in which the system lists directories and files does not
/// matter to the job list, as long as no two batches have the same name:
/// two listings of a tree in which the same batches are found, with the same
/// directory, name and number of pages each, give the same job list for the
/// same start offset.
pub proof fn lemma_listing_order_does_not_matter(
    first: Seq<Candidate>,
    second: Seq<Candidate>,
    start: nat,
    jobs: Seq<BatchJob>,
    others: Seq<BatchJob>,
)
    requires
        all_among(facts_of(batches(first)), facts_of(batches(second))),
        all_among(facts_of(batches(second)), facts_of(batches(first))),
        keys_differ(facts_of(batches(first)), name_in()),
        keys_differ(facts_of(batches(second)), name_in()),
        jobs_match(jobs, ordered_batches(first), start),
        jobs_match(others, ordered_batches(second), start),
    ensures
        jobs == others,
{
    let a = batches(first);
    let b = batches(second);
    let fa = facts_of(a);
    let fb = facts_of(b);
    lemma_arranged_is_order_free(fa, fb, name_in());
    lemma_stable_order_sorted(names_of(a), a.len());
    lemma_stable_order_sorted(names_of(b), b.len());
    assert(Seq::new(fa.len(), |i: int| name_in()(fa[i])) =~= names_of(a));
    assert(Seq::new(fb.len(), |i: int| name_in()(fb[i])) =~= names_of(b));
    let one = ordered_batches(first);
    let two = ordered_batches(second);
    assert(facts_of(one) =~= arranged(fa, name_in()));
    assert(facts_of(two) =~= arranged(fb, name_in()));
    assert forall|i: int| 0 <= i < jobs.len() implies jobs[i] == others[i] by {
        lemma_pages_before_by_facts(one, two, i);
        assert(facts_of(one)[i] == facts(one[i]));
        assert(facts_of(two)[i] == facts(two[i]));
        assert(jobs[i].status == others[i].status);
    }
    assert(jobs =~= others);
}

/// The order in which the system lists the files of a directory does not
/// matter to its pages: two listings with the same page images, no name
/// twice, have the same number of pages in the same order.
pub proof fn lemma_page_order_does_not_matter(first: Seq<ListedEntry>, second: Seq<ListedEntry>)
    requires
        all_among(page_names(first), page_names(second)),
        all_among(page_names(second), page_names(first)),
        page_names(first).no_duplicates(),
        page_names(second).no_duplicates(),
    ensures
        page_count(first) == page_count(second),
        sorted_names(page_names(first)) == sorted_names(page_names(second)),
{
    lemma_sorted_names_order_free(page_names(first), page_names(second));
    lemma_page_names_len(first);
    lemma_page_names_len(second);
}

} // verus!
