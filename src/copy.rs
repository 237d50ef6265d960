//! Copy reconciliation: which files to copy where, and the outcome once the
//! caller has performed the copies.
use vstd::prelude::*;
use crate::path::{join, path_join};
use crate::reconcile::{finish, first_link_action, Failure, Outcome};

verus! {

/// One entry of a source directory, as listed by the caller.
#[derive(Debug)]
pub struct DirEntryInfo {
    pub name: String,
    /// Whether the entry is a regular file.
    pub is_file: bool,
}

/// What the source of a copy is.
#[derive(Debug)]
pub enum CopySource {
    /// A directory with its direct entries.
    Dir { entries: Vec<DirEntryInfo> },
    /// Anything else, copied as one file.
    NotDir,
    /// A source that could not be inspected or listed.
    Unreadable,
}

/// One file copy to perform.
#[derive(Debug)]
pub struct CopyJob {
    pub from: String,
    pub to: String,
}

pub open spec fn job_view(j: CopyJob) -> (Seq<char>, Seq<char>) {
    (j.from@, j.to@)
}

/// The copies for the directory entries: each regular file, in listing
/// order, goes to a file of the same name under `destination`.
pub open spec fn entry_jobs(source: Seq<char>, destination: Seq<char>, entries: Seq<DirEntryInfo>) -> Seq<(Seq<char>, Seq<char>)>
    decreases entries.len(),
{
    if entries.len() == 0 {
        seq![]
    } else {
        let prev = entry_jobs(source, destination, entries.drop_last());
        let e = entries.last();
        if e.is_file {
            prev.push((path_join(source, e.name@), path_join(destination, e.name@)))
        } else {
            prev
        }
    }
}

/// The copies of a mapping: none when the destination resolved to the empty
/// string or the source cannot be read, the regular files of a source
/// directory, or the source itself.
pub open spec fn copy_jobs(source: Seq<char>, destination: Seq<char>, listing: CopySource) -> Seq<(Seq<char>, Seq<char>)> {
    if destination.len() == 0 {
        seq![]
    } else {
        match listing {
            CopySource::Dir { entries } => entry_jobs(source, destination, entries@),
            CopySource::NotDir => seq![(source, destination)],
            CopySource::Unreadable => seq![],
        }
    }
}

/// The number of failed copies.
pub open spec fn count_failed(results: Seq<bool>) -> nat
    decreases results.len(),
{
    if results.len() == 0 {
        0
    } else {
        count_failed(results.drop_last()) + if results.last() { 0nat } else { 1nat }
    }
}

/// Plans the copies of a mapping from `source` to `destination`.
pub fn plan_copy(source: &String, destination: &String, listing: &CopySource) -> (r: Vec<CopyJob>)
    ensures
        r@.map_values(|j: CopyJob| job_view(j)) == copy_jobs(source@, destination@, *listing),
{
    let mut r: Vec<CopyJob> = Vec::new();
    if destination.as_str().is_empty() {
        assert(r@.map_values(|j: CopyJob| job_view(j)) =~= seq![]);
        return r;
    }
    match listing {
        CopySource::NotDir => {
            r.push(CopyJob { from: source.clone(), to: destination.clone() });
            assert(r@.map_values(|j: CopyJob| job_view(j)) =~= seq![(source@, destination@)]);
        },
        CopySource::Unreadable => {
            assert(r@.map_values(|j: CopyJob| job_view(j)) =~= seq![]);
        },
        CopySource::Dir { entries } => {
            let mut i: usize = 0;
            assert(entries@.subrange(0, 0) =~= seq![]);
            while i < entries.len()
                invariant
                    i <= entries@.len(),
                    r@.map_values(|j: CopyJob| job_view(j))
                        =~= entry_jobs(source@, destination@, entries@.subrange(0, i as int)),
                decreases entries.len() - i,
            {
                let e = &entries[i];
                assert(entries@.subrange(0, i + 1).drop_last() =~= entries@.subrange(0, i as int));
                if e.is_file {
                    let job = CopyJob {
                        from: join(source.as_str(), e.name.as_str()),
                        to: join(destination.as_str(), e.name.as_str()),
                    };
                    r.push(job);
                }
                i = i + 1;
            }
            assert(entries@.subrange(0, entries@.len() as int) =~= entries@);
        },
    }
    r
}

/// The outcome of a copy given its source and whether each planned copy
/// succeeded.
pub fn copy_outcome(listing: &CopySource, results: &Vec<bool>) -> (r: Outcome)
    ensures
        listing is Unreadable ==> r == (Outcome::Failed { reason: Failure::SourceUnreadable }),
        !(listing is Unreadable) && count_failed(results@) == 0 ==> r == Outcome::Copied,
        !(listing is Unreadable) && count_failed(results@) > 0 ==> r == (Outcome::Failed {
            reason: Failure::Copy { failed: count_failed(results@) as usize },
        }),
{
    if let CopySource::Unreadable = listing {
        return Outcome::Failed { reason: Failure::SourceUnreadable };
    }
    let mut failed: usize = 0;
    let mut i: usize = 0;
    assert(results@.subrange(0, 0) =~= seq![]);
    while i < results.len()
        invariant
            i <= results@.len(),
            failed == count_failed(results@.subrange(0, i as int)),
            failed <= i,
        decreases results.len() - i,
    {
        assert(results@.subrange(0, i + 1).drop_last() =~= results@.subrange(0, i as int));
        if !results[i] {
            failed = failed + 1;
        }
        i = i + 1;
    }
    assert(results@.subrange(0, results@.len() as int) =~= results@);
    if failed == 0 {
        Outcome::Copied
    } else {
        Outcome::Failed { reason: Failure::Copy { failed } }
    }
}

/// A mapping whose destination resolved to the empty string is skipped: link
/// mode finishes before any filesystem action and copy mode plans no copy.
pub proof fn lemma_empty_destination_skipped(source: Seq<char>, listing: CopySource)
    ensures
        first_link_action(Seq::<char>::empty()) == finish(Outcome::Skipped),
        copy_jobs(source, Seq::<char>::empty(), listing) == Seq::<(Seq<char>, Seq<char>)>::empty(),
{
}

/// The number of regular files among directory entries.
pub open spec fn count_files(entries: Seq<DirEntryInfo>) -> nat
    decreases entries.len(),
{
    if entries.len() == 0 {
        0
    } else {
        count_files(entries.drop_last()) + if entries.last().is_file { 1nat } else { 0nat }
    }
}

/// Whether `job` copies one of the regular files among `entries`.
pub open spec fn from_some_file(
    source: Seq<char>,
    destination: Seq<char>,
    entries: Seq<DirEntryInfo>,
    job: (Seq<char>, Seq<char>),
) -> bool {
    exists|j: int|
        0 <= j < entries.len() && entries[j].is_file
            && job == (path_join(source, entries[j].name@), path_join(destination, entries[j].name@))
}

/// Copying a directory plans exactly one copy per regular file among its
/// direct entries, each named after that file; other entries are ignored.
pub proof fn lemma_copy_takes_files_only(source: Seq<char>, destination: Seq<char>, entries: Seq<DirEntryInfo>)
    ensures
        entry_jobs(source, destination, entries).len() == count_files(entries),
        forall|k: int| 0 <= k < entry_jobs(source, destination, entries).len()
            ==> from_some_file(source, destination, entries, #[trigger] entry_jobs(source, destination, entries)[k]),
    decreases entries.len(),
{
    if entries.len() > 0 {
        let prev = entries.drop_last();
        lemma_copy_takes_files_only(source, destination, prev);
        let prev_jobs = entry_jobs(source, destination, prev);
        let jobs = entry_jobs(source, destination, entries);
        assert forall|k: int| 0 <= k < jobs.len() implies from_some_file(source, destination, entries, #[trigger] jobs[k]) by {
            if k < prev_jobs.len() {
                assert(from_some_file(source, destination, prev, prev_jobs[k]));
                let j = choose|j: int| 0 <= j < prev.len() && prev[j].is_file
                    && prev_jobs[k] == (path_join(source, prev[j].name@), path_join(destination, prev[j].name@));
                assert(entries[j] == prev[j]);
                assert(jobs[k] == prev_jobs[k]);
            } else {
                let j = entries.len() - 1;
                assert(entries[j] == entries.last());
                assert(jobs[k] == (path_join(source, entries[j].name@), path_join(destination, entries[j].name@)));
            }
        }
    }
}

} // verus!
