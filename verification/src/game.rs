//! The layout the game installers share below a game directory: the working
//! directory of a download, repair or patch, the leftovers of the other jobs
//! that are cleared before it starts, and where chunks and staged files go.
//! Creating and removing the directories is done by the caller.

use vstd::prelude::*;
use crate::paths::component_views;
use crate::system::is_component_prefix;

verus! {

/// The game installers (single archives, Kuro and Yostar resource lists,
/// Sophon manifests) work on this type.
#[derive(Debug, Clone, Copy, PartialEq, Eq, Structural)]
pub struct Game;

/// The job a working directory belongs to.
#[derive(Debug, Clone, Copy, PartialEq, Eq, Structural)]
pub enum Job {
    Download,
    Repair,
    Patch,
}

/// The name of a job's working directory.
pub open spec fn job_dir(job: Job) -> Seq<char> {
    match job {
        Job::Download => "downloading"@,
        Job::Repair => "repairing"@,
        Job::Patch => "patching"@,
    }
}

/// The two other jobs, in the order download, repair, patch.
pub open spec fn other_jobs(job: Job) -> Seq<Job> {
    match job {
        Job::Download => seq![Job::Repair, Job::Patch],
        Job::Repair => seq![Job::Download, Job::Patch],
        Job::Patch => seq![Job::Download, Job::Repair],
    }
}

/// Where the leftover of job `other` lies when `job` runs: below the game
/// directory, or below `job`'s own working directory when `inside`.
pub open spec fn leftover_path(job: Job, other: Job, inside: bool) -> Seq<Seq<char>> {
    if inside {
        seq![job_dir(job), job_dir(other)]
    } else {
        seq![job_dir(other)]
    }
}

/// The directories that are removed before `job` runs.
pub open spec fn stale_paths(job: Job, inside: bool) -> Seq<Seq<Seq<char>>> {
    seq![
        leftover_path(job, other_jobs(job)[0], inside),
        leftover_path(job, other_jobs(job)[1], inside),
    ]
}

/// Directories below a game directory, each given by its path components.
#[derive(Debug, Clone)]
pub struct WorkLayout {
    /// The working directory of the job.
    pub work: Vec<String>,
    /// The leftovers of other jobs, removed before the job starts.
    pub stale: Vec<Vec<String>>,
    /// Where finished files wait until they are moved into the game.
    pub staging: Vec<String>,
    /// Where downloaded chunks are kept.
    pub chunks: Vec<String>,
}

impl Job {
    /// The name of the job's working directory.
    pub fn dir_name(&self) -> (r: &'static str)
        ensures
            r@ == job_dir(*self),
    {
        match self {
            Job::Download => "downloading",
            Job::Repair => "repairing",
            Job::Patch => "patching",
        }
    }
}

/// The job of a single-archive download: patching when asked for, else
/// repairing when asked for, else downloading.
pub fn job_of(use_patching_structure: bool, use_repair_structure: bool) -> (r: Job)
    ensures
        r == (if use_patching_structure {
            Job::Patch
        } else if use_repair_structure {
            Job::Repair
        } else {
            Job::Download
        }),
{
    if use_patching_structure {
        Job::Patch
    } else if use_repair_structure {
        Job::Repair
    } else {
        Job::Download
    }
}

fn path_of(first: &str, second: Option<&str>) -> (r: Vec<String>)
    ensures
        component_views(r@) == (match second {
            Some(s) => seq![first@, s@],
            None => seq![first@],
        }),
{
    let mut v: Vec<String> = Vec::new();
    v.push(String::from_str(first));
    match second {
        Some(s) => {
            v.push(String::from_str(s));
            assert(component_views(v@) =~= seq![first@, s@]);
        },
        None => {
            assert(component_views(v@) =~= seq![first@]);
        },
    }
    v
}

fn leftover(job: Job, other: Job, inside: bool) -> (r: Vec<String>)
    ensures
        component_views(r@) == leftover_path(job, other, inside),
{
    if inside {
        path_of(job.dir_name(), Some(other.dir_name()))
    } else {
        path_of(other.dir_name(), None)
    }
}

fn others(job: Job) -> (r: (Job, Job))
    ensures
        r.0 == other_jobs(job)[0],
        r.1 == other_jobs(job)[1],
{
    match job {
        Job::Download => (Job::Repair, Job::Patch),
        Job::Repair => (Job::Download, Job::Patch),
        Job::Patch => (Job::Download, Job::Repair),
    }
}

/// The layout of `job`: its working directory, the leftovers of the other
/// two jobs (inside the working directory when `stale_inside_work`, as the
/// Sophon patch and repair have it), and its `staging` and `chunk`
/// directories.
pub fn work_layout(job: Job, stale_inside_work: bool) -> (r: WorkLayout)
    ensures
        component_views(r.work@) == seq![job_dir(job)],
        component_views(r.staging@) == seq![job_dir(job), "staging"@],
        component_views(r.chunks@) == seq![job_dir(job), "chunk"@],
        r.stale@.len() == 2,
        forall|i: int| 0 <= i < 2 ==> component_views(#[trigger] r.stale@[i]@) == stale_paths(job, stale_inside_work)[i],
{
    let (a, b) = others(job);
    let mut stale: Vec<Vec<String>> = Vec::new();
    stale.push(leftover(job, a, stale_inside_work));
    stale.push(leftover(job, b, stale_inside_work));
    WorkLayout {
        work: path_of(job.dir_name(), None),
        stale,
        staging: path_of(job.dir_name(), Some("staging")),
        chunks: path_of(job.dir_name(), Some("chunk")),
    }
}

/// Clearing the leftovers never removes the job's own working, staging or
/// chunk directory: no leftover path is a prefix of any of them.
pub proof fn law_leftovers_spare_work(job: Job, inside: bool)
    ensures
        forall|i: int| 0 <= i < 2 ==> {
            let s = #[trigger] stale_paths(job, inside)[i];
            &&& !is_component_prefix(s, seq![job_dir(job)])
            &&& !is_component_prefix(s, seq![job_dir(job), "staging"@])
            &&& !is_component_prefix(s, seq![job_dir(job), "chunk"@])
        },
{
    reveal_strlit("downloading");
    reveal_strlit("repairing");
    reveal_strlit("patching");
    reveal_strlit("staging");
    reveal_strlit("chunk");
    assert("downloading"@[0] != "repairing"@[0]);
    assert("downloading"@[0] != "patching"@[0]);
    assert("repairing"@[0] != "patching"@[0]);
    assert("staging"@.len() != "downloading"@.len());
    assert("staging"@.len() != "repairing"@.len());
    assert("staging"@.len() != "patching"@.len());
    assert("chunk"@.len() != "downloading"@.len());
    assert("chunk"@.len() != "repairing"@.len());
    assert("chunk"@.len() != "patching"@.len());
    assert forall|i: int| 0 <= i < 2 implies {
        let s = #[trigger] stale_paths(job, inside)[i];
        &&& !is_component_prefix(s, seq![job_dir(job)])
        &&& !is_component_prefix(s, seq![job_dir(job), "staging"@])
        &&& !is_component_prefix(s, seq![job_dir(job), "chunk"@])
    } by {
        let o = other_jobs(job)[i];
        assert(job_dir(o) != job_dir(job));
        let s = stale_paths(job, inside)[i];
        if inside {
            assert(s[1] == job_dir(o));
            assert(job_dir(o) != "staging"@);
            assert(job_dir(o) != "chunk"@);
        } else {
            assert(s[0] == job_dir(o));
        }
    }
}

} // verus!
