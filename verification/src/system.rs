//! Decisions about the machine the launcher runs on: which disk holds a
//! path, whether a process runs, whether a patch tool succeeded, and the unit
//! sizes are shown in. Querying disks and processes is done by the caller.

use vstd::prelude::*;
use crate::paths::component_views;
use crate::text::{contains_seq, first_pos_of, find_char, str_contains, str_eq};

verus! {

/// A mounted disk: the components of its mount point, the length of the
/// mount point's text, and its free space.
#[derive(Debug, Clone, PartialEq, Eq)]
pub struct DiskInfo {
    pub mount_components: Vec<String>,
    pub mount_len: usize,
    pub available: u64,
}

/// Whether path `pre` is a leading part of path `path`, component by component.
pub open spec fn is_component_prefix(pre: Seq<Seq<char>>, path: Seq<Seq<char>>) -> bool {
    pre.len() <= path.len() && path.subrange(0, pre.len() as int) == pre
}

/// The disk that holds `path`: among the disks whose mount point leads the
/// path, the one with the longest mount point, the earliest listed among
/// equals; -1 when none does.
pub open spec fn holding_disk(disks: Seq<DiskInfo>, path: Seq<Seq<char>>) -> int
    decreases disks.len(),
{
    if disks.len() == 0 {
        -1
    } else {
        let b = holding_disk(disks.drop_last(), path);
        let d = disks.last();
        if is_component_prefix(component_views(d.mount_components@), path) && (b < 0 || d.mount_len > disks[b].mount_len) {
            disks.len() - 1
        } else {
            b
        }
    }
}

proof fn lemma_holding_disk_bounds(disks: Seq<DiskInfo>, path: Seq<Seq<char>>)
    ensures
        -1 <= holding_disk(disks, path) < disks.len(),
    decreases disks.len(),
{
    if disks.len() > 0 {
        lemma_holding_disk_bounds(disks.drop_last(), path);
    }
}

fn components_prefix(pre: &Vec<String>, path: &Vec<String>) -> (r: bool)
    ensures
        r == is_component_prefix(component_views(pre@), component_views(path@)),
{
    let m = pre.len();
    let n = path.len();
    if m > n {
        return false;
    }
    let mut i: usize = 0;
    while i < m
        invariant
            m == pre@.len(),
            n == path@.len(),
            m <= n,
            i <= m,
            forall|j: int| 0 <= j < i ==> pre@[j]@ == path@[j]@,
        decreases m - i,
    {
        if !str_eq(pre[i].as_str(), path[i].as_str()) {
            assert(component_views(path@).subrange(0, m as int)[i as int] != component_views(pre@)[i as int]);
            return false;
        }
        i += 1;
    }
    assert(component_views(path@).subrange(0, m as int) =~= component_views(pre@));
    true
}

/// Free space of the disk that holds the path with components `path`;
/// `None` when no mounted disk holds it.
pub fn available_space(path: &Vec<String>, disks: &Vec<DiskInfo>) -> (r: Option<u64>)
    ensures
        ({
            let b = holding_disk(disks@, component_views(path@));
            if b < 0 {
                r is None
            } else {
                r == Some(disks@[b].available)
            }
        }),
{
    let n = disks.len();
    let mut best: Option<usize> = None;
    let mut i: usize = 0;
    while i < n
        invariant
            n == disks@.len(),
            i <= n,
            match best {
                Some(b) => b < i && holding_disk(disks@.subrange(0, i as int), component_views(path@)) == b,
                None => holding_disk(disks@.subrange(0, i as int), component_views(path@)) == -1,
            },
        decreases n - i,
    {
        let ghost next = disks@.subrange(0, i + 1);
        assert(next.drop_last() =~= disks@.subrange(0, i as int));
        let d = &disks[i];
        if components_prefix(&d.mount_components, path) {
            match best {
                None => {
                    best = Some(i);
                },
                Some(b) => {
                    if d.mount_len > disks[b].mount_len {
                        best = Some(i);
                    }
                },
            }
        }
        i += 1;
    }
    assert(disks@.subrange(0, n as int) =~= disks@);
    match best {
        Some(b) => Some(disks[b].available),
        None => None,
    }
}

/// Whether one mounted disk holds both paths.
pub fn is_same_disk(path1: &Vec<String>, path2: &Vec<String>, disks: &Vec<DiskInfo>) -> (r: bool)
    ensures
        r == exists|i: int| 0 <= i < disks@.len()
            && is_component_prefix(component_views(#[trigger] disks@[i].mount_components@), component_views(path1@))
            && is_component_prefix(component_views(disks@[i].mount_components@), component_views(path2@)),
{
    let n = disks.len();
    let mut i: usize = 0;
    while i < n
        invariant
            n == disks@.len(),
            i <= n,
            forall|j: int| 0 <= j < i ==> !(is_component_prefix(component_views(#[trigger] disks@[j].mount_components@), component_views(path1@))
                && is_component_prefix(component_views(disks@[j].mount_components@), component_views(path2@))),
        decreases n - i,
    {
        if components_prefix(&disks[i].mount_components, path1) && components_prefix(&disks[i].mount_components, path2) {
            return true;
        }
        i += 1;
    }
    false
}

/// The disk chosen for a path holds it, and no disk that holds it has a
/// longer mount point.
pub proof fn law_holding_disk_is_deepest(disks: Seq<DiskInfo>, path: Seq<Seq<char>>)
    ensures
        ({
            let b = holding_disk(disks, path);
            &&& b >= 0 ==> is_component_prefix(component_views(disks[b].mount_components@), path)
            &&& b >= 0 ==> forall|j: int| 0 <= j < disks.len() && is_component_prefix(component_views(#[trigger] disks[j].mount_components@), path)
                ==> disks[j].mount_len <= disks[b].mount_len
            &&& b < 0 ==> forall|j: int| 0 <= j < disks.len() ==> !is_component_prefix(component_views(#[trigger] disks[j].mount_components@), path)
        }),
    decreases disks.len(),
{
    lemma_holding_disk_bounds(disks, path);
    if disks.len() > 0 {
        let prev = disks.drop_last();
        law_holding_disk_is_deepest(prev, path);
        lemma_holding_disk_bounds(prev, path);
        let b = holding_disk(disks, path);
        let pb = holding_disk(prev, path);
        if pb >= 0 {
            assert(prev[pb] == disks[pb]);
        }
        assert forall|j: int| 0 <= j < disks.len() - 1 implies #[trigger] disks[j] == prev[j] by {}
        if b >= 0 {
            assert forall|j: int| 0 <= j < disks.len() && is_component_prefix(component_views(#[trigger] disks[j].mount_components@), path)
                implies disks[j].mount_len <= disks[b].mount_len by {
                if j < disks.len() - 1 {
                    assert(disks[j] == prev[j]);
                }
            }
        } else {
            assert forall|j: int| 0 <= j < disks.len() implies !is_component_prefix(component_views(#[trigger] disks[j].mount_components@), path) by {
                if j < disks.len() - 1 {
                    assert(disks[j] == prev[j]);
                }
            }
        }
    }
}

/// The part of a process name before its first dot (all of it without one).
pub open spec fn name_stem(s: Seq<char>) -> Seq<char> {
    let p = first_pos_of(s, '.');
    if p < 0 {
        s
    } else {
        s.subrange(0, p)
    }
}

fn stem(s: &str) -> (r: &str)
    ensures
        r@ == name_stem(s@),
{
    proof {
        crate::text::lemma_first_pos_of_bounds(s@, '.');
    }
    match find_char(s, '.') {
        Some(p) => s.substring_char(0, p),
        None => s,
    }
}

/// Whether a running process named `actual` is the process `wanted`: the
/// stem of `actual` holds the stem of `wanted`.
pub fn process_matches(wanted: &str, actual: &str) -> (r: bool)
    ensures
        r == contains_seq(name_stem(actual@), name_stem(wanted@)),
{
    str_contains(stem(actual), stem(wanted))
}

/// Whether any of the running processes, named `running`, is `wanted`.
pub fn is_process_running(wanted: &str, running: &Vec<String>) -> (r: bool)
    ensures
        r == exists|i: int| 0 <= i < running@.len()
            && contains_seq(name_stem(#[trigger] running@[i]@), name_stem(wanted@)),
{
    let n = running.len();
    let mut i: usize = 0;
    while i < n
        invariant
            n == running@.len(),
            i <= n,
            forall|j: int| 0 <= j < i ==> !contains_seq(name_stem(#[trigger] running@[j]@), name_stem(wanted@)),
        decreases n - i,
    {
        if process_matches(wanted, running[i].as_str()) {
            return true;
        }
        i += 1;
    }
    false
}

/// Whether the output of the `hpatchz` tool reports success (it holds
/// `patch ok!`).
pub fn hpatchz_succeeded(stdout: &str) -> (r: bool)
    ensures
        r == contains_seq(stdout@, "patch ok!"@),
{
    str_contains(stdout, "patch ok!")
}

/// The unit a size is shown in.
#[derive(Debug, Clone, Copy, PartialEq, Eq, Structural)]
pub enum ByteUnit {
    Gigabytes,
    Megabytes,
    Kilobytes,
    Bytes,
}

/// The unit a size is shown in: the largest decimal unit the size exceeds.
pub fn byte_unit(bytes: u64) -> (r: ByteUnit)
    ensures
        r == (if bytes > 1_000_000_000 {
            ByteUnit::Gigabytes
        } else if bytes > 1_000_000 {
            ByteUnit::Megabytes
        } else if bytes > 1000 {
            ByteUnit::Kilobytes
        } else {
            ByteUnit::Bytes
        }),
{
    if bytes > 1_000_000_000 {
        ByteUnit::Gigabytes
    } else if bytes > 1_000_000 {
        ByteUnit::Megabytes
    } else if bytes > 1000 {
        ByteUnit::Kilobytes
    } else {
        ByteUnit::Bytes
    }
}

impl ByteUnit {
    /// Bytes in one of the unit.
    pub fn divisor(&self) -> (r: u64)
        ensures
            r == (match *self {
                ByteUnit::Gigabytes => 1_000_000_000u64,
                ByteUnit::Megabytes => 1_000_000u64,
                ByteUnit::Kilobytes => 1000u64,
                ByteUnit::Bytes => 1u64,
            }),
    {
        match self {
            ByteUnit::Gigabytes => 1_000_000_000,
            ByteUnit::Megabytes => 1_000_000,
            ByteUnit::Kilobytes => 1000,
            ByteUnit::Bytes => 1,
        }
    }

    /// The unit's symbol.
    pub fn label(&self) -> (r: &str)
        ensures
            r@ == (match *self {
                ByteUnit::Gigabytes => "GB"@,
                ByteUnit::Megabytes => "MB"@,
                ByteUnit::Kilobytes => "KB"@,
                ByteUnit::Bytes => "B"@,
            }),
    {
        match self {
            ByteUnit::Gigabytes => "GB",
            ByteUnit::Megabytes => "MB",
            ByteUnit::Kilobytes => "KB",
            ByteUnit::Bytes => "B",
        }
    }
}

} // verus!
