//! What the progress reports of downloads, patches and repairs say: the
//! amount shown and the phase a job is in.

use vstd::prelude::*;

verus! {

/// Phase codes sent with progress reports.
pub const PHASE_IDLE: u8 = 0;
pub const PHASE_VERIFYING: u8 = 1;
pub const PHASE_DOWNLOADING: u8 = 2;
pub const PHASE_INSTALLING: u8 = 3;
pub const PHASE_VALIDATING: u8 = 4;
pub const PHASE_MOVING: u8 = 5;

/// The downloaded amount shown: bytes already counted plus bytes in flight,
/// never more than the total.
pub fn shown_progress(counted: u64, in_flight: u64, total: u64) -> (r: u64)
    ensures
        r == (if counted + in_flight <= total { counted + in_flight } else { total as int }),
        r <= total,
{
    let s = counted.saturating_add(in_flight);
    if s <= total {
        s
    } else {
        total
    }
}

/// The phase of a full download or repair of chunked files: downloading
/// comes first, then final validation, then checking of present files.
pub fn download_phase(downloading: u64, validating: u64, verifying: u64) -> (r: u8)
    ensures
        r == (if downloading > 0 {
            PHASE_DOWNLOADING
        } else if validating > 0 {
            PHASE_VALIDATING
        } else if verifying > 0 {
            PHASE_VERIFYING
        } else {
            PHASE_IDLE
        }),
{
    if downloading > 0 {
        PHASE_DOWNLOADING
    } else if validating > 0 {
        PHASE_VALIDATING
    } else if verifying > 0 {
        PHASE_VERIFYING
    } else {
        PHASE_IDLE
    }
}

/// The phase of a patch: downloading, then installing, then validation, then
/// checking of present files.
pub fn patch_phase(downloading: u64, installing: u64, validating: u64, verifying: u64) -> (r: u8)
    ensures
        r == (if downloading > 0 {
            PHASE_DOWNLOADING
        } else if installing > 0 {
            PHASE_INSTALLING
        } else if validating > 0 {
            PHASE_VALIDATING
        } else if verifying > 0 {
            PHASE_VERIFYING
        } else {
            PHASE_IDLE
        }),
{
    if downloading > 0 {
        PHASE_DOWNLOADING
    } else if installing > 0 {
        PHASE_INSTALLING
    } else if validating > 0 {
        PHASE_VALIDATING
    } else if verifying > 0 {
        PHASE_VERIFYING
    } else {
        PHASE_IDLE
    }
}

/// The phase of a whole-file download or repair: downloading, then checking
/// (reported as validation).
pub fn file_download_phase(downloading: u64, verifying: u64) -> (r: u8)
    ensures
        r == (if downloading > 0 {
            PHASE_DOWNLOADING
        } else if verifying > 0 {
            PHASE_VALIDATING
        } else {
            PHASE_IDLE
        }),
{
    if downloading > 0 {
        PHASE_DOWNLOADING
    } else if verifying > 0 {
        PHASE_VALIDATING
    } else {
        PHASE_IDLE
    }
}

/// Bytes of a partly present file that count as downloaded before it is
/// checked: its length on disk, at most the expected size.
pub fn present_bytes(on_disk: Option<u64>, expected: u64) -> (r: u64)
    ensures
        r == (match on_disk {
            Some(l) => if l < expected { l } else { expected },
            None => 0,
        }),
        r <= expected,
{
    match on_disk {
        Some(l) => if l < expected { l } else { expected },
        None => 0,
    }
}

/// Progress of an extraction that has reached `done` bytes since the last
/// report at `last`: the new bytes to credit.
pub fn credited_delta(done: u64, last: u64) -> (r: u64)
    ensures
        r == (if done >= last { done - last } else { 0 }),
{
    done.saturating_sub(last)
}

/// The amount shown never exceeds the total, and grows with the amounts
/// counted.
pub proof fn law_shown_progress_monotone(c1: u64, f1: u64, c2: u64, f2: u64, total: u64)
    requires
        c1 + f1 <= c2 + f2,
    ensures
        ({
            let s1 = if c1 + f1 <= total { c1 + f1 } else { total as int };
            let s2 = if c2 + f2 <= total { c2 + f2 } else { total as int };
            s1 <= s2 && s2 <= total
        }),
{
}

} // verus!
