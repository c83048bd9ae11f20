//! Which stored files have outlived the time they are kept.

use vstd::prelude::*;

verus! {

/// The time of a file by which its age is told.
#[derive(Debug, Clone, Copy, PartialEq, Eq, Structural)]
pub enum FileMetric {
    /// When the file was last read.
    Accessed,
    /// When it was last written.
    Modified,
    /// When it was created.
    Created,
}

/// The times that the storage records for a file, each in nanoseconds since
/// the Unix epoch, or missing where the storage does not record it.
#[derive(Debug, Clone, Copy)]
pub struct FileTimes {
    pub accessed: Option<i128>,
    pub modified: Option<i128>,
    pub created: Option<i128>,
}

/// An entry of the storage directory, as far as it could be read.
#[derive(Debug, Clone, Copy)]
pub struct Entry {
    /// Whether the entry is a regular file.
    pub is_file: bool,
    /// The times recorded for it.
    pub times: FileTimes,
}

/// What becomes of an entry when the storage is cleaned.
#[derive(Debug, Clone, Copy, PartialEq, Eq, Structural)]
pub enum Judgement {
    /// It is no regular file: it is left alone.
    NotAFile,
    /// The time asked for is not recorded: it is left alone.
    NoTime,
    /// It is young enough to stay.
    Keep,
    /// It has outlived its time and is removed.
    Remove,
}

/// The farthest that an instant may lie from the epoch, in nanoseconds.
pub const MAX_INSTANT: i128 = 0x1_0000_0000_0000_0000_0000_0000;

/// The time of a file that `metric` asks for.
pub open spec fn time_by(metric: FileMetric, times: FileTimes) -> Option<i128> {
    match metric {
        FileMetric::Accessed => times.accessed,
        FileMetric::Modified => times.modified,
        FileMetric::Created => times.created,
    }
}

/// Whether a file of time `file_time` is older than `max_age` at `now`.
pub open spec fn expired(now: int, max_age: int, file_time: int) -> bool {
    now - max_age > file_time
}

/// What becomes of `entry` at `now`, where files stay for `max_age` by
/// `metric`.
pub open spec fn judged(metric: FileMetric, entry: Entry, now: int, max_age: int) -> Judgement {
    if !entry.is_file {
        Judgement::NotAFile
    } else {
        match time_by(metric, entry.times) {
            None => Judgement::NoTime,
            Some(file_time) => if expired(now, max_age, file_time as int) {
                Judgement::Remove
            } else {
                Judgement::Keep
            },
        }
    }
}

impl FileMetric {
    /// The time of a file that this metric asks for.
    pub fn extract(&self, times: &FileTimes) -> (time: Option<i128>)
        ensures
            time == time_by(*self, *times),
    {
        match self {
            FileMetric::Accessed => times.accessed,
            FileMetric::Modified => times.modified,
            FileMetric::Created => times.created,
        }
    }
}

/// Whether a file of time `file_time` is older than `max_age` at `now`.
pub fn is_expired(now: i128, max_age: i128, file_time: i128) -> (stale: bool)
    requires
        -MAX_INSTANT <= now <= MAX_INSTANT,
        0 <= max_age <= MAX_INSTANT,
    ensures
        stale == expired(now as int, max_age as int, file_time as int),
{
    now - max_age > file_time
}

/// Decides what becomes of an entry of the storage directory.
pub fn judge(metric: FileMetric, entry: &Entry, now: i128, max_age: i128) -> (judgement: Judgement)
    requires
        -MAX_INSTANT <= now <= MAX_INSTANT,
        0 <= max_age <= MAX_INSTANT,
    ensures
        judgement == judged(metric, *entry, now as int, max_age as int),
{
    if !entry.is_file {
        return Judgement::NotAFile;
    }
    match metric.extract(&entry.times) {
        None => Judgement::NoTime,
        Some(file_time) => if is_expired(now, max_age, file_time) {
            Judgement::Remove
        } else {
            Judgement::Keep
        },
    }
}

} // verus!
