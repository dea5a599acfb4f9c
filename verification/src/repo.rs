//! What the repository operations report, and how their requests and
//! results are shaped.

use vstd::prelude::*;
use crate::text::{chars_of, join, join_strings, string_of, views};
use crate::profile::RetentionPolicy;

verus! {

/// Summary of a completed backup.
#[derive(Clone, Debug)]
pub struct BackupSummary {
    pub snapshot_id: String,
    pub files_new: u64,
    pub files_changed: u64,
    pub files_unmodified: u64,
    pub data_added: u64,
    pub total_bytes_processed: u64,
}

/// The counts that a snapshot's summary holds.
#[derive(Clone, Copy, PartialEq, Eq, Structural)]
pub struct SummaryCounts {
    pub files_new: u64,
    pub files_changed: u64,
    pub files_unmodified: u64,
    pub data_added: u64,
    pub total_bytes_processed: u64,
}

/// Summary of a forget and prune operation.
#[derive(Clone, Copy, Debug, PartialEq, Eq, Structural)]
pub struct ForgetPruneSummary {
    pub snapshots_removed: usize,
    pub snapshots_kept: usize,
}

/// Information about a snapshot for display.
#[derive(Clone, Debug)]
pub struct SnapshotInfo {
    pub id: String,
    pub short_id: String,
    pub time: String,
    pub hostname: String,
    pub paths: Vec<String>,
    pub tags: Vec<String>,
    pub summary_size: Option<u64>,
}

/// Repository information for the settings screen.
#[derive(Clone, Copy, Debug, PartialEq, Eq, Structural)]
pub struct RepoInfo {
    pub snapshot_count: usize,
}

/// The first eight characters of a snapshot id, or all of it when it is
/// shorter.
pub open spec fn short_id_of(id: Seq<char>) -> Seq<char> {
    if id.len() >= 8 {
        id.take(8)
    } else {
        id
    }
}

/// The short form of a snapshot id shown in lists. Snapshot ids are
/// written in hexadecimal, so their characters and their bytes agree.
pub fn short_id(id: &str) -> (res: String)
    ensures
        res@ == short_id_of(id@),
{
    let c = chars_of(id);
    if c.len() >= 8 {
        string_of(&c.as_slice()[0..8])
    } else {
        id.to_string()
    }
}

impl SnapshotInfo {
    /// The display record of a snapshot from what the repository stores of
    /// it: its id, time, host, paths, tags and, when it has a summary, the
    /// bytes it processed.
    pub fn new(
        id: String,
        time: String,
        hostname: String,
        paths: Vec<String>,
        tags: Vec<String>,
        summary_size: Option<u64>,
    ) -> (res: SnapshotInfo)
        ensures
            res.id == id,
            res.short_id@ == short_id_of(id@),
            res.time == time,
            res.hostname == hostname,
            res.paths == paths,
            res.tags == tags,
            res.summary_size == summary_size,
    {
        let short = short_id(id.as_str());
        SnapshotInfo { id, short_id: short, time, hostname, paths, tags, summary_size }
    }
}

impl BackupSummary {
    /// The summary of a backup from the new snapshot's id and the counts of
    /// its summary; counts that the snapshot lacks are 0.
    pub fn from_counts(snapshot_id: String, counts: Option<SummaryCounts>) -> (res: BackupSummary)
        ensures
            res.snapshot_id == snapshot_id,
            match counts {
                Some(c) => res.files_new == c.files_new && res.files_changed == c.files_changed
                    && res.files_unmodified == c.files_unmodified && res.data_added
                    == c.data_added && res.total_bytes_processed == c.total_bytes_processed,
                None => res.files_new == 0 && res.files_changed == 0 && res.files_unmodified
                    == 0 && res.data_added == 0 && res.total_bytes_processed == 0,
            },
    {
        match counts {
            Some(c) => BackupSummary {
                snapshot_id,
                files_new: c.files_new,
                files_changed: c.files_changed,
                files_unmodified: c.files_unmodified,
                data_added: c.data_added,
                total_bytes_processed: c.total_bytes_processed,
            },
            None => BackupSummary {
                snapshot_id,
                files_new: 0,
                files_changed: 0,
                files_unmodified: 0,
                data_added: 0,
                total_bytes_processed: 0,
            },
        }
    }
}

impl ForgetPruneSummary {
    /// Of `total` snapshots, `removed` were forgotten and the rest kept.
    pub fn from_counts(total: usize, removed: usize) -> (res: ForgetPruneSummary)
        requires
            removed <= total,
        ensures
            res.snapshots_removed == removed,
            res.snapshots_kept == total - removed,
    {
        ForgetPruneSummary { snapshots_removed: removed, snapshots_kept: total - removed }
    }
}

/// The keep counts handed to the repository's forget step, as its signed
/// counts: each count that is set, cast to `i32`.
#[derive(Clone, Copy, PartialEq, Eq, Structural)]
pub struct KeepCounts {
    pub last: Option<i32>,
    pub daily: Option<i32>,
    pub weekly: Option<i32>,
    pub monthly: Option<i32>,
}

/// A count cast to the repository's signed count, as `n as i32` does.
pub open spec fn signed_count(n: Option<u32>) -> Option<i32> {
    match n {
        Some(k) => Some(k as i32),
        None => None,
    }
}

fn to_signed(n: Option<u32>) -> (res: Option<i32>)
    ensures
        res == signed_count(n),
{
    match n {
        Some(k) => Some(k as i32),
        None => None,
    }
}

/// The keep counts of a retention policy, as the forget step takes them.
pub fn keep_counts(policy: &RetentionPolicy) -> (res: KeepCounts)
    ensures
        res.last == signed_count(policy.keep_last),
        res.daily == signed_count(policy.keep_daily),
        res.weekly == signed_count(policy.keep_weekly),
        res.monthly == signed_count(policy.keep_monthly),
{
    KeepCounts {
        last: to_signed(policy.keep_last),
        daily: to_signed(policy.keep_daily),
        weekly: to_signed(policy.keep_weekly),
        monthly: to_signed(policy.keep_monthly),
    }
}

/// What a backup run hands to the repository: the source list, the tags
/// to add (none when there are no tags) and the host to record.
pub struct BackupPlan {
    pub sources: String,
    pub tags: Option<String>,
    pub host: Option<String>,
}

/// Shapes a backup request: the sources joined with commas, the tags
/// joined with commas when there are any, and the host name if one is
/// known.
pub fn backup_plan(paths: &Vec<String>, tags: &Vec<String>, host: Option<String>) -> (res:
    BackupPlan)
    ensures
        res.sources@ == join(views(paths@), seq![',']),
        match res.tags {
            Some(t) => t@ == join(views(tags@), seq![',']) && t@.len() > 0,
            None => join(views(tags@), seq![',']).len() == 0,
        },
        res.host == host,
{
    proof {
        reveal_strlit(",");
        assert(","@ =~= seq![',']);
    }
    let sources = join_strings(paths, ",");
    let joined = join_strings(tags, ",");
    let tags_text = if joined.unicode_len() == 0 {
        None
    } else {
        Some(joined)
    };
    BackupPlan { sources, tags: tags_text, host }
}

} // verus!
