//! Backup profiles and their retention policies.

use vstd::prelude::*;
use crate::text::{
    copy_strings, decimal, decimal_string, join, join_strings, lemma_text_le_transitive,
    lemma_text_lt_asymmetric, text_less, text_lt, views,
};
use crate::paths::{join_path, path_join};

verus! {

/// How many snapshots of each kind to keep when old ones are forgotten.
#[derive(Clone, Copy, Debug, PartialEq, Eq, Structural)]
pub struct RetentionPolicy {
    pub keep_last: Option<u32>,
    pub keep_daily: Option<u32>,
    pub keep_weekly: Option<u32>,
    pub keep_monthly: Option<u32>,
}

/// A count, or 0 when it is not set.
pub open spec fn count_or_zero(n: Option<u32>) -> int {
    match n {
        Some(k) => k as int,
        None => 0,
    }
}

/// One part of the policy summary, present when its count is set.
pub open spec fn summary_part(n: Option<u32>, label: Seq<char>) -> Seq<Seq<char>> {
    match n {
        Some(k) => seq![decimal(k as nat) + label],
        None => seq![],
    }
}

fn push_part(parts: &mut Vec<String>, n: Option<u32>, label: &str)
    ensures
        views(final(parts)@) == views(old(parts)@) + summary_part(n, label@),
{
    if let Some(k) = n {
        let mut s = decimal_string(k as u64);
        s.append(label);
        parts.push(s);
        assert(views(final(parts)@) =~= views(old(parts)@) + summary_part(n, label@));
    } else {
        assert(views(final(parts)@) =~= views(old(parts)@) + summary_part(n, label@));
    }
}

impl RetentionPolicy {
    /// The number of snapshots that the policy is estimated to keep.
    pub open spec fn spec_count(&self) -> int {
        count_or_zero(self.keep_last) + count_or_zero(self.keep_daily) + count_or_zero(
            self.keep_weekly,
        ) + count_or_zero(self.keep_monthly)
    }

    /// The parts of the summary, one for each count that is set, in the
    /// order last, daily, weekly, monthly.
    pub open spec fn summary_parts(&self) -> Seq<Seq<char>> {
        summary_part(self.keep_last, " most recent"@) + summary_part(self.keep_daily, " daily"@)
            + summary_part(self.keep_weekly, " weekly"@) + summary_part(
            self.keep_monthly,
            " monthly"@,
        )
    }

    /// The text that describes the policy.
    pub open spec fn summary_text(&self) -> Seq<char> {
        if self.summary_parts().len() == 0 {
            "No retention policy set"@
        } else {
            "Keep ~"@ + decimal(self.spec_count() as nat) + " snapshots: "@ + join(
                self.summary_parts(),
                " + "@,
            )
        }
    }

    /// Estimate the approximate number of snapshots this policy will keep:
    /// the sum of the counts that are set.
    pub fn estimated_count(&self) -> (res: u32)
        requires
            self.spec_count() <= u32::MAX,
        ensures
            res == self.spec_count(),
    {
        let a: u32 = match self.keep_last {
            Some(n) => n,
            None => 0,
        };
        let b: u32 = match self.keep_daily {
            Some(n) => n,
            None => 0,
        };
        let c: u32 = match self.keep_weekly {
            Some(n) => n,
            None => 0,
        };
        let d: u32 = match self.keep_monthly {
            Some(n) => n,
            None => 0,
        };
        a + b + c + d
    }

    /// A one line description of the policy, such as
    /// `Keep ~28 snapshots: 5 most recent + 7 daily + 4 weekly + 12 monthly`.
    pub fn summary(&self) -> (res: String)
        requires
            self.spec_count() <= u32::MAX,
        ensures
            res@ == self.summary_text(),
    {
        let mut parts: Vec<String> = Vec::new();
        push_part(&mut parts, self.keep_last, " most recent");
        push_part(&mut parts, self.keep_daily, " daily");
        push_part(&mut parts, self.keep_weekly, " weekly");
        push_part(&mut parts, self.keep_monthly, " monthly");
        assert(views(parts@) =~= self.summary_parts());
        if parts.len() == 0 {
            "No retention policy set".to_string()
        } else {
            let mut s = "Keep ~".to_string();
            let count = decimal_string(self.estimated_count() as u64);
            s.append(count.as_str());
            s.append(" snapshots: ");
            let joined = join_strings(&parts, " + ");
            s.append(joined.as_str());
            s
        }
    }
}

impl Default for RetentionPolicy {
    /// 5 most recent, 7 daily, 4 weekly and 12 monthly snapshots.
    fn default() -> (res: RetentionPolicy)
        ensures
            res.keep_last == Some(5u32),
            res.keep_daily == Some(7u32),
            res.keep_weekly == Some(4u32),
            res.keep_monthly == Some(12u32),
    {
        RetentionPolicy {
            keep_last: Some(5),
            keep_daily: Some(7),
            keep_weekly: Some(4),
            keep_monthly: Some(12),
        }
    }
}


/// A point in time: seconds since the Unix epoch and the nanoseconds within
/// that second.
#[derive(Clone, Copy, Debug, PartialEq, Eq, Structural)]
pub struct Timestamp {
    pub secs: i64,
    pub nanos: u32,
}

/// A lower case hexadecimal digit.
pub open spec fn is_lower_hex(c: char) -> bool {
    ('0' <= c <= '9') || ('a' <= c <= 'f')
}

/// The hyphenated text of a random (version 4) UUID: 36 characters, hyphens
/// at 8, 13, 18 and 23, lower case hexadecimal digits elsewhere, and the
/// version digit `4` at 14.
pub open spec fn is_uuid_v4_text(s: Seq<char>) -> bool {
    &&& s.len() == 36
    &&& forall|i: int|
        0 <= i < 36 ==> if i == 8 || i == 13 || i == 18 || i == 23 {
            #[trigger] s[i] == '-'
        } else {
            is_lower_hex(s[i])
        }
    &&& s[14] == '4'
}

/// Calls `uuid::Uuid::new_v4` and formats the result with its `Display`
/// impl. The value is random; what every outcome has in common is the
/// hyphenated lower case form that `Display` writes and the version digit.
#[verifier::external_body]
fn new_profile_id() -> (res: String)
    ensures
        is_uuid_v4_text(res@),
{
    uuid::Uuid::new_v4().to_string()
}

/// The exclude patterns of a new profile.
pub open spec fn default_excludes() -> Seq<Seq<char>> {
    seq!["node_modules"@, ".cache"@, "__pycache__"@, "*.tmp"@, ".git"@]
}

/// A backup profile: what to back up, what to leave out, how to tag the
/// snapshots and how many to keep.
#[derive(Clone, Debug)]
pub struct Profile {
    pub id: String,
    pub name: String,
    pub paths: Vec<String>,
    pub excludes: Vec<String>,
    pub tags: Vec<String>,
    pub retention: RetentionPolicy,
    pub last_backup: Option<Timestamp>,
}

/// What a profile holds, as plain values.
pub struct ProfileView {
    pub id: Seq<char>,
    pub name: Seq<char>,
    pub paths: Seq<Seq<char>>,
    pub excludes: Seq<Seq<char>>,
    pub tags: Seq<Seq<char>>,
    pub retention: RetentionPolicy,
    pub last_backup: Option<Timestamp>,
}

impl View for Profile {
    type V = ProfileView;

    open spec fn view(&self) -> ProfileView {
        ProfileView {
            id: self.id@,
            name: self.name@,
            paths: views(self.paths@),
            excludes: views(self.excludes@),
            tags: views(self.tags@),
            retention: self.retention,
            last_backup: self.last_backup,
        }
    }
}

/// The file name that a profile with the given id is stored under.
pub open spec fn profile_file_name(id: Seq<char>) -> Seq<char> {
    id + ".json"@
}

impl Profile {
    /// Field by field copy.
    pub fn duplicate(&self) -> (res: Profile)
        ensures
            res@ == self@,
    {
        Profile {
            id: self.id.clone(),
            name: self.name.clone(),
            paths: copy_strings(&self.paths),
            excludes: copy_strings(&self.excludes),
            tags: copy_strings(&self.tags),
            retention: self.retention,
            last_backup: self.last_backup,
        }
    }

    /// A new profile with a fresh random id, no folders, the common exclude
    /// patterns, no tags and the default retention policy.
    pub fn new(name: String) -> (res: Profile)
        ensures
            is_uuid_v4_text(res.id@),
            res.name == name,
            res.paths@.len() == 0,
            views(res.excludes@) == default_excludes(),
            res.tags@.len() == 0,
            res.retention.keep_last == Some(5u32),
            res.retention.keep_daily == Some(7u32),
            res.retention.keep_weekly == Some(4u32),
            res.retention.keep_monthly == Some(12u32),
            res.last_backup.is_none(),
    {
        let mut excludes: Vec<String> = Vec::new();
        excludes.push("node_modules".to_string());
        excludes.push(".cache".to_string());
        excludes.push("__pycache__".to_string());
        excludes.push("*.tmp".to_string());
        excludes.push(".git".to_string());
        assert(views(excludes@) =~= default_excludes());
        Profile {
            id: new_profile_id(),
            name,
            paths: Vec::new(),
            excludes,
            tags: Vec::new(),
            retention: RetentionPolicy::default(),
            last_backup: None,
        }
    }

    /// The file that the profile with id `id` is stored in, inside
    /// `profiles_dir`.
    pub fn file_path(profiles_dir: &str, id: &str) -> (res: String)
        ensures
            res@ == path_join(profiles_dir@, profile_file_name(id@)),
    {
        let mut name = id.to_string();
        name.append(".json");
        join_path(profiles_dir, name.as_str())
    }
}


/// The views of a list of profiles.
pub open spec fn profile_views(ps: Seq<Profile>) -> Seq<ProfileView> {
    ps.map_values(|p: Profile| p@)
}

/// The profiles are in order of their names.
pub open spec fn sorted_by_name(ps: Seq<ProfileView>) -> bool {
    forall|i: int, j: int|
        0 <= i < j < ps.len() ==> !text_lt(#[trigger] ps[j].name, #[trigger] ps[i].name)
}

/// The profiles named `n`, in the order they come in `ps`.
pub open spec fn with_name(ps: Seq<ProfileView>, n: Seq<char>) -> Seq<ProfileView>
    decreases ps.len(),
{
    if ps.len() == 0 {
        seq![]
    } else {
        let r = with_name(ps.drop_last(), n);
        if ps.last().name == n {
            r.push(ps.last())
        } else {
            r
        }
    }
}

proof fn lemma_with_name_insert(s: Seq<ProfileView>, pos: int, x: ProfileView, n: Seq<char>)
    requires
        0 <= pos <= s.len(),
        forall|j: int| pos <= j < s.len() ==> #[trigger] s[j].name != x.name,
    ensures
        with_name(s.insert(pos, x), n) == if x.name == n {
            with_name(s, n).push(x)
        } else {
            with_name(s, n)
        },
    decreases s.len(),
{
    if pos == s.len() {
        assert(s.insert(pos, x) =~= s.push(x));
        assert(s.push(x).drop_last() =~= s);
    } else {
        let d = s.drop_last();
        lemma_with_name_insert(d, pos, x, n);
        assert(s.insert(pos, x) =~= d.insert(pos, x).push(s.last()));
        assert(d.insert(pos, x).push(s.last()).drop_last() =~= d.insert(pos, x));
        assert(s.last().name != x.name);
    }
}

/// Orders profiles by name (as `str` orders text), keeping every profile;
/// profiles with the same name stay in the order they came in.
pub fn sort_by_name(profiles: Vec<Profile>) -> (res: Vec<Profile>)
    ensures
        sorted_by_name(profile_views(res@)),
        profile_views(res@).to_multiset() == profile_views(profiles@).to_multiset(),
        forall|n: Seq<char>| #[trigger] with_name(profile_views(res@), n) == with_name(
            profile_views(profiles@),
            n,
        ),
{
    broadcast use vstd::seq_lib::group_to_multiset_ensures;

    let mut input = profiles;
    let ghost orig = profile_views(input@);
    let mut out: Vec<Profile> = Vec::new();
    let n = input.len();
    let mut k: usize = 0;
    while k < n
        invariant
            n == orig.len(),
            input@.len() == n,
            profile_views(input@) == orig,
            k <= n,
            sorted_by_name(profile_views(out@)),
            profile_views(out@).to_multiset() == orig.take(k as int).to_multiset(),
            forall|m: Seq<char>| #[trigger] with_name(profile_views(out@), m) == with_name(
                orig.take(k as int),
                m,
            ),
        decreases n - k,
    {
        let p = input[k].duplicate();
        let ghost pv = p@;
        let mut pos: usize = out.len();
        while pos > 0 && text_less(p.name.as_str(), out[pos - 1].name.as_str())
            invariant
                pos <= out@.len(),
                pv == p@,
                forall|j: int| pos <= j < out@.len() ==> text_lt(pv.name, #[trigger] out@[j]@.name),
            decreases pos,
        {
            pos = pos - 1;
        }
        let ghost before = profile_views(out@);
        out.insert(pos, p);
        proof {
            assert(profile_views(out@) =~= before.insert(pos as int, pv));
            assert(orig.take(k + 1) =~= orig.take(k as int).push(pv));
            vstd::seq_lib::to_multiset_insert(before, pos as int, pv);
            vstd::seq_lib::to_multiset_build(orig.take(k as int), pv);
            assert forall|j: int| pos <= j < before.len() implies #[trigger] before[j].name
                != pv.name by {
                assert(text_lt(pv.name, out@[j + 1]@.name));
                lemma_text_lt_asymmetric(pv.name, pv.name);
            }
            assert forall|m: Seq<char>| #[trigger] with_name(profile_views(out@), m) == with_name(
                orig.take(k + 1),
                m,
            ) by {
                lemma_with_name_insert(before, pos as int, pv, m);
                assert(orig.take(k + 1).drop_last() =~= orig.take(k as int));
            }
            let after = profile_views(out@);
            assert forall|i: int, j: int| 0 <= i < j < after.len() implies !text_lt(
                #[trigger] after[j].name,
                #[trigger] after[i].name,
            ) by {
                if j < pos {
                    assert(after[i] == before[i] && after[j] == before[j]);
                } else if j == pos {
                    assert(after[i] == before[i]);
                    if pos > 0 {
                        assert(!text_lt(pv.name, before[pos - 1].name));
                        if i < pos - 1 {
                            assert(!text_lt(before[pos - 1].name, before[i].name));
                            lemma_text_le_transitive(before[i].name, before[pos - 1].name, pv.name);
                        }
                    }
                } else if i == pos {
                    assert(after[j] == before[j - 1]);
                    assert(text_lt(pv.name, before[j - 1].name));
                    lemma_text_lt_asymmetric(pv.name, before[j - 1].name);
                } else if i < pos {
                    assert(after[i] == before[i] && after[j] == before[j - 1]);
                } else {
                    assert(after[i] == before[i - 1] && after[j] == before[j - 1]);
                }
            }
        }
        k = k + 1;
    }
    assert(orig.take(n as int) =~= orig);
    out
}

} // verus!
