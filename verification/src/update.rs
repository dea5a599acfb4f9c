//! Deciding whether a published release is newer than the running version.

use vstd::prelude::*;
use crate::text::{chars_of, string_of};

verus! {

/// What `semver::Version::parse` makes of `s`, written back as text with
/// the `Display` of `semver::Version`; `None` when `s` is not a version.
pub uninterp spec fn parsed_version(s: Seq<char>) -> Option<Seq<char>>;

/// Whether the version written `a` is greater than the one written `b` in
/// the order of `semver::Version`.
pub uninterp spec fn version_gt(a: Seq<char>, b: Seq<char>) -> bool;

/// Calls `semver::Version::parse` and, on success, writes the version back
/// with its `Display`. The result is named `parsed_version`.
#[verifier::external_body]
fn version_text(s: &str) -> (res: Option<String>)
    ensures
        match res {
            Some(t) => parsed_version(s@) == Some(t@),
            None => parsed_version(s@).is_none(),
        },
{
    match semver::Version::parse(s) {
        Ok(v) => Some(v.to_string()),
        Err(_) => None,
    }
}

/// Compares two versions with the `>` of `semver::Version`, both given as
/// text that `semver::Version::parse` accepts. The result is named
/// `version_gt`; as `>` of a derived order it is false for equal texts,
/// which parse to equal versions.
#[verifier::external_body]
fn version_greater(a: &str, b: &str) -> (res: bool)
    requires
        parsed_version(a@).is_some(),
        parsed_version(b@).is_some(),
    ensures
        res == version_gt(a@, b@),
        a@ == b@ ==> !res,
{
    match (semver::Version::parse(a), semver::Version::parse(b)) {
        (Ok(x), Ok(y)) => x > y,
        _ => false,
    }
}

/// Result of a version check.
#[derive(Clone, Debug)]
pub struct UpdateInfo {
    pub current: String,
    pub latest: String,
    pub url: String,
}

/// A release tag without one leading `v`.
pub open spec fn tag_version(tag: Seq<char>) -> Seq<char> {
    if tag.len() > 0 && tag[0] == 'v' {
        tag.drop_first()
    } else {
        tag
    }
}

/// Removes one leading `v` from a release tag.
pub fn strip_tag_prefix(tag: &str) -> (res: String)
    ensures
        res@ == tag_version(tag@),
{
    let c = chars_of(tag);
    let n = c.len();
    if n > 0 && c[0] == 'v' {
        let r = string_of(&c.as_slice()[1..n]);
        assert(c@.subrange(1, n as int) =~= c@.drop_first());
        r
    } else {
        tag.to_string()
    }
}

/// Decides on a release found online: its tag (with or without a leading
/// `v`) and page, against the running version. There is an update when both
/// versions parse and the release's is greater; the update names both
/// versions as they are written back and the release's page. A release
/// that names the running version is no update.
pub fn release_update(tag_name: &str, html_url: String, current_version: &str) -> (res: Option<
    UpdateInfo,
>)
    ensures
        match (parsed_version(tag_version(tag_name@)), parsed_version(current_version@)) {
            (Some(l), Some(c)) => if version_gt(tag_version(tag_name@), current_version@) {
                res matches Some(u) && u.current@ == c && u.latest@ == l && u.url == html_url
            } else {
                res.is_none()
            },
            _ => res.is_none(),
        },
        tag_version(tag_name@) == current_version@ ==> res.is_none(),
{
    let tag = strip_tag_prefix(tag_name);
    let latest = match version_text(tag.as_str()) {
        Some(t) => t,
        None => {
            return None;
        },
    };
    let current = match version_text(current_version) {
        Some(t) => t,
        None => {
            return None;
        },
    };
    if version_greater(tag.as_str(), current_version) {
        Some(UpdateInfo { current, latest, url: html_url })
    } else {
        None
    }
}


} // verus!
