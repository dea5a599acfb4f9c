//! File system paths, held as text. What `std::path` makes of a path
//! follows the path rules of the platform the program is built for.

use vstd::prelude::*;
use crate::text::views;

verus! {

/// Whether `std::path::Path::is_absolute` holds of the path written `p`.
pub uninterp spec fn path_is_absolute(p: Seq<char>) -> bool;

/// The text of `std::path::Path::join` of the paths written `base` and `p`.
pub uninterp spec fn path_join(base: Seq<char>, p: Seq<char>) -> Seq<char>;

/// Calls `std::path::Path::is_absolute`. Its result is named
/// `path_is_absolute`; the documentation also shows that the empty path is
/// not absolute on any platform.
#[verifier::external_body]
pub fn is_absolute_path(p: &str) -> (res: bool)
    ensures
        res == path_is_absolute(p@),
        p@.len() == 0 ==> !res,
{
    std::path::Path::new(p).is_absolute()
}

/// Calls `std::path::Path::join` and reads the joined path back as text.
/// Its result is named `path_join`; the documentation shows that an
/// absolute `p` replaces `base`.
#[verifier::external_body]
pub fn join_path(base: &str, p: &str) -> (res: String)
    ensures
        res@ == path_join(base@, p@),
        path_is_absolute(p@) ==> res@ == p@,
{
    std::path::Path::new(base).join(p).to_string_lossy().into_owned()
}

/// The text of `std::path::Path::extension` of the path written `p`.
pub uninterp spec fn path_extension(p: Seq<char>) -> Option<Seq<char>>;

/// Calls `std::path::Path::extension` and reads the extension back as
/// text. Its result is named `path_extension`.
#[verifier::external_body]
pub fn extension_of(p: &str) -> (res: Option<String>)
    ensures
        match res {
            Some(e) => path_extension(p@) == Some(e@),
            None => path_extension(p@).is_none(),
        },
{
    std::path::Path::new(p).extension().map(|e| e.to_string_lossy().into_owned())
}

/// Whether `std::path::Path`'s `==` holds of the paths written `a` and `b`.
pub uninterp spec fn path_eq(a: Seq<char>, b: Seq<char>) -> bool;

/// Compares two paths with `std::path::Path`'s `==`, which compares them
/// component by component (so `/a/b` and `/a/b/` are the same path). Its
/// result is named `path_eq`; as `Path` is `Eq`, the comparison is
/// symmetric and a path equals itself.
#[verifier::external_body]
pub fn same_path(a: &str, b: &str) -> (res: bool)
    ensures
        res == path_eq(a@, b@),
        res == path_eq(b@, a@),
        a@ == b@ ==> res,
{
    std::path::Path::new(a) == std::path::Path::new(b)
}

/// Whether one of `paths` is the same path as `x`.
pub open spec fn has_path(paths: Seq<Seq<char>>, x: Seq<char>) -> bool {
    exists|i: int| 0 <= i < paths.len() && path_eq(#[trigger] paths[i], x)
}

/// Whether `paths` are distinct as paths: none is the same path as one
/// before it.
pub open spec fn distinct_paths(paths: Seq<Seq<char>>) -> bool {
    forall|i: int, j: int|
        0 <= i < j < paths.len() ==> !path_eq(#[trigger] paths[i], #[trigger] paths[j])
}

/// Whether one of the strings of `v` is the same path as `x`.
pub fn contains_path(v: &Vec<String>, x: &String) -> (res: bool)
    ensures
        res == has_path(views(v@), x@),
{
    let ghost vs = views(v@);
    let mut i: usize = 0;
    while i < v.len()
        invariant
            vs == views(v@),
            i <= v@.len(),
            forall|j: int| 0 <= j < i ==> !path_eq(#[trigger] vs[j], x@),
        decreases v@.len() - i,
    {
        if same_path(v[i].as_str(), x.as_str()) {
            assert(path_eq(vs[i as int], x@));
            return true;
        }
        i = i + 1;
    }
    false
}

/// A path taken relative to `base` unless it is absolute.
pub open spec fn resolved(base: Seq<char>, p: Seq<char>) -> Seq<char> {
    if path_is_absolute(p) {
        p
    } else {
        path_join(base, p)
    }
}

/// Resolves `p` against `base`: an absolute `p` stands as it is, a relative
/// one is joined onto `base`.
pub fn resolve_path(base: &str, p: &str) -> (res: String)
    ensures
        res@ == resolved(base@, p@),
{
    if is_absolute_path(p) {
        p.to_string()
    } else {
        join_path(base, p)
    }
}

} // verus!
