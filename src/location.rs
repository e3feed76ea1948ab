//! Where the executable was started from: the checks that warn about a
//! drive root or a temporary directory, which an update cannot survive.
use vstd::prelude::*;
use crate::text::{same_text, views_of};

verus! {

/// The Unicode lowercase form that `str::to_lowercase` gives.
pub uninterp spec fn lower_of(s: Seq<char>) -> Seq<char>;

/// Relies on str::to_lowercase, whose result depends on the characters
/// alone; empty text stays empty.
#[verifier::external_body]
fn lowercase(s: &str) -> (r: String)
    ensures
        r@ == lower_of(s@),
        s@.len() == 0 ==> r@.len() == 0,
{
    s.to_lowercase()
}

/// A problem with the executable's directory.
#[derive(Clone, Copy, Debug, PartialEq, Eq, Structural)]
pub enum ExeDirIssue {
    /// The directory is the root of a drive.
    Root,
    /// The directory lies in a temporary directory, such as one an archive
    /// tool extracts into.
    Temp,
}

pub open spec fn occurs_at(s: Seq<char>, pat: Seq<char>, i: int) -> bool {
    0 <= i && i + pat.len() <= s.len() && s.subrange(i, i + pat.len()) == pat
}

pub open spec fn contains(s: Seq<char>, pat: Seq<char>) -> bool {
    exists|i: int| occurs_at(s, pat, i)
}

pub open spec fn starts_with(s: Seq<char>, prefix: Seq<char>) -> bool {
    occurs_at(s, prefix, 0)
}

/// The path fragments, in lowercase, that mark a temporary directory.
pub open spec fn temp_markers() -> Seq<Seq<char>> {
    seq![
        "\\temp\\"@,
        "/temp/"@,
        "\\tmp\\"@,
        "/tmp/"@,
        "\\appdata\\local\\temp"@,
        "/appdata/local/temp"@,
        "\\temporary internet files\\"@,
        "\\7zocab"@,
        "\\7zo"@,
        "\\wz"@,
        "\\rar$"@,
        "\\temp_"@,
    ]
}

/// The path holds one of the temporary-directory markers.
pub open spec fn has_temp_marker(lower_path: Seq<char>) -> bool {
    exists|k: int| 0 <= k < temp_markers().len() && contains(lower_path, #[trigger] temp_markers()[k])
}

/// The path starts with one of the given directories.
pub open spec fn under_any(lower_path: Seq<char>, lower_dirs: Seq<Seq<char>>) -> bool {
    exists|k: int| 0 <= k < lower_dirs.len() && starts_with(lower_path, #[trigger] lower_dirs[k])
}

/// The issue with a directory, given its path in lowercase, whether it is a
/// drive root, and the system's temporary directories in lowercase.
pub open spec fn exe_dir_issue(lower_path: Seq<char>, is_root: bool, lower_temp_dirs: Seq<Seq<char>>) -> Option<ExeDirIssue> {
    if is_root {
        Some(ExeDirIssue::Root)
    } else if has_temp_marker(lower_path) {
        Some(ExeDirIssue::Temp)
    } else if under_any(lower_path, lower_temp_dirs) {
        Some(ExeDirIssue::Temp)
    } else {
        None
    }
}

pub fn text_occurs_at(s: &str, pat: &str, i: usize) -> (r: bool)
    ensures
        r == occurs_at(s@, pat@, i as int),
{
    let n = s.unicode_len();
    let m = pat.unicode_len();
    if i > n || m > n - i {
        return false;
    }
    same_text(s.substring_char(i, i + m), pat)
}

pub fn contains_text(s: &str, pat: &str) -> (r: bool)
    ensures
        r == contains(s@, pat@),
{
    let n = s.unicode_len();
    let mut i: usize = 0;
    while i < n
        invariant
            n == s@.len(),
            i <= n,
            forall|j: int| 0 <= j < i ==> !occurs_at(s@, pat@, j),
        decreases n - i,
    {
        if text_occurs_at(s, pat, i) {
            return true;
        }
        i = i + 1;
    }
    text_occurs_at(s, pat, n)
}

fn markers() -> (r: Vec<&'static str>)
    ensures
        r@.map_values(|m: &str| m@) == temp_markers(),
{
    let r = vec![
        "\\temp\\",
        "/temp/",
        "\\tmp\\",
        "/tmp/",
        "\\appdata\\local\\temp",
        "/appdata/local/temp",
        "\\temporary internet files\\",
        "\\7zocab",
        "\\7zo",
        "\\wz",
        "\\rar$",
        "\\temp_",
    ];
    assert(r@.map_values(|m: &str| m@) =~= temp_markers());
    r
}

/// Classifies a directory from its lowercase path (see `exe_dir_issue`).
pub fn classify_lowered(lower_path: &str, is_root: bool, lower_temp_dirs: &Vec<String>) -> (r: Option<ExeDirIssue>)
    ensures
        r == exe_dir_issue(lower_path@, is_root, views_of(lower_temp_dirs@)),
{
    if is_root {
        return Some(ExeDirIssue::Root);
    }
    let ms = markers();
    let mut k: usize = 0;
    while k < ms.len()
        invariant
            !is_root,
            ms@.map_values(|m: &str| m@) == temp_markers(),
            k <= ms@.len(),
            forall|j: int| 0 <= j < k ==> !contains(lower_path@, #[trigger] temp_markers()[j]),
        decreases ms@.len() - k,
    {
        assert(temp_markers()[k as int] == ms@[k as int]@);
        if contains_text(lower_path, ms[k]) {
            assert(has_temp_marker(lower_path@));
            return Some(ExeDirIssue::Temp);
        }
        k = k + 1;
    }
    let ghost dirs = views_of(lower_temp_dirs@);
    let mut t: usize = 0;
    while t < lower_temp_dirs.len()
        invariant
            !is_root,
            !has_temp_marker(lower_path@),
            dirs == views_of(lower_temp_dirs@),
            t <= lower_temp_dirs@.len(),
            forall|j: int| 0 <= j < t ==> !starts_with(lower_path@, #[trigger] dirs[j]),
        decreases lower_temp_dirs@.len() - t,
    {
        if text_occurs_at(lower_path, lower_temp_dirs[t].as_str(), 0) {
            assert(dirs[t as int] == lower_temp_dirs@[t as int]@);
            assert(under_any(lower_path@, dirs));
            return Some(ExeDirIssue::Temp);
        }
        t = t + 1;
    }
    None
}

/// Classifies the executable's directory from its path as text, whether it
/// is a drive root, and the values of the system's temporary-directory
/// variables; paths and variables are compared in lowercase.
pub fn check_exe_dir(path: &str, is_root: bool, temp_dirs: &Vec<String>) -> (r: Option<ExeDirIssue>)
    ensures
        r == exe_dir_issue(
            lower_of(path@),
            is_root,
            views_of(temp_dirs@).map_values(|d: Seq<char>| lower_of(d)),
        ),
{
    let lower_path = lowercase(path);
    let mut lowered: Vec<String> = Vec::new();
    let mut t: usize = 0;
    while t < temp_dirs.len()
        invariant
            t <= temp_dirs@.len(),
            views_of(lowered@) == views_of(temp_dirs@.subrange(0, t as int)).map_values(
                |d: Seq<char>| lower_of(d),
            ),
        decreases temp_dirs@.len() - t,
    {
        let ghost before = lowered@;
        let l = lowercase(temp_dirs[t].as_str());
        lowered.push(l);
        assert(views_of(lowered@) =~= views_of(before).push(l@));
        assert(views_of(temp_dirs@.subrange(0, t + 1)).map_values(|d: Seq<char>| lower_of(d))
            =~= views_of(temp_dirs@.subrange(0, t as int)).map_values(|d: Seq<char>| lower_of(d)).push(
            lower_of(temp_dirs@[t as int]@),
        ));
        t = t + 1;
    }
    assert(temp_dirs@.subrange(0, temp_dirs@.len() as int) == temp_dirs@);
    classify_lowered(lower_path.as_str(), is_root, &lowered)
}

} // verus!
