//! Lexical rules that keep client-supplied file paths inside a sandbox root.
//!
//! Paths are texts with `/` as the separator. Nothing here touches the file
//! system.

use vstd::prelude::*;
use vstd::string::*;
use crate::text::chars_of;

verus! {

/// The lexically cleaned form of a path: what `path_clean::clean` returns for
/// it (repeated separators and `.` removed, `..` resolved against what
/// precedes it).
pub uninterp spec fn cleaned_path(path: Seq<char>) -> Seq<char>;

/// Trusted: `path_clean::clean`. The result is the cleaned form of `path`,
/// which depends on the text alone. Cleaning only drops and reorders whole
/// segments, so the path it returns is text again and converts without loss.
#[verifier::external_body]
fn clean_path(path: &str) -> (cleaned: String)
    ensures
        cleaned@ == cleaned_path(path@),
{
    path_clean::clean(path).to_string_lossy().into_owned()
}

/// A `..` segment starts at position `i` of `path`.
pub open spec fn parent_segment_at(path: Seq<char>, i: int) -> bool {
    &&& 0 <= i
    &&& i + 2 <= path.len()
    &&& path[i] == '.'
    &&& path[i + 1] == '.'
    &&& (i == 0 || path[i - 1] == '/')
    &&& (i + 2 == path.len() || path[i + 2] == '/')
}

/// Some segment of `path` is the parent directory, `..`.
pub open spec fn has_parent_segment(path: Seq<char>) -> bool {
    exists|i: int| parent_segment_at(path, i)
}

/// `path` starts at the file system root.
pub open spec fn is_absolute(path: Seq<char>) -> bool {
    path.len() > 0 && path[0] == '/'
}

/// `rel` joined to `root`: an absolute `rel` replaces `root`; otherwise the
/// two are put together with exactly one separator between them.
pub open spec fn joined(root: Seq<char>, rel: Seq<char>) -> Seq<char> {
    if is_absolute(rel) {
        rel
    } else if root.len() == 0 || root.last() == '/' {
        root + rel
    } else {
        root + seq!['/'] + rel
    }
}

/// `dest` is `root` itself or lies below it: `root` is a prefix of `dest`
/// that ends at a segment boundary.
pub open spec fn within(root: Seq<char>, dest: Seq<char>) -> bool {
    ||| dest == root
    ||| {
        &&& root.len() < dest.len()
        &&& dest.take(root.len() as int) == root
        &&& (root.len() > 0 && root.last() == '/' || dest[root.len() as int] == '/')
    }
}

/// Where `rel` lands when it is resolved against `root`.
pub open spec fn destination(root: Seq<char>, rel: Seq<char>) -> Seq<char> {
    cleaned_path(joined(root, rel))
}

/// `rel` is unsafe to write below `root`: it names a parent directory, or it
/// resolves to a place outside `root`. An absolute path replaces the root
/// when it is joined, so it is unsafe exactly if it points outside. The root
/// counts in its cleaned form, so that a root written with a doubled
/// separator or a trailing one confines the same paths.
pub open spec fn escapes(root: Seq<char>, rel: Seq<char>) -> bool {
    has_parent_segment(rel) || !within(cleaned_path(root), destination(root, rel))
}

/// Whether some segment of `path` is `..`.
pub fn names_parent(path: &[char]) -> (found: bool)
    ensures
        found == has_parent_segment(path@),
{
    let n = path.len();
    let mut i: usize = 0;
    while i < n
        invariant
            n == path@.len(),
            i <= n,
            forall|j: int| 0 <= j < i ==> !parent_segment_at(path@, j),
        decreases n - i,
    {
        if n - i >= 2 && path[i] == '.' && path[i + 1] == '.' && (i == 0 || path[i - 1] == '/') && (
        n - i == 2 || path[i + 2] == '/') {
            assert(parent_segment_at(path@, i as int));
            return true;
        }
        i = i + 1;
    }
    false
}

/// Whether `dest` is `root` or lies below it.
pub fn lies_within(root: &[char], dest: &[char]) -> (inside: bool)
    ensures
        inside == within(root@, dest@),
{
    let r = root.len();
    let d = dest.len();
    if d < r {
        return false;
    }
    let mut i: usize = 0;
    while i < r
        invariant
            r == root@.len(),
            d == dest@.len(),
            r <= d,
            i <= r,
            dest@.take(i as int) == root@.take(i as int),
        decreases r - i,
    {
        if dest[i] != root[i] {
            return false;
        }
        i = i + 1;
    }
    assert(root@.take(r as int) == root@);
    if d == r {
        assert(dest@.take(r as int) == dest@);
        return true;
    }
    (r > 0 && root[r - 1] == '/') || dest[r] == '/'
}

/// Joins `rel` to `root`.
pub fn join(root: &str, rel: &str) -> (path: String)
    ensures
        path@ == joined(root@, rel@),
{
    let rel_chars = chars_of(rel);
    let root_chars = chars_of(root);
    if rel_chars.len() > 0 && rel_chars[0] == '/' {
        rel.to_owned()
    } else if root_chars.len() == 0 || root_chars[root_chars.len() - 1] == '/' {
        root.to_owned().concat(rel)
    } else {
        proof {
            reveal_strlit("/");
        }
        root.to_owned().concat("/").concat(rel)
    }
}

/// Resolves `rel` against `root` and cleans the result.
pub fn resolve(root: &str, rel: &str) -> (dest: String)
    ensures
        dest@ == destination(root@, rel@),
{
    let joined_text = join(root, rel);
    clean_path(joined_text.as_str())
}

/// Decides whether `rel` may be written below `root`.
pub fn is_escaping(root: &str, rel: &str) -> (unsafe_path: bool)
    ensures
        unsafe_path == escapes(root@, rel@),
{
    let rel_chars = chars_of(rel);
    if names_parent(rel_chars.as_slice()) {
        return true;
    }
    let dest = resolve(root, rel);
    let dest_chars = chars_of(dest.as_str());
    let clean_root = clean_path(root);
    let root_chars = chars_of(clean_root.as_str());
    !lies_within(root_chars.as_slice(), dest_chars.as_slice())
}

} // verus!
