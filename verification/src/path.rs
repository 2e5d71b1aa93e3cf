//! Filesystem paths as text, and their chains of ancestors.

use vstd::prelude::*;

verus! {

/// The parent that `std::path::Path::parent` gives for `path`, if any.
pub uninterp spec fn path_parent_of(path: Seq<char>) -> Option<Seq<char>>;

/// The path without its final component, or `None` where the path ends
/// in a root or a prefix, or is empty.
///
/// Trusted: calls `std::path::Path::parent` and converts the result back
/// to text. Claims that the parent is a function of the path and, as it
/// is the path with its final (non-empty) component removed, that it is
/// shorter than the path.
#[verifier::external_body]
pub(crate) fn path_parent(path: &str) -> (r: Option<String>)
    ensures
        match r {
            Some(p) => path_parent_of(path@) == Some(p@) && p@.len() < path@.len(),
            None => path_parent_of(path@) is None,
        },
{
    std::path::Path::new(path).parent().map(|p| p.to_string_lossy().into_owned())
}

/// The final component that `std::path::Path::file_name` gives for
/// `path`, if any.
pub uninterp spec fn path_file_name_of(path: Seq<char>) -> Option<Seq<char>>;

/// The final component of `path`, or `None` where the path ends in `..`
/// or has no components.
///
/// Trusted: calls `std::path::Path::file_name` and converts the result
/// back to text; claims only that it is a function of the path.
#[verifier::external_body]
pub(crate) fn path_file_name(path: &str) -> (r: Option<String>)
    ensures
        match r {
            Some(n) => path_file_name_of(path@) == Some(n@),
            None => path_file_name_of(path@) is None,
        },
{
    std::path::Path::new(path).file_name().map(|n| n.to_string_lossy().into_owned())
}

/// The path that `std::path::Path::join` gives for `base` and `rel`.
pub uninterp spec fn path_join_of(base: Seq<char>, rel: Seq<char>) -> Seq<char>;

/// `rel` appended to `base` with a separator where one is needed.
///
/// Trusted: calls `std::path::Path::join` and converts the result back to
/// text; claims only that it is a function of the two paths.
#[verifier::external_body]
pub(crate) fn path_join(base: &str, rel: &str) -> (r: String)
    ensures
        r@ == path_join_of(base@, rel@),
{
    std::path::Path::new(base).join(rel).to_string_lossy().into_owned()
}

/// `path`, its parent, the parent's parent, and so on: deepest first,
/// ending before an empty path or at a path without a parent.
pub open spec fn ancestors_of(path: Seq<char>) -> Seq<Seq<char>>
    decreases path.len(),
{
    if path.len() == 0 {
        Seq::empty()
    } else {
        match path_parent_of(path) {
            Some(q) => if q.len() < path.len() {
                seq![path] + ancestors_of(q)
            } else {
                seq![path]
            },
            None => seq![path],
        }
    }
}

/// The views of a list of strings.
pub open spec fn texts(v: Seq<String>) -> Seq<Seq<char>> {
    v.map_values(|s: String| s@)
}

/// The chain of ancestors of `dir`, `dir` itself first (unless empty).
pub fn ancestors(dir: &str) -> (r: Vec<String>)
    ensures
        texts(r@) == ancestors_of(dir@),
{
    let mut out: Vec<String> = Vec::new();
    let mut cursor = String::from_str(dir);
    while cursor.as_str().unicode_len() > 0
        invariant
            texts(out@) + ancestors_of(cursor@) == ancestors_of(dir@),
        decreases cursor@.len(),
    {
        let next = path_parent(cursor.as_str());
        let ghost before = cursor@;
        match next {
            Some(p) => {
                proof {
                    assert(texts(out@.push(cursor)) =~= texts(out@).push(cursor@));
                    assert(ancestors_of(before) == seq![before] + ancestors_of(p@));
                    assert(texts(out@).push(before) + ancestors_of(p@) =~= texts(out@) + (seq![
                        before,
                    ] + ancestors_of(p@)));
                }
                out.push(cursor);
                cursor = p;
            },
            None => {
                proof {
                    assert(texts(out@.push(cursor)) =~= texts(out@).push(cursor@));
                    assert(ancestors_of(before) == seq![before]);
                    assert(texts(out@).push(before) =~= texts(out@) + seq![before]);
                }
                out.push(cursor);
                return out;
            },
        }
    }
    proof {
        assert(ancestors_of(cursor@) =~= Seq::<Seq<char>>::empty());
        assert(texts(out@) + ancestors_of(cursor@) =~= texts(out@));
    }
    out
}

} // verus!
