//! Path manipulation on UTF-8 path text, through `std::path`.

use vstd::prelude::*;

verus! {

/// A path component that names a file: non-empty, without `/`, and neither
/// `.` nor `..`.
pub open spec fn is_plain_component(n: Seq<char>) -> bool {
    &&& n.len() > 0
    &&& forall|i: int| 0 <= i < n.len() ==> #[trigger] n[i] != '/'
    &&& n != seq!['.']
    &&& n != seq!['.', '.']
}

/// `Path::file_name`: the final component of a path, if it names a file.
pub uninterp spec fn path_file_name(p: Seq<char>) -> Option<Seq<char>>;

/// `Path::with_file_name`: the path with its final component replaced by (or,
/// when it has none, extended with) the given name.
pub uninterp spec fn path_with_file_name(p: Seq<char>, name: Seq<char>) -> Seq<char>;

/// `Path::join`: the path extended with the given component.
pub uninterp spec fn path_join(p: Seq<char>, name: Seq<char>) -> Seq<char>;

/// `Path::file_name` on a UTF-8 path. A file name is a single plain component.
#[verifier::external_body]
pub(crate) fn file_name_of(p: &str) -> (r: Option<String>)
    ensures
        r matches Some(n) ==> path_file_name(p@) == Some(n@) && is_plain_component(n@),
        r is None ==> path_file_name(p@) is None,
{
    match std::path::Path::new(p).file_name() {
        Some(n) => Some(n.to_string_lossy().into_owned()),
        None => None,
    }
}

/// `Path::with_file_name` on UTF-8 text. The result's file name is the given
/// name whenever that name is a plain component. When the path has a file
/// name, it also has a parent, and the result is that parent joined with the
/// name (`set_file_name` pops the file name, leaving the parent, then pushes
/// the new name).
#[verifier::external_body]
pub(crate) fn with_file_name(p: &str, name: &str) -> (r: String)
    ensures
        r@ == path_with_file_name(p@, name@),
        is_plain_component(name@) ==> path_file_name(r@) == Some(name@),
        path_file_name(p@) is Some ==> Some(r@) == match path_parent(p@) {
            Some(d) => Some(path_join(d, name@)),
            None => None,
        },
{
    std::path::Path::new(p).with_file_name(name).to_string_lossy().into_owned()
}

/// `Path::join` on UTF-8 text. The result's file name is the joined name
/// whenever that name is a plain component.
#[verifier::external_body]
pub(crate) fn join_path(p: &str, name: &str) -> (r: String)
    ensures
        r@ == path_join(p@, name@),
        is_plain_component(name@) ==> path_file_name(r@) == Some(name@),
{
    std::path::Path::new(p).join(name).to_string_lossy().into_owned()
}

/// `Path::extension`: the text after the final `.` of the file name.
pub uninterp spec fn path_extension(p: Seq<char>) -> Option<Seq<char>>;

/// `Path::parent`: the path without its final component.
pub uninterp spec fn path_parent(p: Seq<char>) -> Option<Seq<char>>;

/// Index of the last `.` in `n`, or -1 when there is none.
pub open spec fn last_dot(n: Seq<char>) -> int
    decreases n.len(),
{
    if n.len() == 0 {
        -1
    } else if n.last() == '.' {
        n.len() - 1
    } else {
        last_dot(n.drop_last())
    }
}

/// The extension of a file name as `Path::extension` documents it: none
/// without a `.`, none when the only `.` starts the name, otherwise the text
/// after the final `.`.
pub open spec fn name_extension(n: Seq<char>) -> Option<Seq<char>> {
    let k = last_dot(n);
    if k <= 0 {
        None
    } else {
        Some(n.subrange(k + 1, n.len() as int))
    }
}

/// The text of an optional `String`.
pub open spec fn opt_view(o: Option<String>) -> Option<Seq<char>> {
    match o {
        Some(s) => Some(s@),
        None => None,
    }
}

/// `Path::extension` on UTF-8 text. For a single plain component, the
/// documented rule on its text.
#[verifier::external_body]
pub(crate) fn extension_of(p: &str) -> (r: Option<String>)
    ensures
        opt_view(r) == path_extension(p@),
        is_plain_component(p@) ==> opt_view(r) == name_extension(p@),
{
    match std::path::Path::new(p).extension() {
        Some(e) => Some(e.to_string_lossy().into_owned()),
        None => None,
    }
}

/// `Path::parent` on UTF-8 text.
#[verifier::external_body]
pub(crate) fn parent_of(p: &str) -> (r: Option<String>)
    ensures
        opt_view(r) == path_parent(p@),
{
    match std::path::Path::new(p).parent() {
        Some(q) => Some(q.to_string_lossy().into_owned()),
        None => None,
    }
}

} // verus!
