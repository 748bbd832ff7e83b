//! File-system path operations of std, on paths held as text.
use std::path::Path;
use vstd::prelude::*;

verus! {

/// What `Path::extension` gives for the path `path`, as text.
pub uninterp spec fn path_extension(path: Seq<char>) -> Option<Seq<char>>;

/// What `Path::join` gives for `base` joined with `name`, as text.
pub uninterp spec fn path_join(base: Seq<char>, name: Seq<char>) -> Seq<char>;

/// What `Path::with_extension` gives for `path` with the extension `extension`, as text.
pub uninterp spec fn path_with_extension(path: Seq<char>, extension: Seq<char>) -> Seq<char>;

/// What `Path`'s equality gives for the paths `a` and `b`, as text.
pub uninterp spec fn same_path(a: Seq<char>, b: Seq<char>) -> bool;

/// Compares `Path::new(a)` and `Path::new(b)` with `==`. By std's
/// documentation paths are compared by their components, so that, for
/// example, `assets//a.obj`, `assets/./a.obj` and `assets/a.obj/` equal
/// `assets/a.obj`; that rule is not written out here, only named. Equal text
/// gives equal paths.
#[verifier::external_body]
pub(crate) fn paths_equal(a: &str, b: &str) -> (r: bool)
    ensures
        r == same_path(a@, b@),
        a@ == b@ ==> r,
{
    Path::new(a) == Path::new(b)
}

/// Calls `std::path::Path::extension` on `path`. By std's documentation the
/// result is the part of the file name after its last dot, and absent when
/// the path has no file name, when the file name holds no dot, or when its
/// only dot is its first character; that rule is not written out here, only
/// named. A path given as UTF-8 text has a UTF-8 extension, so converting
/// the result back to text never fails.
#[verifier::external_body]
pub(crate) fn extension_of(path: &str) -> (r: Option<String>)
    ensures
        r is None <==> path_extension(path@) is None,
        r matches Some(e) ==> path_extension(path@) == Some(e@),
{
    Path::new(path).extension().and_then(|e| e.to_str()).map(|e| e.to_string())
}

/// Calls `std::path::Path::join`: `name` appended to `base` as a further
/// component (or in its place, where `name` is absolute). The result is
/// named, not written out.
#[verifier::external_body]
pub(crate) fn join(base: &str, name: &str) -> (r: String)
    ensures
        r@ == path_join(base@, name@),
{
    Path::new(base).join(name).to_string_lossy().into_owned()
}

/// `s` holds no path separator, neither `/` nor `\\`.
pub open spec fn has_no_separator(s: Seq<char>) -> bool {
    forall|i: int| 0 <= i < s.len() ==> #[trigger] s[i] != '/' && s[i] != '\\'
}

/// Calls `std::path::Path::with_extension`: `path` with its extension
/// replaced by (or extended with) `extension`. The result is named, not
/// written out. Recent std panics when the extension holds a path
/// separator; such extensions are not admitted.
#[verifier::external_body]
pub(crate) fn with_extension(path: &str, extension: &str) -> (r: String)
    requires
        has_no_separator(extension@),
    ensures
        r@ == path_with_extension(path@, extension@),
{
    Path::new(path).with_extension(extension).to_string_lossy().into_owned()
}

} // verus!
