//! Paths as the configuration uses them: joining a directory and a name, the
//! extension of a file, and whether a path lies under a directory.
use vstd::prelude::*;
use vstd::string::*;
use crate::text::opt_view;

verus! {

/// `Path::join` on Unix: an absolute component replaces the base; otherwise
/// the component is appended, with a `/` between them unless the base is
/// empty or already ends with one.
pub open spec fn join_path(base: Seq<char>, comp: Seq<char>) -> Seq<char> {
    if comp.len() > 0 && comp[0] == '/' {
        comp
    } else if base.len() > 0 && base.last() != '/' {
        base + seq!['/'] + comp
    } else {
        base + comp
    }
}

/// `Path::new(base).join(comp)`, as text.
pub fn path_join(base: &str, comp: &str) -> (r: String)
    ensures
        r@ == join_path(base@, comp@),
{
    let comp_len = comp.unicode_len();
    if comp_len > 0 && comp.get_char(0) == '/' {
        return String::from_str(comp);
    }
    let base_len = base.unicode_len();
    if base_len > 0 && base.get_char(base_len - 1) != '/' {
        proof { reveal_strlit("/"); }
        let mut r = String::from_str(base);
        r.append("/");
        r.append(comp);
        r
    } else {
        String::from_str(base).concat(comp)
    }
}

/// What `Path::extension` yields for a path: the part of its file name after
/// the last dot, if the file name has one that is not its first character.
pub uninterp spec fn path_extension(path: Seq<char>) -> Option<Seq<char>>;

/// Whether `Path::starts_with` holds: the components of `base` begin the
/// components of `path`.
pub uninterp spec fn path_starts_with(path: Seq<char>, base: Seq<char>) -> bool;

/// Whether `Path`'s `==` holds: the two paths have the same components.
pub uninterp spec fn paths_equal(a: Seq<char>, b: Seq<char>) -> bool;

/// Whether two paths are equal through `Path`'s `==`, which compares their
/// components; the result is named [`paths_equal`].
#[verifier::external_body]
pub(crate) fn same_path(a: &str, b: &str) -> (r: bool)
    ensures
        r == paths_equal(a@, b@),
{
    std::path::Path::new(a) == std::path::Path::new(b)
}

/// The extension of `path` through `Path::extension`, as an owned string; the
/// result is named [`path_extension`]. For a path given as UTF-8 text the
/// extension is UTF-8 text too.
#[verifier::external_body]
pub(crate) fn extension_of(path: &str) -> (r: Option<String>)
    ensures
        opt_view(r) == path_extension(path@),
{
    std::path::Path::new(path).extension().and_then(|e| e.to_str()).map(|e| e.to_string())
}

/// Whether `path` lies under `base`, component by component, through
/// `Path::starts_with`; the result is named [`path_starts_with`].
#[verifier::external_body]
pub(crate) fn path_has_prefix(path: &str, base: &str) -> (r: bool)
    ensures
        r == path_starts_with(path@, base@),
{
    std::path::Path::new(path).starts_with(base)
}

/// Whether a file exists at `path`, through `std::path::Path::exists`. The
/// answer depends on the file system at the time of the call and is not stated.
#[verifier::external_body]
pub(crate) fn path_exists(path: &str) -> bool {
    std::path::Path::new(path).exists()
}

} // verus!
