//! The rule that decides whether a live process is one of the protected
//! applications. It compares names without regard to case and accepts a name
//! that extends the other, so that `brave` covers `brave-browser-stable`.
//! The rule prefers a false alarm to a miss.

use crate::text::{
    basename, basename_offset, chars_of, contains, contains_seq, lowercase, starts_with,
};
use vstd::prelude::*;
use vstd::string::StrSliceExecFns;

verus! {

/// Two names match when they are equal or one begins with the other.
pub open spec fn names_match_spec(a: Seq<char>, b: Seq<char>) -> bool {
    a == b || a.is_prefix_of(b) || b.is_prefix_of(a)
}

/// An executable path matches a protected name when the whole path contains
/// the name, or the path's last segment matches it as a name does.
pub open spec fn path_matches_spec(protected: Seq<char>, exe: Seq<char>, binary: Seq<char>) -> bool {
    contains_seq(exe, protected) || names_match_spec(binary, protected)
}

/// The whole rule, over the texts as they were given. Every comparison is
/// made on lowercase forms; the last path segment is cut from the path as
/// given and lowered on its own.
pub open spec fn process_matches_spec(
    protected_name: Seq<char>,
    process_name: Seq<char>,
    exe_path: Option<Seq<char>>,
) -> bool {
    let protected = lowercase(protected_name);
    names_match_spec(lowercase(process_name), protected) || match exe_path {
        Some(exe) => path_matches_spec(protected, lowercase(exe), lowercase(basename(exe))),
        None => false,
    }
}

/// Whether two names, already in the case in which they are to be compared,
/// match: equal, or one a prefix of the other.
pub fn names_match(a: &str, b: &str) -> (r: bool)
    ensures
        r == names_match_spec(a@, b@),
{
    let x = chars_of(a);
    let y = chars_of(b);
    starts_with(&x, &y) || starts_with(&y, &x)
}

/// Whether an executable path matches a protected name. All three texts are
/// taken in the case in which they are to be compared; `binary` is the
/// path's last segment.
pub fn path_matches(protected: &str, exe: &str, binary: &str) -> (r: bool)
    ensures
        r == path_matches_spec(protected@, exe@, binary@),
{
    let p = chars_of(protected);
    let e = chars_of(exe);
    contains(&e, &p) || names_match(binary, protected)
}

/// The last segment of a path: what follows its last `'/'`.
pub fn last_segment(path: &str) -> (r: &str)
    ensures
        r@ == basename(path@),
{
    let chars = chars_of(path);
    let from = basename_offset(&chars);
    path.substring_char(from, chars.len())
}

/// Whether a process with the given name and executable path falls under
/// the protected name.
pub fn process_matches(protected_name: &str, process_name: &str, exe_path: &Option<String>) -> (r:
    bool)
    ensures
        r == process_matches_spec(
            protected_name@,
            process_name@,
            match *exe_path {
                Some(exe) => Some(exe@),
                None => None,
            },
        ),
{
    let protected = protected_name.to_lowercase();
    let process = process_name.to_lowercase();
    if names_match(process.as_str(), protected.as_str()) {
        return true;
    }
    match exe_path {
        Some(exe) => {
            let exe_lower = exe.as_str().to_lowercase();
            let binary = last_segment(exe.as_str()).to_lowercase();
            path_matches(protected.as_str(), exe_lower.as_str(), binary.as_str())
        },
        None => false,
    }
}

/// A name matches itself, whatever the executable path.
pub proof fn lemma_matches_reflexive(name: Seq<char>, exe_path: Option<Seq<char>>)
    ensures
        process_matches_spec(name, name, exe_path),
{
}

/// Names in the case in which they are compared: a name matches every name
/// that extends it, and the other way round.
pub proof fn lemma_extension_matches(name: Seq<char>, suffix: Seq<char>)
    ensures
        names_match_spec(name, name + suffix),
        names_match_spec(name + suffix, name),
{
    assert((name + suffix).subrange(0, name.len() as int) =~= name);
}

/// A protected name matches a process name that extends it, and a process
/// name matches a protected name that extends it, whatever the executable
/// path, provided that lowering the longer name leaves the lowered shorter
/// name at its head. Lowercase is not always taken letter by letter (a Greek
/// capital sigma is lowered one way at the end of a word and another way
/// inside it), so a few extensions do not keep the head.
pub proof fn lemma_suffixed_name_matches(
    name: Seq<char>,
    suffix: Seq<char>,
    exe_path: Option<Seq<char>>,
)
    requires
        lowercase(name).is_prefix_of(lowercase(name + suffix)),
    ensures
        process_matches_spec(name, name + suffix, exe_path),
        process_matches_spec(name + suffix, name, exe_path),
{
}

} // verus!
