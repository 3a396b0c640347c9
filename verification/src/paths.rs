//! File-system paths as text, joined and compared by the platform's own rules.
use vstd::prelude::*;
use crate::text::opt_text;

verus! {

/// The path that results from adjoining `part` to `base`: the answer of
/// `std::path::Path::join`, for the platform the crate is built for.
pub uninterp spec fn joined(base: Seq<char>, part: Seq<char>) -> Seq<char>;

/// Whether two texts denote the same path, component by component: the answer
/// of `==` on `std::path::Path`, for the platform the crate is built for.
pub uninterp spec fn same_path(a: Seq<char>, b: Seq<char>) -> bool;

/// What is left of a path after a base that it starts with, component by
/// component: the answer of `std::path::Path::strip_prefix`, for the platform
/// the crate is built for; nothing where the path does not start with the base.
pub uninterp spec fn without_prefix(path: Seq<char>, base: Seq<char>) -> Option<Seq<char>>;

/// Calls `std::path::Path::strip_prefix` on the two texts and hands what is
/// left back as text. Trusted: the result is what the name `without_prefix`
/// stands for.
#[verifier::external_body]
pub(crate) fn path_strip_prefix(path: &str, base: &str) -> (r: Option<String>)
    ensures
        opt_text(r) == without_prefix(path@, base@),
{
    std::path::Path::new(path).strip_prefix(base).ok().map(
        |rest| rest.to_string_lossy().into_owned(),
    )
}

/// Calls `std::path::Path::join` on the two texts and hands the joined path
/// back as text. Trusted: the result is what the name `joined` stands for.
#[verifier::external_body]
pub(crate) fn path_join(base: &str, part: &str) -> (r: String)
    ensures
        r@ == joined(base@, part@),
{
    std::path::Path::new(base).join(part).to_string_lossy().into_owned()
}

/// Compares the two texts as `std::path::Path` values with `==`. Trusted: the
/// result is what the name `same_path` stands for.
#[verifier::external_body]
pub(crate) fn path_eq(a: &str, b: &str) -> (r: bool)
    ensures
        r == same_path(a@, b@),
{
    std::path::Path::new(a) == std::path::Path::new(b)
}

/// One component of a path, by its kind.
#[derive(Debug, Clone, Copy, PartialEq, Eq, Structural)]
pub enum PathPart {
    /// A drive or share, as Windows paths may start with.
    Prefix,
    /// The root directory.
    RootDir,
    /// A reference to the directory itself, `.`.
    CurDir,
    /// A reference to the parent directory, `..`.
    ParentDir,
    /// A name.
    Normal,
}

/// The components of a path, by their kinds, in order: what
/// `std::path::Path::components` yields, for the platform the crate is built for.
pub uninterp spec fn path_parts(path: Seq<char>) -> Seq<PathPart>;

/// Walks `std::path::Path::components` over the text and hands back the kind
/// of each component. Trusted: the result is what the name `path_parts` stands for.
#[verifier::external_body]
pub(crate) fn parts_of(path: &str) -> (r: Vec<PathPart>)
    ensures
        r@ == path_parts(path@),
{
    std::path::Path::new(path)
        .components()
        .map(
            |part|
                match part {
                    std::path::Component::Prefix(_) => PathPart::Prefix,
                    std::path::Component::RootDir => PathPart::RootDir,
                    std::path::Component::CurDir => PathPart::CurDir,
                    std::path::Component::ParentDir => PathPart::ParentDir,
                    std::path::Component::Normal(_) => PathPart::Normal,
                },
        )
        .collect()
}

/// How many directories below its start a relative path stands after its
/// first `n` components; nothing where it has a prefix or a root among them,
/// or has at some point stepped above its start.
pub open spec fn depth_after(parts: Seq<PathPart>, n: nat) -> Option<nat>
    decreases n,
{
    if n == 0 {
        Some(0)
    } else {
        match depth_after(parts, (n - 1) as nat) {
            None => None,
            Some(depth) => match parts[n - 1] {
                PathPart::Prefix | PathPart::RootDir => None,
                PathPart::CurDir => Some(depth),
                PathPart::ParentDir => if depth == 0 {
                    None
                } else {
                    Some((depth - 1) as nat)
                },
                PathPart::Normal => Some(depth + 1),
            },
        }
    }
}

/// A path stays within the directory it is adjoined to when it is relative
/// and never steps above that directory, component by component.
pub open spec fn stays_within(parts: Seq<PathPart>) -> bool {
    depth_after(parts, parts.len()) is Some
}

/// Whether a path, read component by component, stays within the directory
/// it is adjoined to.
pub fn parts_stay_within(parts: &Vec<PathPart>) -> (r: bool)
    ensures
        r == stays_within(parts@),
{
    let mut depth: usize = 0;
    let mut i: usize = 0;
    while i < parts.len()
        invariant
            i <= parts.len(),
            depth <= i,
            depth_after(parts@, i as nat) == Some(depth as nat),
        decreases parts.len() - i,
    {
        match parts[i] {
            PathPart::Prefix | PathPart::RootDir => {
                proof {
                    lemma_left_once_left_for_good(parts@, (i + 1) as nat, parts@.len());
                }
                return false;
            },
            PathPart::CurDir => {},
            PathPart::ParentDir => {
                if depth == 0 {
                    proof {
                        lemma_left_once_left_for_good(parts@, (i + 1) as nat, parts@.len());
                    }
                    return false;
                }
                depth -= 1;
            },
            PathPart::Normal => {
                depth += 1;
            },
        }
        i += 1;
    }
    true
}

/// Whether the path that a text denotes stays within the directory it is
/// adjoined to.
pub fn path_stays_within(path: &str) -> (r: bool)
    ensures
        r == stays_within(path_parts(path@)),
{
    let parts = parts_of(path);
    parts_stay_within(&parts)
}

/// A path lies within a base when it starts with the base, component by
/// component, and what is left of it after the base stays within.
pub open spec fn lies_within(path: Seq<char>, base: Seq<char>) -> bool {
    match without_prefix(path, base) {
        Some(rest) => stays_within(path_parts(rest)),
        None => false,
    }
}

/// Whether a path lies within a base, read component by component.
pub fn path_lies_within(path: &str, base: &str) -> (r: bool)
    ensures
        r == lies_within(path@, base@),
{
    match path_strip_prefix(path, base) {
        Some(rest) => path_stays_within(rest.as_str()),
        None => false,
    }
}

/// A path that has left the directory does not come back: once the depth is
/// lost after some components, it is lost after any more of them.
pub proof fn lemma_left_once_left_for_good(parts: Seq<PathPart>, n: nat, m: nat)
    requires
        n <= m,
        depth_after(parts, n) is None,
    ensures
        depth_after(parts, m) is None,
    decreases m - n,
{
    if n < m {
        lemma_left_once_left_for_good(parts, n, (m - 1) as nat);
    }
}

/// A path of names only stays within, as deep as it has names; a path that
/// starts at a root or with `..` does not.
pub proof fn lemma_stays_within_examples(parts: Seq<PathPart>)
    ensures
        parts.len() == 0 ==> stays_within(parts),
        (forall|i: int| 0 <= i < parts.len() ==> parts[i] == PathPart::Normal) ==> depth_after(
            parts,
            parts.len(),
        ) == Some(parts.len()),
        parts.len() > 0 && (parts[0] == PathPart::RootDir || parts[0] == PathPart::Prefix
            || parts[0] == PathPart::ParentDir) ==> !stays_within(parts),
{
    if forall|i: int| 0 <= i < parts.len() ==> parts[i] == PathPart::Normal {
        lemma_names_go_down(parts, parts.len());
    }
    if parts.len() > 0 {
        assert(depth_after(parts, 0) == Some(0nat));
        if parts[0] == PathPart::RootDir || parts[0] == PathPart::Prefix || parts[0]
            == PathPart::ParentDir {
            assert(depth_after(parts, 1) is None);
            lemma_left_once_left_for_good(parts, 1, parts.len());
        }
    }
}

/// Each name takes a path one directory further down.
proof fn lemma_names_go_down(parts: Seq<PathPart>, n: nat)
    requires
        n <= parts.len(),
        forall|i: int| 0 <= i < parts.len() ==> parts[i] == PathPart::Normal,
    ensures
        depth_after(parts, n) == Some(n),
    decreases n,
{
    if n > 0 {
        lemma_names_go_down(parts, (n - 1) as nat);
    }
}

} // verus!
