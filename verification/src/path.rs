//! Paths that stay inside a repository, written as on Unix: the separator is `/`, and a path that
//! starts with it is absolute.
use vstd::prelude::*;
use vstd::string::StringExecFns;
use crate::text::characters;

verus! {

/// What is wrong with a path that should be relative to the repository.
#[derive(Debug, Clone, Copy, PartialEq, Eq, Structural)]
pub enum PathFault {
    Empty,
    /// The path starts at the root of the file system.
    NotRelative,
    /// A component of the path is `..`.
    Escapes,
}

/// A component of `path` starts at `at` and reads `..`.
pub open spec fn parent_at(path: Seq<char>, at: int) -> bool {
    &&& 0 <= at
    &&& at + 2 <= path.len()
    &&& path[at] == '.'
    &&& path[at + 1] == '.'
    &&& at == 0 || path[at - 1] == '/'
    &&& at + 2 == path.len() || path[at + 2] == '/'
}

/// Some component of `path` reads `..`.
pub open spec fn has_parent(path: Seq<char>) -> bool {
    exists|at: int| parent_at(path, at)
}

/// What keeps `path` from being relative to a repository and inside it.
pub open spec fn path_fault(path: Seq<char>) -> Option<PathFault> {
    if path.len() == 0 {
        Some(PathFault::Empty)
    } else if path[0] == '/' {
        Some(PathFault::NotRelative)
    } else if has_parent(path) {
        Some(PathFault::Escapes)
    } else {
        None
    }
}

/// The path of `relative` seen from `root`.
pub open spec fn joined(root: Seq<char>, relative: Seq<char>) -> Seq<char> {
    if root.len() == 0 || root.last() == '/' {
        root + relative
    } else {
        root.push('/') + relative
    }
}

/// Checks that `value` is a path inside the repository.
pub fn ensure_repo_relative(value: &str) -> (checked: Result<(), PathFault>)
    ensures
        match checked {
            Ok(()) => path_fault(value@) is None,
            Err(fault) => path_fault(value@) == Some(fault),
        },
{
    let path = characters(value);
    if path.len() == 0 {
        return Err(PathFault::Empty);
    }
    if path[0] == '/' {
        return Err(PathFault::NotRelative);
    }
    for at in 0..path.len()
        invariant
            path@ == value@,
            path@.len() > 0,
            path@[0] != '/',
            forall|before: int| 0 <= before < at ==> !parent_at(path@, before),
    {
        if path[at] == '.' && at + 1 < path.len() && path[at + 1] == '.' && (at == 0 || path[at - 1]
            == '/') && (at + 2 == path.len() || path[at + 2] == '/') {
            assert(parent_at(path@, at as int));
            return Err(PathFault::Escapes);
        }
    }
    Ok(())
}

/// The path of `value`, which must stay inside the repository, seen from `repo_root`.
pub fn resolve_repo_path(repo_root: &str, value: &str) -> (resolved: Result<String, PathFault>)
    ensures
        match resolved {
            Ok(path) => path_fault(value@) is None && path@ == joined(repo_root@, value@),
            Err(fault) => path_fault(value@) == Some(fault),
        },
{
    ensure_repo_relative(value)?;
    let root = characters(repo_root);
    let mut path = repo_root.to_owned();
    if root.len() > 0 && root[root.len() - 1] != '/' {
        path.append("/");
        proof {
            reveal_strlit("/");
        }
        assert(path@ =~= repo_root@.push('/'));
    }
    path.append(value);
    Ok(path)
}

/// A path resolved inside a repository starts with the repository's root, and no component
/// after that leads back up.
pub proof fn law_resolved_path_stays_inside(root: Seq<char>, relative: Seq<char>)
    requires
        path_fault(relative) is None,
    ensures
        root.is_prefix_of(joined(root, relative)),
        relative.is_suffix_of(joined(root, relative)),
        forall|at: int| root.len() <= at ==> !parent_at(joined(root, relative), at),
{
    let path = joined(root, relative);
    let start = path.len() - relative.len();
    assert(path.subrange(0, root.len() as int) =~= root);
    assert(path.subrange(start, path.len() as int) =~= relative);
    assert forall|at: int| root.len() <= at implies !parent_at(path, at) by {
        if parent_at(path, at) {
            assert(parent_at(relative, at - start));
        }
    }
}

/// A path is accepted where it holds something, does not start at the root, and has no
/// component that reads `..`: wherever two dots follow each other, a character other than `/`
/// stands before or after them.
pub proof fn law_path_without_parent_is_accepted(path: Seq<char>)
    requires
        path.len() > 0,
        path[0] != '/',
        forall|at: int|
            0 <= at < path.len() - 1 && #[trigger] path[at] == '.' && path[at + 1] == '.' ==> {
                ||| at > 0 && path[at - 1] != '/'
                ||| at + 2 < path.len() && path[at + 2] != '/'
            },
    ensures
        path_fault(path) is None,
{
    if has_parent(path) {
        let at = choose|at: int| parent_at(path, at);
        assert(path[at] == '.' && path[at + 1] == '.');
    }
}

/// Whatever stands before and after it, a component that reads `..` is refused, and so are the
/// empty path and one that starts at the root.
pub proof fn law_path_with_parent_is_refused(before: Seq<char>, after: Seq<char>)
    requires
        before.len() == 0 || before.last() == '/',
        after.len() == 0 || after[0] == '/',
    ensures
        path_fault(Seq::empty()) == Some(PathFault::Empty),
        path_fault(seq!['/'] + after) == Some(PathFault::NotRelative),
        path_fault(before + seq!['.', '.'] + after) == Some(
            if before.len() > 0 && before[0] == '/' {
                PathFault::NotRelative
            } else {
                PathFault::Escapes
            },
        ),
{
    let path = before + seq!['.', '.'] + after;
    let at = before.len() as int;
    assert(path[at] == '.' && path[at + 1] == '.');
    if before.len() > 0 {
        assert(path[at - 1] == before.last());
        assert(path[0] == before[0]);
    }
    if after.len() > 0 {
        assert(path[at + 2] == after[0]);
    }
    assert(parent_at(path, at));
}

/// Between the root and the path that is joined to it stands one separator: that of the root
/// where it ends in one, and else one more.
pub proof fn law_joined_by_one_separator(root: Seq<char>, relative: Seq<char>)
    ensures
        joined(Seq::empty(), relative) == relative,
        joined(root.push('/'), relative) == root + seq!['/'] + relative,
        root.len() > 0 && root.last() != '/' ==> joined(root, relative) == root + seq!['/']
            + relative,
{
    assert(joined(Seq::empty(), relative) =~= relative);
    assert(joined(root.push('/'), relative) =~= root + seq!['/'] + relative);
    assert(root.push('/') + relative =~= root + seq!['/'] + relative);
}

} // verus!
