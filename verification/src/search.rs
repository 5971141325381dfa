//! The candidate paths under which a program is looked for.

use crate::text::{glue, lemma_split_nonempty, split, split_on, starts_with};
use vstd::prelude::*;

verus! {

/// The search list that stands in where the environment provides none.
pub open spec fn fallback_list() -> Seq<char> {
    "/bin:/usr/bin"@
}

/// Whether a program name is itself the path to look at: it begins with the
/// path separator.
pub open spec fn is_literal_path(name: Seq<char>) -> bool {
    name.len() > 0 && name[0] == '/'
}

/// The directories of a search list, in order: the pieces between colons.
pub open spec fn directories(list: Option<Seq<char>>) -> Seq<Seq<char>> {
    split(
        match list {
            Some(text) => text,
            None => fallback_list(),
        },
        ':',
    )
}

/// The path of the entry `name` in the directory `dir`.
pub open spec fn entry(dir: Seq<char>, name: Seq<char>) -> Seq<char> {
    dir + "/"@ + name
}

/// The paths to try for `name`, in order: the name alone where it is a
/// literal path, else its entry in each directory of the search list.
pub open spec fn candidates(name: Seq<char>, list: Option<Seq<char>>) -> Seq<Seq<char>> {
    if is_literal_path(name) {
        seq![name]
    } else {
        Seq::new(directories(list).len(), |i: int| entry(directories(list)[i], name))
    }
}

/// The path that a lookup settles on when `present` tells which paths
/// exist: the first of `paths` that does, if any.
pub open spec fn first_existing(
    paths: Seq<Seq<char>>,
    present: spec_fn(Seq<char>) -> bool,
) -> Option<Seq<char>>
    decreases paths.len(),
{
    if paths.len() == 0 {
        None
    } else if present(paths[0]) {
        Some(paths[0])
    } else {
        first_existing(paths.skip(1), present)
    }
}

/// The path settled on exists and is a candidate before which none exists;
/// and where none is settled on, no candidate exists.
pub proof fn lemma_first_existing(paths: Seq<Seq<char>>, present: spec_fn(Seq<char>) -> bool)
    ensures
        match first_existing(paths, present) {
            Some(path) => exists|k: int|
                0 <= k < paths.len() && #[trigger] paths[k] == path && present(path) && forall|j: int|
                    0 <= j < k ==> !present(#[trigger] paths[j]),
            None => forall|j: int| 0 <= j < paths.len() ==> !present(#[trigger] paths[j]),
        },
    decreases paths.len(),
{
    if paths.len() > 0 && !present(paths[0]) {
        let rest = paths.skip(1);
        lemma_first_existing(rest, present);
        match first_existing(rest, present) {
            Some(path) => {
                let k = choose|k: int|
                    0 <= k < rest.len() && #[trigger] rest[k] == path && present(path) && forall|
                        j: int,
                    |
                        0 <= j < k ==> !present(#[trigger] rest[j]);
                assert forall|j: int| 0 <= j < k + 1 implies !present(#[trigger] paths[j]) by {
                    if j > 0 {
                        assert(paths[j] == rest[j - 1]);
                    }
                }
            },
            None => {
                assert forall|j: int| 0 <= j < paths.len() implies !present(
                    #[trigger] paths[j],
                ) by {
                    if j > 0 {
                        assert(paths[j] == rest[j - 1]);
                    }
                }
            },
        }
    }
}

/// There is always a path to try.
pub proof fn lemma_candidates_nonempty(name: Seq<char>, list: Option<Seq<char>>)
    ensures
        candidates(name, list).len() >= 1,
{
    lemma_split_nonempty(
        match list {
            Some(text) => text,
            None => fallback_list(),
        },
        ':',
    );
}

/// For a literal path the search list is of no account: the one candidate is
/// the path as given.
pub proof fn lemma_literal_path_ignores_list(name: Seq<char>, list: Option<Seq<char>>)
    requires
        is_literal_path(name),
    ensures
        candidates(name, list) == seq![name],
{
}

/// Whether `name` begins with the path separator.
pub fn literal_path(name: &str) -> (literal: bool)
    ensures
        literal == is_literal_path(name@),
{
    starts_with(name, '/')
}

/// The paths to try for `name` under the search list `list`.
pub fn search_candidates(name: &str, list: Option<&str>) -> (paths: Vec<String>)
    ensures
        paths.deep_view() == candidates(name@, list.deep_view()),
        paths.len() >= 1,
{
    let mut paths: Vec<String> = Vec::new();
    if literal_path(name) {
        paths.push(name.to_owned());
        return paths;
    }
    let dirs = match list {
        Some(text) => split_on(text, ':'),
        None => split_on("/bin:/usr/bin", ':'),
    };
    proof {
        lemma_candidates_nonempty(name@, list.deep_view());
    }
    let n = dirs.len();
    let mut i: usize = 0;
    while i < n
        invariant
            i <= n,
            n == dirs.len(),
            !is_literal_path(name@),
            dirs.deep_view() == directories(list.deep_view()),
            paths.deep_view() == candidates(name@, list.deep_view()).take(i as int),
        decreases n - i,
    {
        let ghost before = paths.deep_view();
        let mut path = glue(dirs[i].as_str(), "/");
        path.append(name);
        paths.push(path);
        proof {
            assert(candidates(name@, list.deep_view()).take(i + 1) =~= before.push(
                entry(dirs[i as int]@, name@),
            ));
        }
        i = i + 1;
    }
    paths
}

} // verus!
