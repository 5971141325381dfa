//! Lexical resolution of a relative path against a directory.
//!
//! A directory is known by its absolute path, and a relative path is taken
//! component by component: `.` stays, `..` goes to the directory above, and
//! anything else is appended.  Nothing here asks the file system.

use crate::text::{join, join_with, lemma_split_without_separator, same_text, split, split_on};
use vstd::prelude::*;

verus! {

/// Whether a piece between separators names something: the empty piece and
/// `.` stand for the directory they are found in.
pub open spec fn is_name(piece: Seq<char>) -> bool {
    piece.len() > 0 && piece != "."@
}

/// The pieces that name something, in order.
pub open spec fn only_names(pieces: Seq<Seq<char>>) -> Seq<Seq<char>>
    decreases pieces.len(),
{
    if pieces.len() == 0 {
        Seq::empty()
    } else if is_name(pieces.last()) {
        only_names(pieces.drop_last()).push(pieces.last())
    } else {
        only_names(pieces.drop_last())
    }
}

/// The names along an absolute path, from the root down.
pub open spec fn names(path: Seq<char>) -> Seq<Seq<char>> {
    only_names(split(path, '/'))
}

/// The absolute path along the given names: a separator before each name,
/// and the separator alone for the root.
pub open spec fn render(dir: Seq<Seq<char>>) -> Seq<char> {
    "/"@ + join(dir, "/"@)
}

/// The path of the directory above the one at `path`: the path along all
/// names but the last.  A path without names, such as the root's, stays.
pub open spec fn parent(path: Seq<char>) -> Seq<char> {
    if names(path).len() > 0 {
        render(names(path).drop_last())
    } else {
        path
    }
}

/// The path with `piece` appended as a further component: after a separator,
/// unless the path ends in one or is empty.
pub open spec fn pushed(path: Seq<char>, piece: Seq<char>) -> Seq<char> {
    if path.len() > 0 && path.last() != '/' {
        path + "/"@ + piece
    } else {
        path + piece
    }
}

/// The path reached from `path` by one component of a relative path.
pub open spec fn step(path: Seq<char>, piece: Seq<char>) -> Seq<char> {
    if piece == "."@ {
        path
    } else if piece == ".."@ {
        parent(path)
    } else {
        pushed(path, piece)
    }
}

/// The path reached from `path` by taking the components in turn.
pub open spec fn walk(path: Seq<char>, pieces: Seq<Seq<char>>) -> Seq<char>
    decreases pieces.len(),
{
    if pieces.len() == 0 {
        path
    } else {
        step(walk(path, pieces.drop_last()), pieces.last())
    }
}

/// The path that `relative` leads to from the directory at `base`.
pub open spec fn resolved(base: Seq<char>, relative: Seq<char>) -> Seq<char> {
    walk(base, split(relative, '/'))
}

/// The root has no names, and the path along no names is the root's.
pub proof fn lemma_root_has_no_names()
    ensures
        names("/"@) == Seq::<Seq<char>>::empty(),
        render(Seq::<Seq<char>>::empty()) == "/"@,
        parent("/"@) == "/"@,
{
    reveal_strlit("/");
    reveal_strlit(".");
    let no_text = Seq::<char>::empty();
    assert(split("/"@.drop_last(), '/') =~= seq![no_text]);
    assert(split("/"@, '/') =~= seq![no_text, no_text]);
    assert(only_names(seq![no_text, no_text].drop_last().drop_last()).len() == 0);
    assert(only_names(seq![no_text, no_text].drop_last()).len() == 0);
}

/// The path `..` leads from every directory to the one above it, and from
/// the root to the root.
pub proof fn lemma_parent(base: Seq<char>)
    ensures
        resolved(base, ".."@) == parent(base),
        resolved("/"@, ".."@) == "/"@,
{
    reveal_strlit("..");
    reveal_strlit(".");
    let up = ".."@;
    lemma_split_without_separator(up, '/');
    let pieces = seq![up];
    assert(walk(base, pieces) == step(walk(base, pieces.drop_last()), up));
    assert(walk("/"@, pieces) == step(walk("/"@, pieces.drop_last()), up));
    lemma_root_has_no_names();
}

/// Every path reached from an absolute path is absolute.
pub proof fn lemma_walk_stays_absolute(path: Seq<char>, pieces: Seq<Seq<char>>)
    requires
        path.len() > 0,
        path[0] == '/',
    ensures
        walk(path, pieces).len() > 0,
        walk(path, pieces)[0] == '/',
    decreases pieces.len(),
{
    reveal_strlit("/");
    if pieces.len() > 0 {
        lemma_walk_stays_absolute(path, pieces.drop_last());
    }
}

/// The names along `path`.
pub fn names_of(path: &str) -> (dir: Vec<String>)
    ensures
        dir.deep_view() == names(path@),
{
    let pieces = split_on(path, '/');
    let mut dir: Vec<String> = Vec::new();
    let n = pieces.len();
    let mut i: usize = 0;
    while i < n
        invariant
            i <= n,
            n == pieces.len(),
            dir.deep_view() == only_names(pieces.deep_view().take(i as int)),
        decreases n - i,
    {
        let piece = pieces[i].as_str();
        proof {
            let upto = pieces.deep_view().take(i + 1);
            assert(upto.drop_last() =~= pieces.deep_view().take(i as int));
            assert(upto.last() == piece@);
        }
        if !piece.is_empty() && !same_text(piece, ".") {
            dir.push(piece.to_owned());
        }
        i = i + 1;
    }
    assert(pieces.deep_view().take(n as int) =~= pieces.deep_view());
    dir
}

/// Writes the absolute path along `dir`.
pub fn render_path(dir: &Vec<String>) -> (path: String)
    ensures
        path@ == render(dir.deep_view()),
{
    let mut path = "/".to_owned();
    let below = join_with(dir, "/");
    path.append(below.as_str());
    path
}

/// The path of the directory above the one at `path`.
pub fn parent_of(path: String) -> (above: String)
    ensures
        above@ == parent(path@),
{
    let mut dir = names_of(path.as_str());
    if dir.len() > 0 {
        let ghost all = dir.deep_view();
        dir.pop();
        assert(dir.deep_view() =~= all.drop_last());
        render_path(&dir)
    } else {
        path
    }
}

/// Whether `path` ends in the separator.
fn ends_in_separator(path: &str) -> (ends: bool)
    ensures
        ends == (path@.len() > 0 && path@.last() == '/'),
{
    let mut ends = false;
    for c in it: path.chars()
        invariant
            it.seq() == path@,
            ends == (it.index() > 0 && path@[it.index() - 1] == '/'),
    {
        ends = c == '/';
    }
    ends
}

/// Appends `piece` to `path` as a further component.
pub fn push_piece(path: String, piece: &str) -> (longer: String)
    ensures
        longer@ == pushed(path@, piece@),
{
    let mut longer = path;
    if !longer.as_str().is_empty() && !ends_in_separator(longer.as_str()) {
        longer.append("/");
    }
    longer.append(piece);
    longer
}

/// Resolves `relative` against the directory at `base`.
pub fn resolve(base: &str, relative: &str) -> (path: String)
    ensures
        path@ == resolved(base@, relative@),
{
    let pieces = split_on(relative, '/');
    let mut path = base.to_owned();
    let n = pieces.len();
    let mut i: usize = 0;
    while i < n
        invariant
            i <= n,
            n == pieces.len(),
            path@ == walk(base@, pieces.deep_view().take(i as int)),
        decreases n - i,
    {
        let piece = pieces[i].as_str();
        proof {
            let upto = pieces.deep_view().take(i + 1);
            assert(upto.drop_last() =~= pieces.deep_view().take(i as int));
            assert(upto.last() == piece@);
        }
        if !same_text(piece, ".") {
            path = if same_text(piece, "..") {
                parent_of(path)
            } else {
                push_piece(path, piece)
            };
        }
        i = i + 1;
    }
    assert(pieces.deep_view().take(n as int) =~= pieces.deep_view());
    path
}

} // verus!
