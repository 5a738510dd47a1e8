//! Paths, and where the daemon keeps its files.
//!
//! A path is a text, read by the rules of Unix or by those of Windows. The rules of
//! Windows know drives and shares; a path behind `\\?\` is read as one on a share.
pub mod laws;

use crate::text::{same, same_texts, text_option, texts};
use vstd::prelude::*;

verus! {

/// Whether a character stands between the names of a path.
pub open spec fn separator(windows: bool, c: char) -> bool {
    c == '/' || (windows && c == '\\')
}

fn is_separator(windows: bool, c: char) -> (r: bool)
    ensures
        r == separator(windows, c),
{
    c == '/' || (windows && c == '\\')
}

/// Where the first separator from a place on stands, or the end where there is none.
pub open spec fn next_separator(windows: bool, path: Seq<char>, from: int) -> int
    decreases path.len() - from,
{
    if from < 0 || from >= path.len() {
        path.len() as int
    } else if separator(windows, path[from]) {
        from
    } else {
        next_separator(windows, path, from + 1)
    }
}

fn find_separator(windows: bool, path: &str, from: usize) -> (r: usize)
    requires
        from <= path@.len(),
    ensures
        from <= r <= path@.len(),
        r == next_separator(windows, path@, from as int),
{
    let n: usize = path.unicode_len();
    let mut at: usize = from;
    while at < n && !is_separator(windows, path.get_char(at))
        invariant
            n == path@.len(),
            from <= at <= n,
            next_separator(windows, path@, from as int) == next_separator(
                windows,
                path@,
                at as int,
            ),
        decreases n - at,
    {
        at += 1;
    }
    at
}

/// A path that starts with a drive, such as `C:`.
pub open spec fn on_a_drive(path: Seq<char>) -> bool {
    path.len() >= 2 && ('a' <= path[0] <= 'z' || 'A' <= path[0] <= 'Z') && path[1] == ':'
}

fn is_on_a_drive(path: &str) -> (r: bool)
    ensures
        r == on_a_drive(path@),
{
    if path.unicode_len() < 2 {
        return false;
    }
    let letter: char = path.get_char(0);
    (('a' <= letter && letter <= 'z') || ('A' <= letter && letter <= 'Z')) && path.get_char(1)
        == ':'
}

/// A path that starts with two separators, a server, a separator and a share.
pub open spec fn on_a_share(path: Seq<char>) -> bool {
    &&& path.len() > 2
    &&& separator(true, path[0])
    &&& separator(true, path[1])
    &&& {
        let server = next_separator(true, path, 2);
        2 < server && server + 1 < path.len() && !separator(true, path[server + 1])
    }
}

fn is_on_a_share(path: &str) -> (r: bool)
    ensures
        r == on_a_share(path@),
{
    let n: usize = path.unicode_len();
    if n <= 2 || !is_separator(true, path.get_char(0)) || !is_separator(true, path.get_char(1)) {
        return false;
    }
    let server: usize = find_separator(true, path, 2);
    2 < server && server < n - 1 && !is_separator(true, path.get_char(server + 1))
}

/// Where the share of a path on a share ends.
pub open spec fn share_end(path: Seq<char>) -> int {
    next_separator(true, path, next_separator(true, path, 2) + 1)
}

/// How long the drive or the share in front of a path is.
pub open spec fn prefix_end(windows: bool, path: Seq<char>) -> int {
    if windows && on_a_drive(path) {
        2
    } else if windows && on_a_share(path) {
        share_end(path)
    } else {
        0
    }
}

fn find_prefix_end(windows: bool, path: &str) -> (r: usize)
    ensures
        r <= path@.len(),
        r == prefix_end(windows, path@),
{
    let n: usize = path.unicode_len();
    if windows && is_on_a_drive(path) {
        2
    } else if windows && is_on_a_share(path) {
        let server: usize = find_separator(true, path, 2);
        assert(server < n);
        find_separator(true, path, server + 1)
    } else {
        0
    }
}

/// A separator stands where a path starts, behind the drive or the share.
pub open spec fn root_is_written(windows: bool, path: Seq<char>) -> bool {
    prefix_end(windows, path) < path.len() && separator(
        windows,
        path[prefix_end(windows, path)],
    )
}

/// A path starts at a root. A share always does.
pub open spec fn rooted(windows: bool, path: Seq<char>) -> bool {
    root_is_written(windows, path) || (windows && on_a_share(path))
}

/// Where the names of a path start.
pub open spec fn body_start(windows: bool, path: Seq<char>) -> int {
    if root_is_written(windows, path) {
        prefix_end(windows, path) + 1
    } else {
        prefix_end(windows, path)
    }
}

/// What is known of a path before its names are looked at.
struct PathStart {
    rooted: bool,
    body: usize,
}

fn path_start(windows: bool, path: &str) -> (r: PathStart)
    ensures
        r.rooted == rooted(windows, path@),
        r.body == body_start(windows, path@),
        r.body <= path@.len(),
{
    let prefix: usize = find_prefix_end(windows, path);
    let written: bool = prefix < path.unicode_len() && is_separator(
        windows,
        path.get_char(prefix),
    );
    PathStart {
        rooted: written || (windows && is_on_a_share(path)),
        body: if written {
            prefix + 1
        } else {
            prefix
        },
    }
}

/// Whether a path means the same wherever it is looked up: on Unix it starts at the
/// root, on Windows at the root of a drive or on a share.
pub open spec fn absolute(windows: bool, path: Seq<char>) -> bool {
    rooted(windows, path) && (!windows || prefix_end(windows, path) > 0)
}

/// Whether a path means the same wherever it is looked up.
pub fn is_absolute(windows: bool, path: &str) -> (r: bool)
    ensures
        r == absolute(windows, path@),
{
    path_start(windows, path).rooted && (!windows || find_prefix_end(windows, path) > 0)
}

/// What stands between the separators, empty pieces included, each with the place at
/// which it ends.
pub open spec fn pieces_of(windows: bool, body: Seq<char>) -> Seq<(Seq<char>, int)>
    decreases body.len(),
{
    if body.len() == 0 {
        seq![(Seq::empty(), 0)]
    } else {
        let before = pieces_of(windows, body.drop_last());
        if separator(windows, body.last()) {
            before.push((Seq::empty(), body.len() as int))
        } else {
            before.drop_last().push((before.last().0.push(body.last()), body.len() as int))
        }
    }
}

/// Whether a piece names something: an empty one does not, and `.` does only at the
/// start of a path that starts at no root.
pub open spec fn names_something(piece: Seq<char>, first: bool, rooted: bool) -> bool {
    piece.len() > 0 && (piece != "."@ || (first && !rooted))
}

/// Those of the pieces that name something.
pub open spec fn names_among(pieces: Seq<(Seq<char>, int)>, rooted: bool) -> Seq<(Seq<char>, int)>
    decreases pieces.len(),
{
    if pieces.len() == 0 {
        Seq::empty()
    } else {
        let before = names_among(pieces.drop_last(), rooted);
        if names_something(pieces.last().0, pieces.len() == 1, rooted) {
            before.push(pieces.last())
        } else {
            before
        }
    }
}

/// The names of a path, each with the place in its body at which it ends.
pub open spec fn placed_names(windows: bool, path: Seq<char>) -> Seq<(Seq<char>, int)> {
    names_among(
        pieces_of(windows, path.skip(body_start(windows, path))),
        rooted(windows, path),
    )
}

/// The names on the way to where a path leads.
pub open spec fn path_names(windows: bool, path: Seq<char>) -> Seq<Seq<char>> {
    placed_names(windows, path).map_values(|name: (Seq<char>, int)| name.0)
}

/// The places over characters.
pub open spec fn placed(list: Seq<(String, usize)>) -> Seq<(Seq<char>, int)> {
    list.map_values(|p: (String, usize)| (p.0@, p.1 as int))
}

fn split_body(windows: bool, path: &str, from: usize) -> (r: Vec<(String, usize)>)
    requires
        from <= path@.len(),
    ensures
        placed(r@) == pieces_of(windows, path@.skip(from as int)),
{
    let n: usize = path.unicode_len();
    let ghost body = path@.skip(from as int);
    let mut pieces: Vec<(String, usize)> = Vec::new();
    let mut start: usize = from;
    let mut to: usize = from;
    proof {
        assert(body.take(0) =~= Seq::empty());
        assert(path@.subrange(from as int, from as int) =~= Seq::empty());
        assert(pieces_of(windows, body.take(0)) =~= placed(pieces@).push(
            (path@.subrange(from as int, from as int), 0),
        ));
    }
    while to < n
        invariant
            n == path@.len(),
            from <= start <= to <= n,
            body == path@.skip(from as int),
            pieces_of(windows, body.take(to - from)) == placed(pieces@).push(
                (path@.subrange(start as int, to as int), to - from),
            ),
        decreases n - to,
    {
        let ghost was = placed(pieces@);
        let ghost piece = path@.subrange(start as int, to as int);
        let ghost now = body.take(to + 1 - from);
        proof {
            assert(now.drop_last() =~= body.take(to - from));
            assert(now.last() == path@[to as int]);
            assert(was.push((piece, to - from)).drop_last() =~= was);
        }
        if is_separator(windows, path.get_char(to)) {
            pieces.push((path.substring_char(start, to).to_owned(), to - from));
            start = to + 1;
            proof {
                assert(placed(pieces@) =~= was.push((piece, to - from)));
                assert(path@.subrange(start as int, to + 1) =~= Seq::empty());
            }
        } else {
            proof {
                assert(path@.subrange(start as int, to + 1) =~= piece.push(path@[to as int]));
            }
        }
        to += 1;
    }
    let ghost was = placed(pieces@);
    pieces.push((path.substring_char(start, n).to_owned(), n - from));
    proof {
        assert(body.take(n - from) =~= body);
        assert(placed(pieces@) =~= was.push(
            (path@.subrange(start as int, n as int), n - from),
        ));
    }
    pieces
}

fn names_of(windows: bool, path: &str) -> (r: Vec<(String, usize)>)
    ensures
        placed(r@) == placed_names(windows, path@),
{
    let start: PathStart = path_start(windows, path);
    let pieces: Vec<(String, usize)> = split_body(windows, path, start.body);
    let ghost all = placed(pieces@);
    let ghost root = start.rooted;
    let mut r: Vec<(String, usize)> = Vec::new();
    let mut i: usize = 0;
    proof {
        assert(placed(r@) =~= names_among(all.take(0), root));
    }
    while i < pieces.len()
        invariant
            i <= pieces.len(),
            root == start.rooted,
            all == placed(pieces@),
            placed(r@) == names_among(all.take(i as int), root),
        decreases pieces.len() - i,
    {
        let ghost was = placed(r@);
        proof {
            assert(all.take(i + 1).drop_last() =~= all.take(i as int));
            assert(all.take(i + 1).last() == (pieces@[i as int].0@, pieces@[i as int].1 as int));
        }
        let piece: &str = pieces[i].0.as_str();
        if !piece.is_empty() && (!same(piece, ".") || (i == 0 && !start.rooted)) {
            r.push((pieces[i].0.clone(), pieces[i].1));
            proof {
                assert(placed(r@) =~= was.push(
                    (pieces@[i as int].0@, pieces@[i as int].1 as int),
                ));
            }
        }
        i += 1;
    }
    proof {
        assert(all.take(i as int) =~= all);
    }
    r
}

/// Two letters that differ at most in their case.
pub open spec fn same_letter(a: char, b: char) -> bool {
    a == b || a as u32 + 32 == b as u32 || b as u32 + 32 == a as u32
}

/// Two paths are on one drive, whatever the case of its letter, or on one share, or
/// on neither.
pub open spec fn one_prefix(windows: bool, a: Seq<char>, b: Seq<char>) -> bool {
    if windows && on_a_drive(a) {
        on_a_drive(b) && same_letter(a[0], b[0])
    } else if windows && on_a_share(a) {
        on_a_share(b) && server_of(a) == server_of(b) && share_of(a) == share_of(b)
    } else {
        prefix_end(windows, b) == 0
    }
}

/// The server of a path on a share.
pub open spec fn server_of(path: Seq<char>) -> Seq<char> {
    path.subrange(2, next_separator(true, path, 2))
}

/// The share of a path on a share.
pub open spec fn share_of(path: Seq<char>) -> Seq<char> {
    path.subrange(next_separator(true, path, 2) + 1, share_end(path))
}

fn same_prefix(windows: bool, a: &str, b: &str) -> (r: bool)
    ensures
        r == one_prefix(windows, a@, b@),
{
    if windows && is_on_a_drive(a) {
        if !is_on_a_drive(b) {
            return false;
        }
        let x: u32 = a.get_char(0) as u32;
        let y: u32 = b.get_char(0) as u32;
        x == y || x + 32 == y || y + 32 == x
    } else if windows && is_on_a_share(a) {
        if !is_on_a_share(b) {
            return false;
        }
        let a_len: usize = a.unicode_len();
        let b_len: usize = b.unicode_len();
        let x: usize = find_separator(true, a, 2);
        let y: usize = find_separator(true, b, 2);
        assert(x < a_len && y < b_len);
        let a_end: usize = find_separator(true, a, x + 1);
        let b_end: usize = find_separator(true, b, y + 1);
        same(a.substring_char(2, x), b.substring_char(2, y)) && same(
            a.substring_char(x + 1, a_end),
            b.substring_char(y + 1, b_end),
        )
    } else {
        find_prefix_end(windows, b) == 0
    }
}

/// Two paths are one: they are on one drive or share or on none, both start at a root
/// or neither does, and they go by the same names. A doubled separator, one at the
/// end, and a `.` on the way make no difference.
pub open spec fn one_path(windows: bool, a: Seq<char>, b: Seq<char>) -> bool {
    &&& one_prefix(windows, a, b)
    &&& rooted(windows, a) == rooted(windows, b)
    &&& path_names(windows, a) == path_names(windows, b)
}

fn names_alone(windows: bool, path: &str) -> (r: Vec<String>)
    ensures
        texts(r@) == path_names(windows, path@),
{
    let names: Vec<(String, usize)> = names_of(windows, path);
    let ghost all = path_names(windows, path@);
    let mut r: Vec<String> = Vec::new();
    let mut i: usize = 0;
    while i < names.len()
        invariant
            i <= names.len(),
            placed(names@) == placed_names(windows, path@),
            all == path_names(windows, path@),
            texts(r@) =~= all.take(i as int),
        decreases names.len() - i,
    {
        let ghost was = texts(r@);
        r.push(names[i].0.clone());
        proof {
            assert(placed(names@)[i as int] == (names@[i as int].0@, names@[i as int].1 as int));
            assert(all[i as int] == names@[i as int].0@);
            assert(texts(r@) =~= was.push(all[i as int]));
            assert(all.take(i + 1) =~= all.take(i as int).push(all[i as int]));
        }
        i += 1;
    }
    proof {
        assert(placed(names@).len() == all.len());
        assert(all.take(i as int) =~= all);
    }
    r
}

/// Whether two paths are one, however they are written.
pub fn same_path(windows: bool, a: &str, b: &str) -> (r: bool)
    ensures
        r == one_path(windows, a@, b@),
{
    same_prefix(windows, a, b) && path_start(windows, a).rooted == path_start(windows, b).rooted
        && same_texts(&names_alone(windows, a), &names_alone(windows, b))
}

/// A separator at the end of a Unix path makes no other path of it.
pub proof fn a_separator_at_the_end_makes_no_difference(path: Seq<char>)
    requires
        path.len() > 0,
    ensures
        one_path(false, path, path.push('/')),
{
    let longer = path.push('/');
    let start = body_start(false, path);
    assert(body_start(false, longer) == start);
    assert(longer.skip(start).drop_last() =~= path.skip(start));
    assert(longer.skip(start).last() == '/');
    let short = pieces_of(false, path.skip(start));
    let long = pieces_of(false, longer.skip(start));
    assert(long.drop_last() =~= short);
    assert(placed_names(false, longer) == placed_names(false, path));
}

/// The name that a path ends in, where it ends in one: `..` and `.` name no file.
pub open spec fn last_name(windows: bool, path: Seq<char>) -> Option<Seq<char>> {
    let names = path_names(windows, path);
    if names.len() == 0 || names.last() == ".."@ || names.last() == "."@ {
        None
    } else {
        Some(names.last())
    }
}

/// The name that a path ends in, where it ends in one.
pub fn file_name(windows: bool, path: &str) -> (r: Option<String>)
    ensures
        text_option(r) == last_name(windows, path@),
{
    let names: Vec<String> = names_alone(windows, path);
    let n: usize = names.len();
    proof {
        assert(texts(names@).len() == n);
    }
    if n == 0 || same(names[n - 1].as_str(), "..") || same(names[n - 1].as_str(), ".") {
        None
    } else {
        Some(names[n - 1].clone())
    }
}

/// A path up to the end of its last name but one, or up to where its names start;
/// nothing where it has no name.
pub open spec fn before_last_name(windows: bool, path: Seq<char>) -> Option<Seq<char>> {
    let names = placed_names(windows, path);
    if names.len() == 0 {
        None
    } else if names.len() == 1 {
        Some(path.take(body_start(windows, path)))
    } else {
        Some(path.take(body_start(windows, path) + names[names.len() - 2].1))
    }
}

proof fn pieces_end_within(windows: bool, body: Seq<char>)
    ensures
        pieces_of(windows, body).len() > 0,
        forall|i: int|
            0 <= i < pieces_of(windows, body).len() ==> 0 <= (#[trigger] pieces_of(
                windows,
                body,
            )[i]).1 <= body.len(),
    decreases body.len(),
{
    if body.len() > 0 {
        let before = pieces_of(windows, body.drop_last());
        pieces_end_within(windows, body.drop_last());
        assert forall|i: int| 0 <= i < pieces_of(windows, body).len() implies 0 <= (
        #[trigger] pieces_of(windows, body)[i]).1 <= body.len() by {
            if i < pieces_of(windows, body).len() - 1 {
                assert(pieces_of(windows, body)[i] == before[i]);
            }
        }
    }
}

proof fn names_are_pieces(pieces: Seq<(Seq<char>, int)>, rooted: bool)
    ensures
        forall|i: int|
            0 <= i < names_among(pieces, rooted).len() ==> pieces.contains(
                #[trigger] names_among(pieces, rooted)[i],
            ),
    decreases pieces.len(),
{
    if pieces.len() > 0 {
        let before = names_among(pieces.drop_last(), rooted);
        names_are_pieces(pieces.drop_last(), rooted);
        assert forall|i: int| 0 <= i < names_among(pieces, rooted).len() implies pieces.contains(
            #[trigger] names_among(pieces, rooted)[i],
        ) by {
            if i < before.len() {
                let k = choose|k: int|
                    0 <= k < pieces.drop_last().len() && pieces.drop_last()[k] == before[i];
                assert(pieces[k] == before[i]);
            } else {
                assert(pieces[pieces.len() - 1] == pieces.last());
            }
        }
    }
}

/// A path without the name that it ends in, where it has a name.
pub fn parent(windows: bool, path: &str) -> (r: Option<String>)
    ensures
        text_option(r) == before_last_name(windows, path@),
{
    let len: usize = path.unicode_len();
    let start: PathStart = path_start(windows, path);
    let names: Vec<(String, usize)> = names_of(windows, path);
    let n: usize = names.len();
    proof {
        assert(placed(names@).len() == n);
    }
    if n == 0 {
        return None;
    }
    if n == 1 {
        let dir: &str = path.substring_char(0, start.body);
        proof {
            assert(dir@ =~= path@.take(start.body as int));
        }
        return Some(dir.to_owned());
    }
    proof {
        let body = path@.skip(start.body as int);
        let pieces = pieces_of(windows, body);
        pieces_end_within(windows, body);
        names_are_pieces(pieces, start.rooted);
        assert(pieces.contains(placed_names(windows, path@)[n - 2]));
        assert(placed(names@)[n - 2] == (names@[n - 2].0@, names@[n - 2].1 as int));
        assert(start.body + names@[n - 2].1 <= len);
    }
    let dir: &str = path.substring_char(0, start.body + names[n - 2].1);
    proof {
        assert(dir@ =~= path@.take(start.body + names@[n - 2].1));
    }
    Some(dir.to_owned())
}

/// A name that can stand between two separators and names a file.
pub open spec fn plain_name(name: Seq<char>) -> bool {
    name.len() > 0 && !name.contains('/') && name != "."@ && name != ".."@
}

proof fn a_name_is_the_last_piece(dir: Seq<char>, name: Seq<char>)
    requires
        !name.contains('/'),
    ensures
        pieces_of(false, dir.push('/') + name) == pieces_of(false, dir).push(
            (name, (dir.len() + 1 + name.len()) as int),
        ),
    decreases name.len(),
{
    let body = dir.push('/') + name;
    if name.len() == 0 {
        assert(body =~= dir.push('/'));
        assert(body.drop_last() =~= dir);
        assert(name =~= Seq::empty());
    } else {
        let shorter = name.drop_last();
        assert forall|i: int| 0 <= i < shorter.len() implies shorter[i] != '/' by {
            assert(name[i] == shorter[i]);
            assert(name.contains(name[i]));
        }
        a_name_is_the_last_piece(dir, shorter);
        assert(name.contains(name.last()));
        assert(body.drop_last() =~= dir.push('/') + shorter);
        assert(shorter.push(name.last()) =~= name);
        let before = pieces_of(false, body.drop_last());
        assert(before.drop_last() =~= pieces_of(false, dir));
    }
}

proof fn what_ends_in_a_name_ends_there(body: Seq<char>, rooted: bool)
    requires
        body.len() > 0,
        body.last() != '/',
        body.last() != '.',
    ensures
        names_among(pieces_of(false, body), rooted).len() > 0,
        names_among(pieces_of(false, body), rooted).last().1 == body.len(),
{
    let pieces = pieces_of(false, body);
    let before = pieces_of(false, body.drop_last());
    pieces_end_within(false, body.drop_last());
    let text = before.last().0.push(body.last());
    assert(pieces.last() == (text, body.len() as int));
    reveal_strlit(".");
    assert(text.last() == body.last());
    assert(text != "."@) by {
        assert("."@.last() == '.');
    }
}

/// A file that stands in a directory, behind one separator, has its name and its
/// directory. The directory is not written with a separator or a dot at its end.
pub proof fn a_file_stands_in_its_directory(dir: Seq<char>, name: Seq<char>)
    requires
        plain_name(name),
        dir.len() > 0,
        dir.last() != '/',
        dir.last() != '.',
    ensures
        last_name(false, dir + "/"@ + name) == Some(name),
        before_last_name(false, dir + "/"@ + name) == Some(dir),
{
    reveal_strlit("/");
    let path = dir + "/"@ + name;
    let root = rooted(false, path);
    assert(path =~= dir.push('/') + name);
    assert(path[0] == dir[0]);
    let start = body_start(false, path);
    let inner = dir.skip(start);
    assert(start <= dir.len());
    assert(inner.len() > 0) by {
        if inner.len() == 0 {
            assert(dir[0] == dir.last());
        }
    }
    assert(path.skip(start) =~= inner.push('/') + name);
    a_name_is_the_last_piece(inner, name);
    let pieces = pieces_of(false, path.skip(start));
    assert(pieces.drop_last() =~= pieces_of(false, inner));
    pieces_end_within(false, inner);
    assert(inner.last() == dir.last());
    what_ends_in_a_name_ends_there(inner, root);
    let names = placed_names(false, path);
    assert(names =~= names_among(pieces_of(false, inner), root).push(
        (name, (inner.len() + 1 + name.len()) as int),
    ));
    assert(path_names(false, path).last() == name);
    assert(path.take(start + inner.len()) =~= dir);
}

/// `base` followed by one name, with the system's own separator between them unless
/// `base` is empty, ends with a separator, or is a drive and nothing more. A name
/// that Windows takes for one on a drive stands for itself.
pub open spec fn joined_name(windows: bool, base: Seq<char>, name: Seq<char>) -> Seq<char> {
    if windows && on_a_drive(name) {
        name
    } else if base.len() == 0 || separator(windows, base.last()) || (windows && on_a_drive(base)
        && base.len() == 2) {
        base + name
    } else if windows {
        base + "\\"@ + name
    } else {
        base + "/"@ + name
    }
}

/// `base` followed by one name.
pub fn join_name(windows: bool, base: &str, name: &str) -> (r: String)
    ensures
        r@ == joined_name(windows, base@, name@),
{
    if windows && is_on_a_drive(name) {
        return String::from_str(name);
    }
    let n: usize = base.unicode_len();
    if n == 0 || is_separator(windows, base.get_char(n - 1)) || (windows && is_on_a_drive(base) && n
        == 2) {
        String::from_str(base).concat(name)
    } else if windows {
        String::from_str(base).concat("\\").concat(name)
    } else {
        String::from_str(base).concat("/").concat(name)
    }
}

/// `base` followed by two names.
pub open spec fn joined_names(windows: bool, base: Seq<char>, a: Seq<char>, b: Seq<char>) -> Seq<
    char,
> {
    joined_name(windows, joined_name(windows, base, a), b)
}

/// `base` followed by two names.
pub fn join_names(windows: bool, base: &str, a: &str, b: &str) -> (r: String)
    ensures
        r@ == joined_names(windows, base@, a@, b@),
{
    join_name(windows, join_name(windows, base, a).as_str(), b)
}

/// The value of an environment variable that counts as set: an empty one does
/// not.
pub open spec fn set_value(value: Option<String>) -> Option<Seq<char>> {
    match value {
        Some(v) => if v@.len() == 0 {
            None
        } else {
            Some(v@)
        },
        None => None,
    }
}

fn set(value: &Option<String>) -> (r: Option<&String>)
    ensures
        r is Some <==> set_value(*value) is Some,
        r matches Some(v) ==> set_value(*value) == Some(v@) && *value == Some(*v),
{
    match value {
        Some(v) => if v.as_str().is_empty() {
            None
        } else {
            Some(v)
        },
        None => None,
    }
}

/// What the environment says of where a user's files are.
#[derive(Debug)]
pub struct HomeVariables {
    /// The system is Windows, which has two rungs of its own.
    pub windows: bool,
    pub xdg_config_home: Option<String>,
    pub xdg_data_home: Option<String>,
    /// `%APPDATA%`.
    pub app_data: Option<String>,
    /// `%USERPROFILE%`.
    pub user_profile: Option<String>,
    pub home: Option<String>,
}

/// The roaming application data of a Windows user: `%APPDATA%`, else what
/// `%USERPROFILE%` holds of it. Unix has none.
pub open spec fn roaming(v: HomeVariables) -> Option<Seq<char>> {
    if !v.windows {
        None
    } else if let Some(dir) = set_value(v.app_data) {
        Some(dir)
    } else if let Some(dir) = set_value(v.user_profile) {
        Some(joined_names(true, dir, "AppData"@, "Roaming"@))
    } else {
        None
    }
}

fn roaming_dir(v: &HomeVariables) -> (r: Option<String>)
    ensures
        text_option(r) == roaming(*v),
{
    if !v.windows {
        return None;
    }
    match set(&v.app_data) {
        Some(dir) => Some(dir.clone()),
        None => match set(&v.user_profile) {
            Some(dir) => Some(join_names(true, dir.as_str(), "AppData", "Roaming")),
            None => None,
        },
    }
}

/// What the last rung of both ladders stands on: the home, or the directory that the
/// process happens to be in, which has the empty path.
pub open spec fn home_or_here(v: HomeVariables) -> Seq<char> {
    match set_value(v.home) {
        Some(home) => home,
        None => Seq::empty(),
    }
}

fn home_or_nothing(v: &HomeVariables) -> (r: String)
    ensures
        r@ == home_or_here(*v),
{
    match set(&v.home) {
        Some(home) => home.clone(),
        None => String::new(),
    }
}

/// Where configuration files live.
pub open spec fn config_home(v: HomeVariables) -> Seq<char> {
    match set_value(v.xdg_config_home) {
        Some(dir) => dir,
        None => match roaming(v) {
            Some(dir) => dir,
            None => joined_name(v.windows, home_or_here(v), ".config"@),
        },
    }
}

/// Where data lives.
pub open spec fn data_home(v: HomeVariables) -> Seq<char> {
    match set_value(v.xdg_data_home) {
        Some(dir) => dir,
        None => match roaming(v) {
            Some(dir) => dir,
            None => joined_names(v.windows, home_or_here(v), ".local"@, "share"@),
        },
    }
}

/// Where configuration files live: `$XDG_CONFIG_HOME`, else on Windows the roaming
/// application data, else `$HOME/.config`, else `.config`. A relative answer is the
/// caller's to refuse.
pub fn default_config_home(v: &HomeVariables) -> (r: String)
    ensures
        r@ == config_home(*v),
{
    if let Some(dir) = set(&v.xdg_config_home) {
        return dir.clone();
    }
    match roaming_dir(v) {
        Some(dir) => dir,
        None => join_name(v.windows, home_or_nothing(v).as_str(), ".config"),
    }
}

/// The daemon's configuration file below a configuration home.
pub open spec fn config_path_below(windows: bool, config_home: Seq<char>) -> Seq<char> {
    joined_names(windows, config_home, "cortexkit"@, "subc.jsonc"@)
}

/// The daemon's configuration file.
pub fn default_config_path(v: &HomeVariables) -> (r: String)
    ensures
        r@ == config_path_below(v.windows, config_home(*v)),
{
    join_names(v.windows, default_config_home(v).as_str(), "cortexkit", "subc.jsonc")
}

/// Where data lives: `$XDG_DATA_HOME`, else on Windows the roaming application data,
/// else `$HOME/.local/share`, else `.local/share`.
pub fn default_data_home(v: &HomeVariables) -> (r: String)
    ensures
        r@ == data_home(*v),
{
    if let Some(dir) = set(&v.xdg_data_home) {
        return dir.clone();
    }
    match roaming_dir(v) {
        Some(dir) => dir,
        None => join_names(v.windows, home_or_nothing(v).as_str(), ".local", "share"),
    }
}

/// Without a variable of their own the two ladders stop at one rung: on Windows both
/// answers are the roaming application data where there is any; else they are the
/// two places below the home, and without a home the two relative ones.
pub proof fn both_homes_stand_on_one_rung(v: HomeVariables)
    requires
        set_value(v.xdg_config_home) is None,
        set_value(v.xdg_data_home) is None,
    ensures
        roaming(v) is Some <==> v.windows && (set_value(v.app_data) is Some || set_value(
            v.user_profile,
        ) is Some),
        roaming(v) matches Some(dir) ==> config_home(v) == dir && data_home(v) == dir,
        roaming(v) is None ==> {
            &&& config_home(v) == joined_name(v.windows, home_or_here(v), ".config"@)
            &&& data_home(v) == joined_names(v.windows, home_or_here(v), ".local"@, "share"@)
        },
        roaming(v) is None && set_value(v.home) is None ==> config_home(v) == ".config"@
            && data_home(v) == joined_name(v.windows, ".local"@, "share"@),
{
    reveal_strlit(".config");
    reveal_strlit(".local");
    assert(Seq::<char>::empty() + ".config"@ =~= ".config"@);
    assert(Seq::<char>::empty() + ".local"@ =~= ".local"@);
}

/// A variable that is made for a home decides it, as it stands.
pub proof fn an_explicit_home_is_taken_as_it_stands(v: HomeVariables)
    ensures
        set_value(v.xdg_config_home) matches Some(dir) ==> config_home(v) == dir,
        set_value(v.xdg_data_home) matches Some(dir) ==> data_home(v) == dir,
{
}

/// What only Windows sets is nothing to a Unix system.
pub proof fn unix_knows_no_roaming_data(v: HomeVariables, other: HomeVariables)
    requires
        !v.windows,
        v == (HomeVariables { app_data: v.app_data, user_profile: v.user_profile, ..other }),
    ensures
        config_home(v) == config_home(other),
        data_home(v) == data_home(other),
{
}

/// The daemon run directory below a data home.
pub open spec fn run_dir_below(windows: bool, data_home: Seq<char>) -> Seq<char> {
    joined_names(windows, data_home, "cortexkit"@, "run"@)
}

/// The data home is relative, so it names no directory of the user's: the run
/// directory would land below whatever the working directory happens to be.
#[derive(Debug)]
pub struct DaemonRunDirError {
    pub path: String,
}

/// What is told when the run directory cannot be resolved.
pub open spec fn run_dir_refusal(path: Seq<char>) -> Seq<char> {
    "daemon run directory resolved to the relative path "@ + path
        + " (no absolute XDG_DATA_HOME or HOME in the daemon's environment)"@
}

impl DaemonRunDirError {
    /// The error in words.
    pub fn to_text(&self) -> (r: String)
        ensures
            r@ == run_dir_refusal(self.path@),
    {
        String::from_str("daemon run directory resolved to the relative path ").concat(
            self.path.as_str(),
        ).concat(" (no absolute XDG_DATA_HOME or HOME in the daemon's environment)")
    }
}

/// The per-user run directory, `<data home>/cortexkit/run`. A relative data home
/// is refused.
pub fn daemon_run_dir(v: &HomeVariables) -> (r: Result<String, DaemonRunDirError>)
    ensures
        ({
            let path = run_dir_below(v.windows, data_home(*v));
            &&& r is Ok <==> absolute(v.windows, path)
            &&& r matches Ok(p) ==> p@ == path
            &&& r matches Err(e) ==> e.path@ == path
        }),
{
    let path: String = join_names(v.windows, default_data_home(v).as_str(), "cortexkit", "run");
    if is_absolute(v.windows, path.as_str()) {
        Ok(path)
    } else {
        Err(DaemonRunDirError { path })
    }
}

/// The permission bits of a directory that only its owner may enter.
pub const PRIVATE_DIR_MODE: u32 = 0o700;

/// The permission bits of group and others.
pub const SHARED_MODE_BITS: u32 = 0o077;

/// What makes a directory private.
#[derive(Clone, Copy, Debug, PartialEq, Eq, Structural)]
pub enum DirectoryStep {
    /// It is there and private.
    Keep,
    /// It is missing: make it, and its parents, with these permission bits.
    Create { mode: u32 },
    /// It is there and others have a bit: set these permission bits.
    Tighten { mode: u32 },
}

/// What makes a directory private whose permission bits are `mode`, or which is
/// missing.
pub open spec fn private_step(mode: Option<u32>) -> DirectoryStep {
    match mode {
        None => DirectoryStep::Create { mode: PRIVATE_DIR_MODE },
        Some(mode) => if mode & SHARED_MODE_BITS != 0 {
            DirectoryStep::Tighten { mode: PRIVATE_DIR_MODE }
        } else {
            DirectoryStep::Keep
        },
    }
}

/// What makes a directory private.
pub fn ensure_directory_private(mode: Option<u32>) -> (r: DirectoryStep)
    ensures
        r == private_step(mode),
{
    match mode {
        None => DirectoryStep::Create { mode: PRIVATE_DIR_MODE },
        Some(mode) => if mode & SHARED_MODE_BITS != 0 {
            DirectoryStep::Tighten { mode: PRIVATE_DIR_MODE }
        } else {
            DirectoryStep::Keep
        },
    }
}

/// The permission bits after a step.
pub open spec fn mode_after(mode: Option<u32>, step: DirectoryStep) -> Option<u32> {
    match step {
        DirectoryStep::Keep => mode,
        DirectoryStep::Create { mode } => Some(mode),
        DirectoryStep::Tighten { mode } => Some(mode),
    }
}

/// Whether the directory was missing, wide or private, afterwards nobody but the
/// owner has a bit, and a second time there is nothing to do.
pub proof fn a_directory_ends_up_private(mode: Option<u32>)
    ensures
        mode_after(mode, private_step(mode)) matches Some(m) && m & SHARED_MODE_BITS == 0,
        private_step(mode_after(mode, private_step(mode))) == DirectoryStep::Keep,
{
    assert(0o700u32 & 0o077u32 == 0) by (bit_vector);
}

/// The run directory and what makes it private.
#[derive(Debug)]
pub struct RunDirPlan {
    pub path: String,
    pub step: DirectoryStep,
}

/// Where the run directory is and what makes it private, given its permission
/// bits where it exists.
pub fn ensure_daemon_run_dir_private(v: &HomeVariables, mode: Option<u32>) -> (r: Result<
    RunDirPlan,
    DaemonRunDirError,
>)
    ensures
        ({
            let path = run_dir_below(v.windows, data_home(*v));
            &&& r is Ok <==> absolute(v.windows, path)
            &&& r matches Ok(plan) ==> plan.path@ == path && plan.step == private_step(mode)
            &&& r matches Err(e) ==> e.path@ == path
        }),
{
    match daemon_run_dir(v) {
        Ok(path) => Ok(RunDirPlan { path, step: ensure_directory_private(mode) }),
        Err(err) => Err(err),
    }
}

} // verus!
