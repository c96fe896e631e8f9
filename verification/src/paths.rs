//! Unix paths as texts.

use vstd::prelude::*;

use crate::text::{characters, concat, fields, join, same_text, split, views};

verus! {

/// Whether a path starts at the root.
pub open spec fn absolute(path: Seq<char>) -> bool {
    path.len() > 0 && path[0] == '/'
}

/// Whether the `i`-th piece between slashes counts: it is not empty, and it is
/// no dot, except for a dot that a relative path begins with.
pub open spec fn piece_counts(pieces: Seq<Seq<char>>, i: int) -> bool {
    pieces[i].len() > 0 && (pieces[i] == "."@ ==> i == 0)
}

/// The pieces among the first `n` that count.
pub open spec fn components_before(pieces: Seq<Seq<char>>, n: int) -> Seq<Seq<char>>
    decreases n,
{
    if n <= 0 {
        Seq::empty()
    } else if piece_counts(pieces, n - 1) {
        components_before(pieces, n - 1).push(pieces[n - 1])
    } else {
        components_before(pieces, n - 1)
    }
}

/// The components of a path, below the root if it starts there.
pub open spec fn components(path: Seq<char>) -> Seq<Seq<char>> {
    components_before(split(path, '/'), split(path, '/').len() as int)
}

/// Whether two paths are the same, component by component.
pub open spec fn same_path_as(left: Seq<char>, right: Seq<char>) -> bool {
    absolute(left) == absolute(right) && components(left) == components(right)
}

/// Whether a component names an entry of its directory.
pub open spec fn normal(component: Seq<char>) -> bool {
    component != "."@ && component != ".."@
}

/// The name that a path ends in.
pub open spec fn file_name(path: Seq<char>) -> Option<Seq<char>> {
    if components(path).len() > 0 && normal(components(path).last()) {
        Some(components(path).last())
    } else {
        None
    }
}

/// Whether `path` has a parent, and that is the same as `directory`.
pub open spec fn parent_is(path: Seq<char>, directory: Seq<char>) -> bool {
    components(path).len() > 0 && absolute(path) == absolute(directory) && components(
        path,
    ).drop_last() == components(directory)
}

/// Whether `path` is `directory` or lies below it.
pub open spec fn starts_with_path(path: Seq<char>, directory: Seq<char>) -> bool {
    absolute(path) == absolute(directory) && components(directory).is_prefix_of(components(path))
}

/// A name inside a directory.
pub open spec fn joined(directory: Seq<char>, name: Seq<char>) -> Seq<char> {
    if absolute(name) {
        name
    } else if directory.len() == 0 || directory.last() == '/' {
        directory + name
    } else {
        directory.push('/') + name
    }
}

/// Whether a path starts at the root.
pub fn is_absolute(path: &str) -> (result: bool)
    ensures
        result == absolute(path@),
{
    let all = characters(path);
    all.len() > 0 && all[0] == '/'
}

/// The components of a path.
pub fn path_components(path: &str) -> (result: Vec<String>)
    ensures
        views(result@) == components(path@),
{
    let pieces = fields(path, '/');
    let ghost texts = split(path@, '/');
    let mut result: Vec<String> = Vec::new();
    let mut n: usize = 0;
    assert(views(result@) =~= Seq::empty());
    while n < pieces.len()
        invariant
            n <= pieces.len(),
            texts == views(pieces@),
            views(result@) == components_before(texts, n as int),
        decreases pieces.len() - n,
    {
        let ghost before = views(result@);
        assert(texts[n as int] == pieces@[n as int]@);
        if !pieces[n].as_str().is_empty() && (n == 0 || !same_text(&pieces[n], ".")) {
            result.push(pieces[n].clone());
            assert(views(result@) =~= before.push(texts[n as int]));
        }
        n += 1;
    }
    result
}

/// Whether the first `n` of two lists of texts are the same.
fn same_texts(left: &Vec<String>, right: &Vec<String>, n: usize) -> (result: bool)
    requires
        n <= left.len(),
        n <= right.len(),
    ensures
        result == (views(left@).take(n as int) == views(right@).take(n as int)),
{
    let ghost l = views(left@).take(n as int);
    let ghost r = views(right@).take(n as int);
    let mut i: usize = 0;
    while i < n
        invariant
            i <= n,
            n <= left.len(),
            n <= right.len(),
            l == views(left@).take(n as int),
            r == views(right@).take(n as int),
            forall|j: int| 0 <= j < i ==> l[j] == r[j],
        decreases n - i,
    {
        assert(l[i as int] == left@[i as int]@);
        assert(r[i as int] == right@[i as int]@);
        if !same_text(&left[i], &right[i]) {
            return false;
        }
        i += 1;
    }
    assert(l =~= r);
    true
}

/// Whether two paths are the same.
pub fn same_path(left: &str, right: &str) -> (result: bool)
    ensures
        result == same_path_as(left@, right@),
{
    if is_absolute(left) != is_absolute(right) {
        return false;
    }
    let l = path_components(left);
    let r = path_components(right);
    if l.len() != r.len() {
        assert(views(l@).len() != views(r@).len());
        return false;
    }
    assert(views(l@).take(l@.len() as int) == views(l@));
    assert(views(r@).take(r@.len() as int) == views(r@));
    let count: usize = l.len();
    same_texts(&l, &r, count)
}

/// Whether a path lies directly in a directory.
pub fn has_parent(path: &str, directory: &str) -> (result: bool)
    ensures
        result == parent_is(path@, directory@),
{
    if is_absolute(path) != is_absolute(directory) {
        return false;
    }
    let l = path_components(path);
    let r = path_components(directory);
    if l.len() == 0 || l.len() - 1 != r.len() {
        assert(views(l@).len() == l.len() && views(r@).len() == r.len());
        return false;
    }
    let count: usize = r.len();
    assert(views(l@).take(count as int) == views(l@).drop_last());
    assert(views(r@).take(count as int) == views(r@));
    same_texts(&l, &r, count)
}

/// Whether a path is a directory or lies below it.
pub fn is_under(path: &str, directory: &str) -> (result: bool)
    ensures
        result == starts_with_path(path@, directory@),
{
    if is_absolute(path) != is_absolute(directory) {
        return false;
    }
    let l = path_components(path);
    let r = path_components(directory);
    if l.len() < r.len() {
        return false;
    }
    let count: usize = r.len();
    assert(views(r@).take(count as int) == views(r@));
    assert(views(l@).subrange(0, count as int) == views(l@).take(count as int));
    same_texts(&l, &r, count)
}

/// The name that a path ends in.
pub fn path_file_name(path: &str) -> (result: Option<String>)
    ensures
        crate::text::optional_view(result) == file_name(path@),
{
    let all = path_components(path);
    if all.len() == 0 {
        return None;
    }
    let last: usize = all.len() - 1;
    assert(components(path@).last() == all@[last as int]@);
    if same_text(&all[last], ".") || same_text(&all[last], "..") {
        return None;
    }
    Some(all[last].clone())
}

/// Puts a name inside a directory.
pub fn join_path(directory: &str, name: &str) -> (result: String)
    ensures
        result@ == joined(directory@, name@),
{
    if is_absolute(name) {
        return name.to_owned();
    }
    let all = characters(directory);
    let mut result: String = directory.to_owned();
    if all.len() > 0 && all[all.len() - 1] != '/' {
        result.push('/');
    }
    result.append(name);
    result
}

/// A path, from its components.
pub open spec fn rendered(from_root: bool, parts: Seq<Seq<char>>) -> Seq<char> {
    if from_root {
        seq!['/'] + join(parts, '/')
    } else {
        join(parts, '/')
    }
}

/// The directory that a path lies in, written without needless pieces. The root
/// lies in none.
pub open spec fn parent(path: Seq<char>) -> Option<Seq<char>> {
    if components(path).len() == 0 {
        None
    } else {
        Some(rendered(absolute(path), components(path).drop_last()))
    }
}

fn render(from_root: bool, parts: &Vec<String>, count: usize) -> (result: String)
    requires
        count <= parts.len(),
    ensures
        result@ == rendered(from_root, views(parts@).take(count as int)),
{
    let ghost all = views(parts@);
    let mut inner: String = "".to_owned();
    let mut i: usize = 0;
    proof {
        reveal_strlit("");
        assert(all.take(0) =~= Seq::empty());
        assert(inner@ =~= Seq::empty());
    }
    while i < count
        invariant
            i <= count <= parts.len(),
            all == views(parts@),
            inner@ == join(all.take(i as int), '/'),
        decreases count - i,
    {
        let ghost taken = all.take(i + 1);
        assert(taken.drop_last() =~= all.take(i as int));
        assert(taken.last() == parts@[i as int]@);
        if i > 0 {
            inner.push('/');
        }
        inner.append(&parts[i]);
        assert(inner@ =~= join(taken, '/'));
        i += 1;
    }
    if from_root {
        let root = concat("/", &inner);
        proof {
            reveal_strlit("/");
            assert("/"@ =~= seq!['/']);
        }
        return root;
    }
    inner
}

/// Names the directory that a path lies in.
pub fn path_parent(path: &str) -> (result: Option<String>)
    ensures
        crate::text::optional_view(result) == parent(path@),
{
    let parts = path_components(path);
    let ghost all = views(parts@);
    assert(all.len() == parts.len());
    if parts.len() == 0 {
        return None;
    }
    let count: usize = parts.len() - 1;
    assert(all.take(count as int) =~= all.drop_last());
    Some(render(is_absolute(path), &parts, count))
}

/// A path is below a directory exactly if it begins with the directory's components, so it is below
/// itself, and what is below a directory that is below another is below that one too.
pub proof fn paths_below_are_nested(path: Seq<char>, middle: Seq<char>, directory: Seq<char>)
    ensures
        starts_with_path(path, path),
        starts_with_path(path, middle) && starts_with_path(middle, directory) ==> starts_with_path(
            path,
            directory,
        ),
        parent_is(path, directory) ==> starts_with_path(path, directory) && !starts_with_path(
            directory,
            path,
        ),
        same_path_as(path, middle) ==> (starts_with_path(path, directory) <==> starts_with_path(
            middle,
            directory,
        )),
{
    if starts_with_path(path, middle) && starts_with_path(middle, directory) {
        let n = components(directory).len() as int;
        assert(components(directory) =~= components(path).take(n)) by {
            assert(forall|i: int|
                0 <= i < n ==> components(directory)[i] == #[trigger] components(middle)[i]);
            assert(forall|i: int|
                0 <= i < n ==> components(middle)[i] == #[trigger] components(path)[i]);
        }
    }
    assert(components(path).is_prefix_of(components(path)));
}

/// A name that is joined to a directory is put behind it with one slash between, and an absolute
/// one takes its place.
pub proof fn names_are_joined_behind_a_slash(directory: Seq<char>, name: Seq<char>)
    ensures
        absolute(name) ==> joined(directory, name) == name,
        !absolute(name) ==> directory.is_prefix_of(joined(directory, name)),
        !absolute(name) && directory.len() > 0 ==> joined(directory, name)[joined(
            directory,
            name,
        ).len() - name.len() - 1] == '/',
        !absolute(name) ==> joined(directory, name).skip(
            joined(directory, name).len() - name.len(),
        ) == name,
{
    assert(!absolute(name) ==> joined(directory, name).skip(
        joined(directory, name).len() - name.len(),
    ) =~= name);
}

} // verus!
