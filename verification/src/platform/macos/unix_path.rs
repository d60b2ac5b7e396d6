//! Paths on macOS, as the sequence of their parts. A path is read as `std` reads it:
//! repeated separators and parts that are a single dot count for nothing, but for a
//! dot at the beginning.

use vstd::prelude::*;

use crate::text;

verus! {

/// The pieces between the separators.
pub open spec fn pieces(path: Seq<char>) -> Seq<Seq<char>>
    decreases path.len(),
    via pieces_decreases
{
    if text::position(path, '/') >= path.len() {
        seq![path]
    } else {
        seq![text::before(path, '/')] + pieces(text::after(path, '/'))
    }
}

#[via_fn]
proof fn pieces_decreases(path: Seq<char>) {
    text::lemma_position(path, '/');
}

/// Whether the piece counts as a part of the path; `first` says whether it stands at
/// the beginning.
pub open spec fn counts(piece: Seq<char>, first: bool) -> bool {
    piece.len() > 0 && (first || piece != "."@)
}

/// The pieces that count; `first` says whether the first of them stands at the
/// beginning of the path.
pub open spec fn counted(pieces: Seq<Seq<char>>, first: bool) -> Seq<Seq<char>>
    decreases pieces.len(),
{
    if pieces.len() == 0 {
        Seq::empty()
    } else {
        let rest = counted(pieces.subrange(1, pieces.len() as int), false);
        if counts(pieces[0], first) {
            seq![pieces[0]] + rest
        } else {
            rest
        }
    }
}

/// The parts of the path, without its root.
pub open spec fn parts(path: Seq<char>) -> Seq<Seq<char>> {
    counted(pieces(path), true)
}

/// Whether the path begins at the root.
pub open spec fn absolute(path: Seq<char>) -> bool {
    path.len() > 0 && path[0] == '/'
}

/// The path of `name` in the directory.
pub open spec fn adjoined(directory: Seq<char>, name: Seq<char>) -> Seq<char> {
    if directory.len() == 0 || directory.last() == '/' {
        directory + name
    } else {
        directory + "/"@ + name
    }
}

/// The path of `name` in the directory. A separator is put between them, but not
/// behind another one or at the beginning.
pub fn join(directory: &str, name: &str) -> (path: String)
    ensures
        path@ == adjoined(directory@, name@),
{
    let chars = text::chars_of(directory);
    let n: usize = chars.len();
    if n == 0 || chars[n - 1] == '/' {
        text::joined2(directory, name)
    } else {
        text::joined3(directory, "/", name)
    }
}

/// The texts as character sequences.
pub open spec fn texts(strings: Seq<String>) -> Seq<Seq<char>> {
    strings.map_values(|string: String| string@)
}

/// Whether the path begins at the root.
pub fn is_absolute(path: &str) -> (yes: bool)
    ensures
        yes == absolute(path@),
{
    let chars = text::chars_of(path);
    chars.len() > 0 && chars[0] == '/'
}

/// The parts of the path, without its root.
pub fn parts_of(path: &str) -> (result: Vec<String>)
    ensures
        texts(result@) == parts(path@),
{
    let chars = text::chars_of(path);
    let mut result: Vec<String> = Vec::new();
    let mut from: usize = 0;
    let mut first = true;
    let ghost all = path@;
    assert(all.subrange(0, all.len() as int) =~= all);
    assert(texts(result@) + parts(all) =~= parts(all));
    loop
        invariant_except_break
            texts(result@) + counted(pieces(all.subrange(from as int, all.len() as int)), first)
                =~= parts(all),
        invariant
            chars@ == all,
            from <= chars.len(),
        ensures
            texts(result@) =~= parts(all),
        decreases chars.len() - from + 1,
    {
        let ghost rest = all.subrange(from as int, all.len() as int);
        let mut to: usize = from;
        while to < chars.len() && chars[to] != '/'
            invariant
                chars@ == all,
                from <= to <= chars.len(),
                rest == all.subrange(from as int, all.len() as int),
                forall|j: int| from <= j < to ==> all[j] != '/',
            decreases chars.len() - to,
        {
            to = to + 1;
        }
        proof {
            text::lemma_position(rest, '/');
            let at = text::position(rest, '/') as int;
            assert(at == to - from) by {
                if at < to - from {
                    assert(rest[at] == all[from + at]);
                }
                if to - from < at {
                    assert(rest[to - from] == all[to as int]);
                }
            }
        }
        let piece = text::text_of(&chars, from, to);
        assert(piece@ =~= rest.subrange(0, to - from));
        let counts_here = to > from && (first || !text::same_text(piece.as_str(), "."));
        assert(counts_here == counts(piece@, first));
        let ghost before = texts(result@);
        let ghost old_first = first;
        if counts_here {
            result.push(piece);
            assert(texts(result@) =~= before.push(piece@));
        }
        first = false;
        if to >= chars.len() {
            proof {
                assert(rest.subrange(0, to - from) =~= rest);
                assert(pieces(rest) =~= seq![rest]);
                let tail = seq![rest].subrange(1, 1);
                assert(tail =~= Seq::<Seq<char>>::empty());
                assert(counted(tail, false) =~= Seq::<Seq<char>>::empty());
                assert(seq![rest][0] == piece@);
                assert(texts(result@) =~= before + counted(seq![rest], old_first));
            }
            break;
        }
        proof {
            let next = all.subrange(to + 1, all.len() as int);
            assert(text::after(rest, '/') =~= next);
            assert(text::before(rest, '/') =~= piece@);
            let list = seq![piece@] + pieces(next);
            assert(pieces(rest) =~= list);
            assert(list.subrange(1, list.len() as int) =~= pieces(next));
            assert(list[0] == piece@);
            assert(texts(result@) + counted(pieces(next), false) =~= before + counted(
                list,
                old_first,
            ));
        }
        from = to + 1;
    }
    result
}

/// Whether the path is the root's or lies under it.
pub open spec fn under(path: Seq<char>, root: Seq<char>) -> bool {
    &&& absolute(path) == absolute(root)
    &&& parts(root).is_prefix_of(parts(path))
}

/// Whether `path` is `root` or lies under it.
pub fn starts_with(path: &str, root: &str) -> (yes: bool)
    ensures
        yes == under(path@, root@),
{
    if is_absolute(path) != is_absolute(root) {
        return false;
    }
    let long = parts_of(path);
    let short = parts_of(root);
    if short.len() > long.len() {
        assert(texts(short@).len() > texts(long@).len());
        return false;
    }
    let mut i: usize = 0;
    while i < short.len()
        invariant
            i <= short.len() <= long.len(),
            texts(long@) == parts(path@),
            texts(short@) == parts(root@),
            forall|j: int| 0 <= j < i ==> texts(short@)[j] == texts(long@)[j],
        decreases short.len() - i,
    {
        if !text::same_text(short[i].as_str(), long[i].as_str()) {
            assert(texts(short@)[i as int] != texts(long@)[i as int]);
            assert(!texts(short@).is_prefix_of(texts(long@)));
            return false;
        }
        assert(texts(short@)[i as int] == short@[i as int]@);
        assert(texts(long@)[i as int] == long@[i as int]@);
        i = i + 1;
    }
    assert(texts(short@) =~= texts(long@).subrange(0, short@.len() as int));
    true
}

/// Whether both texts are the same path.
pub open spec fn same(left: Seq<char>, right: Seq<char>) -> bool {
    absolute(left) == absolute(right) && parts(left) == parts(right)
}

/// Whether both texts are the same path.
pub fn same_path(left: &str, right: &str) -> (yes: bool)
    ensures
        yes == same(left@, right@),
{
    let yes = starts_with(left, right) && starts_with(right, left);
    proof {
        if yes {
            assert(parts(left@) =~= parts(right@));
        }
        if same(left@, right@) {
            assert(parts(left@).is_prefix_of(parts(left@)));
        }
    }
    yes
}

/// The path's last part, where it is a name.
pub open spec fn name_of(parts: Seq<Seq<char>>) -> Option<Seq<char>> {
    if parts.len() == 0 || parts.last() == ".."@ || parts.last() == "."@ {
        None
    } else {
        Some(parts.last())
    }
}

/// The last of the parts, where it is a name.
pub fn file_name(parts: &Vec<String>) -> (name: Option<String>)
    ensures
        crate::property_list::text_view(name) == name_of(texts(parts@)),
{
    if parts.len() == 0 {
        return None;
    }
    let last = &parts[parts.len() - 1];
    assert(texts(parts@).last() == last@);
    if text::same_text(last.as_str(), "..") || text::same_text(last.as_str(), ".") {
        return None;
    }
    Some(last.clone())
}

/// The first `length` of the parts, written as an absolute path.
pub open spec fn written(parts: Seq<Seq<char>>, length: int) -> Seq<char>
    decreases length,
{
    if length <= 0 {
        ""@
    } else {
        written(parts, length - 1) + "/"@ + parts[length - 1]
    }
}

/// The first `length` of the parts, written as an absolute path.
pub fn written_path(parts: &Vec<String>, length: usize) -> (path: String)
    requires
        length <= parts.len(),
    ensures
        path@ == written(texts(parts@), length as int),
{
    let mut path = "".to_owned();
    let mut i: usize = 0;
    while i < length
        invariant
            i <= length <= parts.len(),
            path@ == written(texts(parts@), i as int),
        decreases length - i,
    {
        path = text::joined3(path.as_str(), "/", parts[i].as_str());
        assert(texts(parts@)[i as int] == parts@[i as int]@);
        i = i + 1;
    }
    path
}

/// The end of a name behind its last dot, where a dot stands in it but not only at
/// its beginning.
pub open spec fn extension(name: Seq<char>) -> Option<Seq<char>> {
    extension_from(name, name.len() as int)
}

/// The end of a name behind its last dot before the position `to`.
pub open spec fn extension_from(name: Seq<char>, to: int) -> Option<Seq<char>>
    decreases to,
{
    if to <= 1 {
        None
    } else if name[to - 1] == '.' {
        Some(name.subrange(to, name.len() as int))
    } else {
        extension_from(name, to - 1)
    }
}

/// Whether the name's end behind its last dot is `expected`.
pub fn has_extension(name: &str, expected: &str) -> (yes: bool)
    ensures
        yes == (extension(name@) == Some(expected@)),
{
    let chars = text::chars_of(name);
    let mut to: usize = chars.len();
    while to > 1 && chars[to - 1] != '.'
        invariant
            chars@ == name@,
            to <= chars.len(),
            extension_from(name@, to as int) == extension(name@),
        decreases to,
    {
        to = to - 1;
    }
    if to <= 1 {
        return false;
    }
    let end = text::text_of(&chars, to, chars.len());
    assert(end@ =~= name@.subrange(to as int, name@.len() as int));
    text::same_text(end.as_str(), expected)
}

} // verus!
