//! Unix paths.
//!
//! A path is a text. Its parts are what stands between slashes, without empty
//! parts and without dots, save a dot at the start of a relative path.
use vstd::prelude::*;

use crate::text::{
    cat, cat3, chars_of, find_from, first_of, join, joined, places_of, same_text, text_of, texts,
};

verus! {

/// A part of a path.
#[derive(Clone, Debug, PartialEq, Eq)]
pub enum Component {
    RootDir,
    CurDir,
    ParentDir,
    Normal(String),
}

/// The model of a part of a path.
pub enum Part {
    RootDir,
    CurDir,
    ParentDir,
    Normal(Seq<char>),
}

impl View for Component {
    type V = Part;

    open spec fn view(&self) -> Part {
        match self {
            Component::RootDir => Part::RootDir,
            Component::CurDir => Part::CurDir,
            Component::ParentDir => Part::ParentDir,
            Component::Normal(name) => Part::Normal(name@),
        }
    }
}

/// The models of a sequence of parts.
pub open spec fn part_views(s: Seq<Component>) -> Seq<Part> {
    Seq::new(s.len(), |i: int| s[i]@)
}

/// What a piece between slashes contributes. `first` says that the path begins
/// with it.
pub open spec fn piece_part(piece: Seq<char>, first: bool) -> Option<Part> {
    if piece.len() == 0 {
        None
    } else if piece == seq!['.'] {
        if first {
            Some(Part::CurDir)
        } else {
            None
        }
    } else if piece == seq!['.', '.'] {
        Some(Part::ParentDir)
    } else {
        Some(Part::Normal(piece))
    }
}

/// `s` with `x` behind it, if there is one.
pub open spec fn with_part(s: Seq<Part>, x: Option<Part>) -> Seq<Part> {
    match x {
        Some(p) => s.push(p),
        None => s,
    }
}

/// The parts of the pieces of `s`, behind the parts `before`.
pub open spec fn parts_from(before: Seq<Part>, s: Seq<char>, first: bool) -> Seq<Part>
    decreases s.len(),
{
    let k = first_of(s, '/');
    if 0 <= k < s.len() {
        parts_from(with_part(before, piece_part(s.take(k), first)), s.skip(k + 1), false)
    } else {
        with_part(before, piece_part(s, first))
    }
}

/// Whether a path starts at the root directory.
pub open spec fn absolute(s: Seq<char>) -> bool {
    s.len() > 0 && s[0] == '/'
}

/// The parts of a path.
pub open spec fn parts(s: Seq<char>) -> Seq<Part> {
    parts_from(
        if absolute(s) {
            seq![Part::RootDir]
        } else {
            Seq::empty()
        },
        s,
        true,
    )
}

/// `base` followed by `tail`, with a slash between them where there is none.
/// An absolute `tail` stands alone.
pub open spec fn joined_path(base: Seq<char>, tail: Seq<char>) -> Seq<char> {
    if absolute(tail) {
        tail
    } else if base.len() == 0 || base.last() == '/' {
        base + tail
    } else {
        base + seq!['/'] + tail
    }
}

/// The last part of a path, where it is a name.
pub open spec fn last_name(s: Seq<char>) -> Option<Seq<char>> {
    let p = parts(s);
    if p.len() == 0 {
        None
    } else {
        match p.last() {
            Part::Normal(name) => Some(name),
            _ => None,
        }
    }
}

/// The text of a part that is no root.
pub open spec fn part_text(p: Part) -> Seq<char> {
    match p {
        Part::RootDir => Seq::empty(),
        Part::CurDir => seq!['.'],
        Part::ParentDir => seq!['.', '.'],
        Part::Normal(name) => name,
    }
}

/// The texts of parts.
pub open spec fn part_texts(p: Seq<Part>) -> Seq<Seq<char>> {
    Seq::new(p.len(), |i: int| part_text(p[i]))
}

/// The path that parts make up: a root gives the slash before the first name.
pub open spec fn path_of(p: Seq<Part>) -> Seq<char> {
    if p == seq![Part::RootDir] {
        seq!['/']
    } else {
        joined(part_texts(p), seq!['/'])
    }
}

/// The path without its last part: the root directory has none, nor has an empty path.
pub open spec fn parent_path(s: Seq<char>) -> Option<Seq<char>> {
    let p = parts(s);
    if p.len() == 0 || p.last() == Part::RootDir {
        None
    } else {
        Some(path_of(p.drop_last()))
    }
}

/// Whether a path starts at the root directory.
pub fn is_absolute(s: &str) -> (r: bool)
    ensures
        r == absolute(s@),
{
    let v = chars_of(s);
    v.len() > 0 && v[0] == '/'
}

fn piece_component(piece: String, first: bool) -> (r: Option<Component>)
    ensures
        match r {
            Some(c) => piece_part(piece@, first) == Some(c@),
            None => piece_part(piece@, first) is None,
        },
{
    let v = chars_of(piece.as_str());
    proof {
        assert(v@.len() == 1 && v@[0] == '.' ==> piece@ =~= seq!['.']);
        assert(v@.len() == 2 && v@[0] == '.' && v@[1] == '.' ==> piece@ =~= seq!['.', '.']);
    }
    if v.len() == 0 {
        None
    } else if v.len() == 1 && v[0] == '.' {
        if first {
            Some(Component::CurDir)
        } else {
            None
        }
    } else if v.len() == 2 && v[0] == '.' && v[1] == '.' {
        Some(Component::ParentDir)
    } else {
        Some(Component::Normal(piece))
    }
}

/// The parts of a path.
pub fn components(s: &str) -> (r: Vec<Component>)
    ensures
        part_views(r@) == parts(s@),
{
    let v = chars_of(s);
    let mut out: Vec<Component> = Vec::new();
    if is_absolute(s) {
        out.push(Component::RootDir);
        assert(part_views(out@) =~= seq![Part::RootDir]);
    } else {
        assert(part_views(out@) =~= Seq::<Part>::empty());
    }
    let mut i: usize = 0;
    let mut first: bool = true;
    let mut done: bool = false;
    assert(s@.skip(0) =~= s@);
    while !done
        invariant
            v@ == s@,
            i <= v@.len(),
            !done ==> parts_from(part_views(out@), s@.skip(i as int), first) == parts(s@),
            done ==> part_views(out@) == parts(s@),
        decreases (if done { 0 } else { v@.len() - i + 1 }),
    {
        let ghost before = part_views(out@);
        let ghost rest = s@.skip(i as int);
        let k = find_from(&v, i, '/');
        proof {
            assert(v@.subrange(i as int, v@.len() as int) =~= rest);
            places_of(rest, '/');
        }
        let piece = text_of(&v, i, k);
        proof {
            if k < v@.len() {
                assert(piece@ =~= rest.take(k - i));
                assert(rest.skip(k - i + 1) =~= s@.skip(k + 1));
            } else {
                assert(piece@ =~= rest);
            }
        }
        let ghost text = piece@;
        match piece_component(piece, first) {
            Some(c) => {
                out.push(c);
                assert(part_views(out@) =~= before.push(c@));
            },
            None => {},
        }
        assert(part_views(out@) == with_part(before, piece_part(text, first)));
        if k < v.len() {
            i = k + 1;
            first = false;
        } else {
            done = true;
        }
    }
    out
}

/// `base` followed by `tail`.
pub fn join_path(base: &str, tail: &str) -> (r: String)
    ensures
        r@ == joined_path(base@, tail@),
{
    if is_absolute(tail) {
        return tail.to_owned();
    }
    let v = chars_of(base);
    if v.len() == 0 || v[v.len() - 1] == '/' {
        cat(base, tail)
    } else {
        proof {
            reveal_strlit("/");
            assert("/"@ =~= seq!['/']);
        }
        cat3(base, "/", tail)
    }
}

/// The last part of a path, where it is a name.
pub fn file_name(s: &str) -> (r: Option<String>)
    ensures
        crate::text::opt_text(r) == last_name(s@),
{
    let c = components(s);
    assert(part_views(c@).len() == c@.len());
    if c.len() == 0 {
        return None;
    }
    assert(part_views(c@).last() == c@.last()@);
    match &c[c.len() - 1] {
        Component::Normal(name) => Some(name.clone()),
        _ => None,
    }
}

fn component_text(c: &Component) -> (r: String)
    ensures
        r@ == part_text(c@),
{
    match c {
        Component::RootDir => String::new(),
        Component::CurDir => {
            proof {
                reveal_strlit(".");
                assert("."@ =~= seq!['.']);
            }
            ".".to_owned()
        },
        Component::ParentDir => {
            proof {
                reveal_strlit("..");
                assert(".."@ =~= seq!['.', '.']);
            }
            "..".to_owned()
        },
        Component::Normal(name) => name.clone(),
    }
}

fn path_text(c: &Vec<Component>, n: usize) -> (r: String)
    requires
        n <= c@.len(),
    ensures
        r@ == path_of(part_views(c@).take(n as int)),
{
    let ghost p = part_views(c@).take(n as int);
    if n == 1 {
        assert(p =~= seq![c@[0]@]);
        match &c[0] {
            Component::RootDir => {
                proof {
                    reveal_strlit("/");
                    assert("/"@ =~= seq!['/']);
                }
                return "/".to_owned();
            },
            _ => {
                assert(p[0] != seq![Part::RootDir][0]);
            },
        }
    }
    let mut out: Vec<String> = Vec::new();
    let mut i: usize = 0;
    while i < n
        invariant
            i <= n <= c@.len(),
            p == part_views(c@).take(n as int),
            out@.len() == i,
            forall|k: int| 0 <= k < i ==> #[trigger] out@[k]@ == part_text(p[k]),
        decreases n - i,
    {
        out.push(component_text(&c[i]));
        i = i + 1;
    }
    assert(texts(out@) =~= part_texts(p));
    proof {
        reveal_strlit("/");
        assert("/"@ =~= seq!['/']);
    }
    join(out.as_slice(), "/")
}

/// The path written with its parts alone: no doubled slash, no slash at the end,
/// and no dot but the first.
pub fn normalize(s: &str) -> (r: String)
    ensures
        r@ == path_of(parts(s@)),
{
    let c = components(s);
    assert(part_views(c@).take(c@.len() as int) =~= parts(s@));
    path_text(&c, c.len())
}

/// The path without its last part.
pub fn parent(s: &str) -> (r: Option<String>)
    ensures
        crate::text::opt_text(r) == parent_path(s@),
{
    let c = components(s);
    assert(part_views(c@).len() == c@.len());
    if c.len() == 0 {
        return None;
    }
    assert(part_views(c@).last() == c@.last()@);
    match &c[c.len() - 1] {
        Component::RootDir => None,
        _ => {
            assert(part_views(c@).take(c@.len() - 1) =~= parts(s@).drop_last());
            Some(path_text(&c, c.len() - 1))
        },
    }
}

fn same_component(a: &Component, b: &Component) -> (r: bool)
    ensures
        r == (a@ == b@),
{
    match (a, b) {
        (Component::RootDir, Component::RootDir) => true,
        (Component::CurDir, Component::CurDir) => true,
        (Component::ParentDir, Component::ParentDir) => true,
        (Component::Normal(x), Component::Normal(y)) => same_text(x.as_str(), y.as_str()),
        _ => false,
    }
}

/// Whether the parts of `root` are the first parts of `path`.
pub fn starts_with(path: &str, root: &str) -> (r: bool)
    ensures
        r == parts(root@).is_prefix_of(parts(path@)),
{
    let a = components(path);
    let b = components(root);
    let ghost pa = parts(path@);
    let ghost pb = parts(root@);
    assert(pa.len() == a@.len());
    assert(pb.len() == b@.len());
    if b.len() > a.len() {
        return false;
    }
    let mut i: usize = 0;
    while i < b.len()
        invariant
            i <= b@.len() <= a@.len(),
            pa == part_views(a@),
            pb == part_views(b@),
            pa == parts(path@),
            pb == parts(root@),
            forall|k: int| 0 <= k < i ==> pa[k] == pb[k],
        decreases b@.len() - i,
    {
        if !same_component(&a[i], &b[i]) {
            assert(pa[i as int] != pb[i as int]);
            assert(pa.subrange(0, pb.len() as int)[i as int] == pa[i as int]);
            return false;
        }
        i = i + 1;
    }
    assert(pa.subrange(0, pb.len() as int) =~= pb);
    true
}

// ---------------------------------------------------------------------------
// Joining keeps the base
// ---------------------------------------------------------------------------

proof fn parts_from_grows(before: Seq<Part>, s: Seq<char>, first: bool)
    ensures
        before.is_prefix_of(parts_from(before, s, first)),
    decreases s.len(),
{
    let k = first_of(s, '/');
    if 0 <= k < s.len() {
        let next = with_part(before, piece_part(s.take(k), first));
        parts_from_grows(next, s.skip(k + 1), false);
        assert(before.is_prefix_of(next));
    }
}

proof fn first_of_longer(s: Seq<char>, t: Seq<char>, c: char)
    ensures
        first_of(s, c) < s.len() ==> first_of(s + t, c) == first_of(s, c),
        first_of(s, c) == s.len() ==> first_of(s + t, c) == s.len() + first_of(t, c),
    decreases s.len(),
{
    places_of(s, c);
    if s.len() > 0 {
        assert((s + t).drop_first() =~= s.drop_first() + t);
        if s[0] != c {
            first_of_longer(s.drop_first(), t, c);
            places_of(s.drop_first(), c);
        }
    } else {
        assert(s + t =~= t);
    }
}

/// The parts of `s/t` are those of `s` and then those that `t` adds.
proof fn parts_from_split(before: Seq<Part>, s: Seq<char>, t: Seq<char>, first: bool)
    ensures
        parts_from(before, s + seq!['/'] + t, first) == parts_from(
            parts_from(before, s, first),
            t,
            false,
        ),
    decreases s.len(),
{
    let whole = s + seq!['/'] + t;
    let k = first_of(s, '/');
    places_of(s, '/');
    assert(whole =~= s + (seq!['/'] + t));
    first_of_longer(s, seq!['/'] + t, '/');
    assert((seq!['/'] + t)[0] == '/');
    if k < s.len() {
        assert(whole.take(k) =~= s.take(k));
        assert(whole.skip(k + 1) =~= s.skip(k + 1) + seq!['/'] + t);
        parts_from_split(
            with_part(before, piece_part(s.take(k), first)),
            s.skip(k + 1),
            t,
            false,
        );
    } else {
        assert(first_of(whole, '/') == s.len());
        assert(whole.take(s.len() as int) =~= s);
        assert(whole.skip(s.len() as int + 1) =~= t);
    }
}

/// Joining a relative path to a base that is not empty keeps the parts of the base
/// at the start.
pub proof fn join_stays_below(base: Seq<char>, tail: Seq<char>)
    requires
        base.len() > 0,
        !absolute(tail),
    ensures
        parts(base).is_prefix_of(parts(joined_path(base, tail))),
{
    let start = if absolute(base) {
        seq![Part::RootDir]
    } else {
        Seq::empty()
    };
    let whole = joined_path(base, tail);
    assert(whole[0] == base[0]);
    if base.last() == '/' {
        let head = base.drop_last();
        assert(whole =~= head + seq!['/'] + tail);
        assert(base =~= head + seq!['/'] + Seq::<char>::empty());
        parts_from_split(start, head, tail, true);
        parts_from_split(start, head, Seq::empty(), true);
        let below = parts_from(start, head, true);
        assert(parts_from(below, Seq::empty(), false) == below);
        parts_from_grows(below, tail, false);
    } else {
        parts_from_split(start, base, tail, true);
        parts_from_grows(parts(base), tail, false);
    }
}

/// Joining a name to a path adds just that name.
pub proof fn join_adds_a_name(base: Seq<char>, name: Seq<char>)
    requires
        name.len() > 0,
        !name.contains('/'),
        name != seq!['.'],
        name != seq!['.', '.'],
    ensures
        parts(joined_path(base, name)) == parts(base).push(Part::Normal(name)),
{
    let start = if absolute(base) {
        seq![Part::RootDir]
    } else {
        Seq::empty()
    };
    let whole = joined_path(base, name);
    assert(!absolute(name)) by {
        assert(name.contains(name[0]));
    }
    places_of(name, '/');
    if first_of(name, '/') < name.len() {
        assert(name.contains(name[first_of(name, '/')]));
    }
    if base.len() == 0 {
        assert(whole =~= name);
        places_of(base, '/');
        assert(parts(base) =~= Seq::<Part>::empty());
    } else if base.last() == '/' {
        let head = base.drop_last();
        assert(whole[0] == base[0]);
        assert(whole =~= head + seq!['/'] + name);
        assert(base =~= head + seq!['/'] + Seq::<char>::empty());
        parts_from_split(start, head, name, true);
        parts_from_split(start, head, Seq::empty(), true);
        let below = parts_from(start, head, true);
        assert(parts_from(below, Seq::empty(), false) == below);
    } else {
        assert(whole[0] == base[0]);
        parts_from_split(start, base, name, true);
    }
}

/// A relative path is joined with just one slash; an absolute one stands alone.
pub proof fn paths_are_joined_with_one_slash(base: Seq<char>, tail: Seq<char>)
    ensures
        "/"@.is_prefix_of(tail) ==> joined_path(base, tail) == tail,
        !"/"@.is_prefix_of(tail) && base.len() == 0 ==> joined_path(base, tail) == tail,
        !"/"@.is_prefix_of(tail) && base.len() > 0 && base.last() == '/' ==> joined_path(base, tail)
            == base + tail,
        !"/"@.is_prefix_of(tail) && base.len() > 0 && base.last() != '/' ==> joined_path(base, tail)
            == base + "/"@ + tail,
{
    reveal_strlit("/");
    if tail.len() > 0 {
        assert(tail.subrange(0, 1) =~= seq![tail[0]]);
        assert("/"@[0] == '/');
        if tail[0] == '/' {
            assert(tail.subrange(0, 1) =~= "/"@);
        } else {
            assert(tail.subrange(0, 1)[0] != "/"@[0]);
        }
    }
    assert("/"@ =~= seq!['/']);
    if base.len() == 0 {
        assert(base + tail =~= tail);
    }
}

/// A name that is joined to a path is its last one.
pub proof fn joined_name_is_the_last(base: Seq<char>, name: Seq<char>)
    requires
        name.len() > 0,
        !name.contains('/'),
        name != seq!['.'],
        name != seq!['.', '.'],
    ensures
        last_name(joined_path(base, name)) == Some(name),
{
    join_adds_a_name(base, name);
}

proof fn single_piece(piece: Seq<char>, before: Seq<Part>, first: bool)
    requires
        !piece.contains('/'),
    ensures
        parts_from(before, piece, first) == with_part(before, piece_part(piece, first)),
{
    places_of(piece, '/');
    if first_of(piece, '/') < piece.len() {
        assert(piece.contains(piece[first_of(piece, '/')]));
    }
}

/// A slash at the end of a path adds nothing, and neither does a dot behind it; two dots
/// lead up. A path of one dot is the directory itself, and one of a slash the root.
pub proof fn dots_and_slashes_have_their_meaning(s: Seq<char>)
    requires
        s.len() > 0,
    ensures
        parts(s + seq!['/']) == parts(s),
        parts(s + seq!['/', '.']) == parts(s),
        parts(s + seq!['/', '.', '.']) == parts(s).push(Part::ParentDir),
        parts(Seq::empty()).len() == 0,
        parts(seq!['/']) == seq![Part::RootDir],
        parts(seq!['.']) == seq![Part::CurDir],
        parts(seq!['.', '.']) == seq![Part::ParentDir],
{
    let start = if absolute(s) {
        seq![Part::RootDir]
    } else {
        Seq::empty()
    };
    let none = Seq::<char>::empty();
    let dot = seq!['.'];
    let dots = seq!['.', '.'];
    single_piece(none, parts(s), false);
    single_piece(dot, parts(s), false);
    single_piece(dots, parts(s), false);
    assert(s + seq!['/'] =~= s + seq!['/'] + none);
    assert(s + seq!['/', '.'] =~= s + seq!['/'] + dot);
    assert(s + seq!['/', '.', '.'] =~= s + seq!['/'] + dots);
    parts_from_split(start, s, none, true);
    parts_from_split(start, s, dot, true);
    parts_from_split(start, s, dots, true);
    assert((s + seq!['/'])[0] == s[0]);
    assert((s + seq!['/', '.'])[0] == s[0]);
    assert((s + seq!['/', '.', '.'])[0] == s[0]);
    assert(dot.len() != dots.len());
    single_piece(none, Seq::empty(), true);
    single_piece(dot, Seq::empty(), true);
    single_piece(dots, Seq::empty(), true);
    let root = seq![Part::RootDir];
    parts_from_split(root, none, none, true);
    assert(none + seq!['/'] + none =~= seq!['/']);
    single_piece(none, root, true);
    single_piece(none, root, false);
    assert(Seq::<Part>::empty().push(Part::CurDir) =~= seq![Part::CurDir]);
    assert(Seq::<Part>::empty().push(Part::ParentDir) =~= seq![Part::ParentDir]);
}

/// Whether parts can be those of a path: a root and a dot stand only at the start, and a
/// name is one.
pub open spec fn proper_parts(p: Seq<Part>) -> bool {
    forall|i: int|
        0 <= i < p.len() ==> match #[trigger] p[i] {
            Part::RootDir => i == 0,
            Part::CurDir => i == 0,
            Part::ParentDir => true,
            Part::Normal(name) => name.len() > 0 && !name.contains('/') && name != seq!['.'] && name
                != seq!['.', '.'],
        }
}

proof fn parts_from_are_proper(before: Seq<Part>, s: Seq<char>, first: bool)
    requires
        proper_parts(before),
        first && before.len() > 0 ==> s.len() > 0 && s[0] == '/',
    ensures
        proper_parts(parts_from(before, s, first)),
    decreases s.len(),
{
    let k = first_of(s, '/');
    places_of(s, '/');
    let piece = if k < s.len() {
        s.take(k)
    } else {
        s
    };
    assert(!piece.contains('/')) by {
        if piece.contains('/') {
            let i = piece.index_of('/');
            assert(s[i] == '/');
        }
    }
    let next = with_part(before, piece_part(piece, first));
    assert(proper_parts(next)) by {
        assert forall|i: int| 0 <= i < next.len() implies match #[trigger] next[i] {
            Part::RootDir => i == 0,
            Part::CurDir => i == 0,
            Part::ParentDir => true,
            Part::Normal(name) => name.len() > 0 && !name.contains('/') && name != seq!['.'] && name
                != seq!['.', '.'],
        } by {
            if i < before.len() {
                assert(next[i] == before[i]);
            }
        }
    }
    if k < s.len() {
        parts_from_are_proper(next, s.skip(k + 1), false);
    }
}

proof fn path_of_has_its_parts(p: Seq<Part>)
    requires
        proper_parts(p),
    ensures
        parts(path_of(p)) == p,
        p.len() > 0 && p != seq![Part::RootDir] ==> path_of(p).len() > 0,
        p.len() > 0 && p[0] == Part::RootDir ==> absolute(path_of(p)),
        p.len() > 0 && p[0] != Part::RootDir ==> !absolute(path_of(p)),
    decreases p.len(),
{
    let root = seq![Part::RootDir];
    let none = Seq::<char>::empty();
    if p.len() == 0 {
        assert(part_texts(p).len() == 0);
        single_piece(none, Seq::empty(), true);
        assert(p =~= Seq::<Part>::empty());
    } else {
        let last = p.last();
        let piece = part_text(last);
        assert(p[p.len() - 1] == last);
        let head = p.drop_last();
        if p == root {
            dots_and_slashes_have_their_meaning(seq!['/']);
        } else if p.len() == 1 {
            assert(path_of(p) == piece) by {
                assert(part_texts(p)[0] == piece);
            }
            assert(last != Part::RootDir) by {
                if last == Part::RootDir {
                    assert(p =~= root);
                }
            }
            piece_is_one(last);
            single_piece(piece, Seq::empty(), true);
            assert(Seq::<Part>::empty().push(last) =~= p);
        } else {
            assert(last != Part::RootDir && last != Part::CurDir);
            piece_is_one(last);
            assert(proper_parts(head)) by {
                assert forall|i: int| 0 <= i < head.len() implies match #[trigger] head[i] {
                    Part::RootDir => i == 0,
                    Part::CurDir => i == 0,
                    Part::ParentDir => true,
                    Part::Normal(name) => name.len() > 0 && !name.contains('/') && name
                        != seq!['.'] && name != seq!['.', '.'],
                } by {
                    assert(head[i] == p[i]);
                }
            }
            path_of_has_its_parts(head);
            assert(head[0] == p[0]);
            assert(part_texts(p).drop_last() =~= part_texts(head));
            assert(part_texts(p).last() == piece);
            let before = joined(part_texts(head), seq!['/']);
            assert(path_of(p) == before + seq!['/'] + piece);
            assert(head.push(last) =~= p);
            if head == root {
                assert(before == part_texts(head)[0]);
                assert(before =~= none);
                assert(path_of(p)[0] == '/');
                parts_from_split(root, none, piece, true);
                single_piece(none, root, true);
                single_piece(piece, root, false);
            } else {
                assert(before == path_of(head));
                assert(path_of(p)[0] == before[0]);
                let start = if absolute(before) {
                    root
                } else {
                    Seq::empty()
                };
                parts_from_split(start, before, piece, true);
                single_piece(piece, head, false);
            }
        }
    }
}

proof fn piece_is_one(part: Part)
    requires
        match part {
            Part::RootDir => false,
            Part::Normal(name) => name.len() > 0 && !name.contains('/') && name != seq!['.'] && name
                != seq!['.', '.'],
            _ => true,
        },
    ensures
        !part_text(part).contains('/'),
        part_text(part).len() > 0,
        piece_part(part_text(part), true) == Some(part),
        part != Part::CurDir ==> piece_part(part_text(part), false) == Some(part),
        part_text(part)[0] != '/',
{
    let dot = seq!['.'];
    let dots = seq!['.', '.'];
    assert(dot.len() != dots.len());
    match part {
        Part::Normal(name) => {
            assert(name.contains(name[0]));
        },
        _ => {},
    }
}

/// The directory that a path stands in has all its parts but the last; the root stands in
/// none.
pub proof fn parent_lacks_the_last_part(s: Seq<char>)
    ensures
        parent_path(s) is Some <==> parts(s).len() > 0 && parts(s).last() != Part::RootDir,
        parent_path(s) matches Some(dir) ==> parts(dir) == parts(s).drop_last(),
{
    let start = if absolute(s) {
        seq![Part::RootDir]
    } else {
        Seq::empty()
    };
    parts_from_are_proper(start, s, true);
    let p = parts(s);
    if p.len() > 0 {
        let head = p.drop_last();
        assert forall|i: int| 0 <= i < head.len() implies match #[trigger] head[i] {
            Part::RootDir => i == 0,
            Part::CurDir => i == 0,
            Part::ParentDir => true,
            Part::Normal(name) => name.len() > 0 && !name.contains('/') && name != seq!['.'] && name
                != seq!['.', '.'],
        } by {
            assert(head[i] == p[i]);
        }
        path_of_has_its_parts(head);
    }
}

} // verus!
