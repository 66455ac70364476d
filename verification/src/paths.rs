//! Paths as `/`-separated text.
//!
//! A path is read as a sequence of components: a leading `/` is the root
//! component, a leading `.` is kept, `..` is kept wherever it stands, and
//! empty pieces and other `.` pieces are skipped. Two paths are the same
//! path when their components are the same.

use crate::text::chars_of;
use crate::text::is_prefix_of;
use crate::text::same_chars;
use crate::text::spells;
use crate::text::string_of;
use vstd::prelude::*;

verus! {

/// The pieces of `s` between its `/` characters, empty pieces included.
pub open spec fn segments(s: Seq<char>) -> Seq<Seq<char>>
    decreases s.len(),
{
    if s.len() == 0 {
        seq![Seq::<char>::empty()]
    } else {
        let init = segments(s.drop_last());
        if s.last() == '/' {
            init.push(Seq::<char>::empty())
        } else {
            init.drop_last().push(init.last().push(s.last()))
        }
    }
}

/// A piece that names something: not empty and not `.`.
pub open spec fn is_kept(seg: Seq<char>) -> bool {
    seg.len() > 0 && seg != seq!['.']
}

/// The pieces of `segs` that name something, in order.
pub open spec fn kept(segs: Seq<Seq<char>>) -> Seq<Seq<char>>
    decreases segs.len(),
{
    if segs.len() == 0 {
        Seq::<Seq<char>>::empty()
    } else if is_kept(segs.last()) {
        kept(segs.drop_last()).push(segs.last())
    } else {
        kept(segs.drop_last())
    }
}

/// What stands before the named pieces: the root, a leading `.`, or nothing.
pub open spec fn head(s: Seq<char>) -> Seq<Seq<char>> {
    if s.len() > 0 && s[0] == '/' {
        seq![seq!['/']]
    } else if segments(s)[0] == seq!['.'] {
        seq![seq!['.']]
    } else {
        Seq::<Seq<char>>::empty()
    }
}

/// The components of the path `s`. The root is the component `/`.
pub open spec fn components(s: Seq<char>) -> Seq<Seq<char>> {
    head(s) + kept(segments(s))
}

/// The text of each component of `parts`.
pub open spec fn texts(parts: Seq<Vec<char>>) -> Seq<Seq<char>> {
    Seq::new(parts.len(), |i: int| parts[i]@)
}

/// A component that is no name: the root, `.` or `..`.
pub open spec fn is_special(c: Seq<char>) -> bool {
    c == seq!['/'] || c == seq!['.'] || c == seq!['.', '.']
}

/// The final component of a path, where it is a name.
pub open spec fn file_name_of(comps: Seq<Seq<char>>) -> Option<Seq<char>> {
    if comps.len() == 0 || is_special(comps.last()) {
        None
    } else {
        Some(comps.last())
    }
}

/// `a` is a proper ancestor of `b`: the components of `a` begin those of
/// `b` and `b` has more of them.
pub open spec fn is_parent_of(a: Seq<Seq<char>>, b: Seq<Seq<char>>) -> bool {
    is_prefix_of(a, b) && a.len() < b.len()
}

/// The index of the last `.` in `name`, if it has one.
pub open spec fn last_dot(name: Seq<char>) -> Option<int>
    decreases name.len(),
{
    if name.len() == 0 {
        None
    } else if name.last() == '.' {
        Some(name.len() - 1)
    } else {
        last_dot(name.drop_last())
    }
}

/// The part of a file name after its final `.`; none where the name has no
/// `.` or only a leading one.
pub open spec fn extension_of(name: Seq<char>) -> Option<Seq<char>> {
    match last_dot(name) {
        Some(k) => if k > 0 {
            Some(name.subrange(k + 1, name.len() as int))
        } else {
            None
        },
        None => None,
    }
}

/// The part of a file name before its final `.`; the whole name where it
/// has no `.` or only a leading one.
pub open spec fn stem_of(name: Seq<char>) -> Seq<char> {
    match last_dot(name) {
        Some(k) => if k > 0 {
            name.subrange(0, k)
        } else {
            name
        },
        None => name,
    }
}

/// The text of a path with the components `comps`.
pub open spec fn joined(comps: Seq<Seq<char>>) -> Seq<char>
    decreases comps.len(),
{
    if comps.len() == 0 {
        Seq::<char>::empty()
    } else if comps.len() == 1 {
        comps[0]
    } else {
        let init = joined(comps.drop_last());
        if init == seq!['/'] {
            init + comps.last()
        } else {
            init.push('/') + comps.last()
        }
    }
}

fn is_dot(seg: &Vec<char>) -> (r: bool)
    ensures
        r == (seg@ == seq!['.']),
{
    let r = seg.len() == 1 && seg[0] == '.';
    proof {
        if r {
            assert(seg@ =~= seq!['.']);
        }
    }
    r
}

proof fn lemma_texts_push(parts: Seq<Vec<char>>, x: Vec<char>)
    ensures
        texts(parts.push(x)) == texts(parts).push(x@),
{
}

/// Splits a path into its components.
pub fn split_components(path: &str) -> (r: Vec<Vec<char>>)
    ensures
        texts(r@) == components(path@),
{
    let chars = chars_of(path);
    let mut comps: Vec<Vec<char>> = Vec::new();
    let mut cur: Vec<char> = Vec::new();
    let mut first_seen = false;
    let mut first_dot = false;
    let mut i: usize = 0;
    while i < chars.len()
        invariant
            i <= chars.len(),
            chars@ == path@,
            segments(chars@.take(i as int)).len() >= 1,
            cur@ == segments(chars@.take(i as int)).last(),
            texts(comps@) == kept(segments(chars@.take(i as int)).drop_last()),
            first_seen == (segments(chars@.take(i as int)).len() > 1),
            first_seen ==> first_dot == (segments(chars@.take(i as int))[0] == seq!['.']),
        decreases chars.len() - i,
    {
        let c = chars[i];
        let ghost before = chars@.take(i as int);
        let ghost after = chars@.take(i + 1);
        let ghost segs = segments(before);
        assert(after.drop_last() =~= before);
        if c == '/' {
            assert(segments(after).drop_last() =~= segs);
            if !first_seen {
                first_dot = is_dot(&cur);
                first_seen = true;
            }
            if cur.len() > 0 && !is_dot(&cur) {
                proof {
                    lemma_texts_push(comps@, cur);
                }
                comps.push(cur);
            }
            cur = Vec::new();
        } else {
            assert(segments(after).drop_last() =~= segs.drop_last());
            cur.push(c);
        }
        i = i + 1;
    }
    assert(chars@.take(chars.len() as int) =~= chars@);
    if !first_seen {
        first_dot = is_dot(&cur);
    }
    if cur.len() > 0 && !is_dot(&cur) {
        proof {
            lemma_texts_push(comps@, cur);
        }
        comps.push(cur);
    }
    if chars.len() > 0 && chars[0] == '/' {
        let mut root: Vec<char> = Vec::new();
        root.push('/');
        comps.insert(0, root);
    } else if first_dot {
        let mut dot: Vec<char> = Vec::new();
        dot.push('.');
        comps.insert(0, dot);
    }
    comps
}

/// Whether the components `p` begin the components `v`.
pub fn parts_begin_with(v: &Vec<Vec<char>>, p: &Vec<Vec<char>>) -> (r: bool)
    ensures
        r == is_prefix_of(texts(p@), texts(v@)),
{
    if p.len() > v.len() {
        return false;
    }
    let mut i: usize = 0;
    while i < p.len()
        invariant
            i <= p.len(),
            p.len() <= v.len(),
            forall|j: int| 0 <= j < i ==> v@[j]@ == p@[j]@,
        decreases p.len() - i,
    {
        if !same_chars(&v[i], &p[i]) {
            assert(texts(v@).take(p.len() as int)[i as int] == v@[i as int]@);
            return false;
        }
        i = i + 1;
    }
    assert(texts(v@).take(p.len() as int) =~= texts(p@));
    true
}

/// Whether `a` is a proper ancestor of `b`.
pub fn is_parent(a: &str, b: &str) -> (r: bool)
    ensures
        r == is_parent_of(components(a@), components(b@)),
{
    let x = split_components(a);
    let y = split_components(b);
    x.len() < y.len() && parts_begin_with(&y, &x)
}

/// Whether the path `path` lies at or below the path `base`.
pub fn starts_with(path: &str, base: &str) -> (r: bool)
    ensures
        r == is_prefix_of(components(base@), components(path@)),
{
    let x = split_components(path);
    let y = split_components(base);
    parts_begin_with(&x, &y)
}

/// Whether the component `c` is the root, `.` or `..`.
pub fn is_special_component(c: &Vec<char>) -> (r: bool)
    ensures
        r == is_special(c@),
{
    let root = c.len() == 1 && c[0] == '/';
    let up = c.len() == 2 && c[0] == '.' && c[1] == '.';
    proof {
        if root {
            assert(c@ =~= seq!['/']);
        }
        if up {
            assert(c@ =~= seq!['.', '.']);
        }
    }
    root || up || is_dot(c)
}

/// The number of leading components of `parts` that end in a name, or
/// none: where `Some(n)` comes back, component `n - 1` is the file name.
pub fn file_name_index(parts: &Vec<Vec<char>>) -> (r: Option<usize>)
    ensures
        match r {
            Some(k) => k == parts.len() - 1 && file_name_of(texts(parts@)) == Some(parts@[k as int]@),
            None => file_name_of(texts(parts@)) is None,
        },
{
    if parts.len() == 0 {
        return None;
    }
    let k = parts.len() - 1;
    if is_special_component(&parts[k]) {
        None
    } else {
        Some(k)
    }
}

/// The final component of `path`, where it is a name.
pub fn file_name(path: &str) -> (r: Option<String>)
    ensures
        match r {
            Some(name) => file_name_of(components(path@)) == Some(name@),
            None => file_name_of(components(path@)) is None,
        },
{
    let parts = split_components(path);
    match file_name_index(&parts) {
        Some(k) => Some(string_of(&parts[k])),
        None => None,
    }
}

/// The index of the last `.` in `name`.
pub fn find_last_dot(name: &Vec<char>) -> (r: Option<usize>)
    ensures
        match r {
            Some(k) => last_dot(name@) == Some(k as int) && k < name.len(),
            None => last_dot(name@) is None,
        },
{
    let mut i: usize = name.len();
    assert(name@.take(i as int) =~= name@);
    while i > 0
        invariant
            i <= name.len(),
            last_dot(name@) == last_dot(name@.take(i as int)),
        decreases i,
    {
        let ghost cur = name@.take(i as int);
        assert(cur.drop_last() =~= name@.take(i - 1));
        if name[i - 1] == '.' {
            return Some(i - 1);
        }
        i = i - 1;
    }
    None
}

/// Whether the file name `name` has the extension `ext`.
pub fn name_has_extension(name: &Vec<char>, ext: &str) -> (r: bool)
    ensures
        r == (extension_of(name@) == Some(ext@)),
{
    match find_last_dot(name) {
        Some(k) => {
            if k == 0 {
                return false;
            }
            let wanted = chars_of(ext);
            let mut tail: Vec<char> = Vec::new();
            let mut j: usize = k + 1;
            while j < name.len()
                invariant
                    k < j <= name.len(),
                    tail@ == name@.subrange(k + 1, j as int),
                decreases name.len() - j,
            {
                tail.push(name[j]);
                assert(name@.subrange(k + 1, j + 1) =~= name@.subrange(k + 1, j as int).push(
                    name@[j as int],
                ));
                j = j + 1;
            }
            same_chars(&tail, &wanted)
        },
        None => false,
    }
}

/// Whether the final component of `path` is a name with the extension `ext`.
pub fn has_extension(path: &str, ext: &str) -> (r: bool)
    ensures
        r == match file_name_of(components(path@)) {
            Some(name) => extension_of(name) == Some(ext@),
            None => false,
        },
{
    let parts = split_components(path);
    match file_name_index(&parts) {
        Some(k) => name_has_extension(&parts[k], ext),
        None => false,
    }
}

/// The file name of `path` without its extension.
pub fn file_stem(path: &str) -> (r: Option<String>)
    ensures
        match r {
            Some(stem) => file_name_of(components(path@)) is Some && stem@ == stem_of(
                file_name_of(components(path@))->0,
            ),
            None => file_name_of(components(path@)) is None,
        },
{
    let parts = split_components(path);
    match file_name_index(&parts) {
        Some(k) => {
            let name = &parts[k];
            let end = match find_last_dot(name) {
                Some(d) => if d > 0 {
                    d
                } else {
                    name.len()
                },
                None => name.len(),
            };
            let mut stem: Vec<char> = Vec::new();
            let mut j: usize = 0;
            while j < end
                invariant
                    j <= end <= name.len(),
                    stem@ == name@.subrange(0, j as int),
                decreases end - j,
            {
                stem.push(name[j]);
                assert(name@.subrange(0, j + 1) =~= name@.subrange(0, j as int).push(
                    name@[j as int],
                ));
                j = j + 1;
            }
            Some(string_of(&stem))
        },
        None => None,
    }
}

/// The text of the path made of the first `n` components of `parts`.
pub fn join_first(parts: &Vec<Vec<char>>, n: usize) -> (r: Vec<char>)
    requires
        n <= parts.len(),
    ensures
        r@ == joined(texts(parts@).take(n as int)),
{
    let mut out: Vec<char> = Vec::new();
    let mut i: usize = 0;
    while i < n
        invariant
            i <= n <= parts.len(),
            out@ == joined(texts(parts@).take(i as int)),
        decreases n - i,
    {
        let ghost before = texts(parts@).take(i as int);
        let ghost after = texts(parts@).take(i + 1);
        assert(after.drop_last() =~= before);
        if i > 0 && !spells(&out, "/") {
            out.push('/');
        }
        proof {
            reveal_strlit("/");
            assert("/"@ =~= seq!['/']);
        }
        let piece = &parts[i];
        let ghost start = out@;
        let mut j: usize = 0;
        while j < piece.len()
            invariant
                j <= piece.len(),
                out@ == start + piece@.take(j as int),
            decreases piece.len() - j,
        {
            out.push(piece[j]);
            assert(start + piece@.take(j + 1) =~= (start + piece@.take(j as int)).push(
                piece@[j as int],
            ));
            j = j + 1;
        }
        i = i + 1;
    }
    out
}

/// A name: a piece of text that can stand as one component of a path.
pub open spec fn is_name(name: Seq<char>) -> bool {
    is_kept(name) && !name.contains('/')
}

/// The text of the path `name` in the directory `dir`.
pub open spec fn child(dir: Seq<char>, name: Seq<char>) -> Seq<char> {
    dir.push('/') + name
}

proof fn lemma_segments_extend(s: Seq<char>, tail: Seq<char>)
    requires
        !tail.contains('/'),
    ensures
        segments(s + tail) == segments(s).drop_last().push(segments(s).last() + tail),
        segments(s).len() >= 1,
    decreases tail.len(),
{
    lemma_segments_nonempty(s);
    if tail.len() == 0 {
    } else {
        let init = tail.drop_last();
        assert(!init.contains('/')) by {
            if init.contains('/') {
                let k = choose|k: int| 0 <= k < init.len() && init[k] == '/';
            }
        }
        lemma_segments_extend(s, init);
        assert((s + tail).drop_last() =~= s + init);
        assert(tail[tail.len() - 1] != '/') by {
        }
        let before = segments(s + init);
        assert(before.last().push(tail.last()) =~= segments(s).last() + tail);
    }
}

proof fn lemma_segments_nonempty(s: Seq<char>)
    ensures
        segments(s).len() >= 1,
    decreases s.len(),
{
    if s.len() > 0 {
        lemma_segments_nonempty(s.drop_last());
    }
}

/// The components of a path in a directory are the components of the
/// directory and then the path's name: so a directory is a proper
/// ancestor of everything that lies in it.
pub proof fn lemma_child_components(dir: Seq<char>, name: Seq<char>)
    requires
        dir.len() > 0,
        is_name(name),
    ensures
        components(child(dir, name)) == components(dir).push(name),
        is_parent_of(components(dir), components(child(dir, name))),
{
    let with_slash = dir.push('/');
    lemma_segments_nonempty(dir);
    assert(with_slash.drop_last() =~= dir);
    lemma_segments_extend(with_slash, name);
    let all = segments(child(dir, name));
    assert(all.drop_last() =~= segments(dir));
    assert(components(child(dir, name)).take(components(dir).len() as int) =~= components(dir));
}

} // verus!
