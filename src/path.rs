//! Paths as '/'-separated text: joining, and the file name, stem and
//! extension of the last component.
use vstd::prelude::*;

use crate::text::{chars_of, join2, string_of};

verus! {

/// The position of the last `c` in `s`, or -1 when there is none.
pub open spec fn last_index(s: Seq<char>, c: char) -> int
    decreases s.len(),
{
    if s.len() == 0 {
        -1
    } else if s.last() == c {
        s.len() - 1
    } else {
        last_index(s.drop_last(), c)
    }
}

/// `i` is the position of the last `c` in `s` (-1: no `c` at all).
pub open spec fn is_last_index(s: Seq<char>, c: char, i: int) -> bool {
    &&& -1 <= i < s.len()
    &&& (i >= 0 ==> s[i] == c)
    &&& forall|j: int| i < j < s.len() ==> s[j] != c
}

proof fn lemma_last_index(s: Seq<char>, c: char)
    ensures
        is_last_index(s, c, last_index(s, c)),
    decreases s.len(),
{
    if s.len() > 0 && s.last() != c {
        lemma_last_index(s.drop_last(), c);
        let i = last_index(s, c);
        assert forall|j: int| i < j < s.len() implies s[j] != c by {
            if j < s.len() - 1 {
                assert(s.drop_last()[j] == s[j]);
            }
        }
    }
}

proof fn lemma_last_index_unique(s: Seq<char>, c: char, i: int)
    requires
        is_last_index(s, c, i),
    ensures
        last_index(s, c) == i,
{
    lemma_last_index(s, c);
    let k = last_index(s, c);
    if k < i {
        assert(s[i] == c);
    } else if i < k {
        assert(s[k] == c);
    }
}

/// The position of the last `c` in `cs`, or -1.
pub fn find_last(cs: &Vec<char>, c: char) -> (r: i64)
    requires
        cs@.len() < 0x7fff_ffff_ffff_ffff,
    ensures
        r == last_index(cs@, c),
        is_last_index(cs@, c, r as int),
{
    let mut i: usize = cs.len();
    while i > 0
        invariant
            i <= cs@.len(),
            cs@.len() < 0x7fff_ffff_ffff_ffff,
            forall|j: int| i <= j < cs@.len() ==> cs@[j] != c,
        decreases i,
    {
        if cs[i - 1] == c {
            proof {
                lemma_last_index_unique(cs@, c, i - 1);
            }
            assert(i - 1 < 0x7fff_ffff_ffff_ffff);
            return (i - 1) as i64;
        }
        i = i - 1;
    }
    proof {
        lemma_last_index_unique(cs@, c, -1);
    }
    -1
}

/// The characters after the last '/' (the whole path when there is none).
pub open spec fn last_component(p: Seq<char>) -> Seq<char> {
    p.subrange(last_index(p, '/') + 1, p.len() as int)
}

/// The file name of a path: its last component, unless that is empty, "."
/// or "..".
pub open spec fn file_name_of(p: Seq<char>) -> Option<Seq<char>> {
    let n = last_component(p);
    if n.len() == 0 || n == seq!['.'] || n == seq!['.', '.'] {
        None
    } else {
        Some(n)
    }
}

/// The stem of a file name: the name without its last extension. A name
/// whose only dot leads it, or "..", is its own stem.
pub open spec fn stem_of(name: Seq<char>) -> Seq<char> {
    let d = last_index(name, '.');
    if name == seq!['.', '.'] || d <= 0 {
        name
    } else {
        name.subrange(0, d)
    }
}

/// The extension of a file name: what follows its last dot, when that dot
/// does not lead the name.
pub open spec fn extension_of(name: Seq<char>) -> Option<Seq<char>> {
    let d = last_index(name, '.');
    if name == seq!['.', '.'] || d <= 0 {
        None
    } else {
        Some(name.subrange(d + 1, name.len() as int))
    }
}

/// `base` with `rest` appended as further components; a `rest` that starts
/// with '/' replaces `base`.
pub open spec fn joined(base: Seq<char>, rest: Seq<char>) -> Seq<char> {
    if rest.len() > 0 && rest[0] == '/' {
        rest
    } else if base.len() == 0 {
        rest
    } else if base.last() == '/' {
        base + rest
    } else {
        base + seq!['/'] + rest
    }
}

/// Joins two paths.
pub fn join_path(base: &str, rest: &str) -> (r: String)
    ensures
        r@ == joined(base@, rest@),
{
    let b = chars_of(base);
    let t = chars_of(rest);
    if t.len() > 0 && t[0] == '/' {
        return string_of(t.as_slice());
    }
    if b.len() == 0 {
        return string_of(t.as_slice());
    }
    if b[b.len() - 1] == '/' {
        return join2(base, rest);
    }
    let with_sep = join2(base, "/");
    proof {
        reveal_strlit("/");
    }
    assert("/"@ =~= seq!['/']);
    join2(with_sep.as_str(), rest)
}

/// The file name of a path.
pub fn file_name(path: &str) -> (r: Option<String>)
    requires
        path@.len() < 0x7fff_ffff_ffff_ffff,
    ensures
        match file_name_of(path@) {
            Some(n) => r is Some && r->0@ == n,
            None => r is None,
        },
        r is Some ==> r->0@.len() <= path@.len(),
{
    let cs = chars_of(path);
    let slash = find_last(&cs, '/');
    let start = (slash + 1) as usize;
    let mut name: Vec<char> = Vec::new();
    let mut i: usize = start;
    while i < cs.len()
        invariant
            start <= i <= cs@.len(),
            name@ == cs@.subrange(start as int, i as int),
        decreases cs@.len() - i,
    {
        name.push(cs[i]);
        i = i + 1;
        assert(name@ =~= cs@.subrange(start as int, i as int));
    }
    let n = name.len();
    if n == 0 || (n == 1 && name[0] == '.') || (n == 2 && name[0] == '.' && name[1] == '.') {
        proof {
            if n == 1 {
                assert(name@ =~= seq!['.']);
            }
            if n == 2 {
                assert(name@ =~= seq!['.', '.']);
            }
        }
        return None;
    }
    proof {
        if name@ == seq!['.'] {
            assert(name@[0] == '.');
        }
        if name@ == seq!['.', '.'] {
            assert(name@[0] == '.' && name@[1] == '.');
        }
    }
    Some(string_of(name.as_slice()))
}

/// The stem and extension of a file name.
pub fn split_extension(name: &str) -> (r: (String, Option<String>))
    requires
        name@.len() < 0x7fff_ffff_ffff_ffff,
    ensures
        r.0@ == stem_of(name@),
        r.0@.len() <= name@.len(),
        match extension_of(name@) {
            Some(e) => r.1 is Some && r.1->0@ == e,
            None => r.1 is None,
        },
{
    let cs = chars_of(name);
    let d = find_last(&cs, '.');
    let n = cs.len();
    let dots = n == 2 && cs[0] == '.' && cs[1] == '.';
    proof {
        if dots {
            assert(cs@ =~= seq!['.', '.']);
        }
        if cs@ == seq!['.', '.'] {
            assert(cs@[0] == '.' && cs@[1] == '.');
        }
    }
    if dots || d <= 0 {
        return (string_of(cs.as_slice()), None);
    }
    let d = d as usize;
    let mut stem: Vec<char> = Vec::new();
    let mut ext: Vec<char> = Vec::new();
    let mut i: usize = 0;
    while i < n
        invariant
            n == cs@.len(),
            0 < d < n,
            i <= n,
            stem@ == cs@.subrange(0, if i < d { i as int } else { d as int }),
            ext@ == if i <= d { Seq::<char>::empty() } else { cs@.subrange(d + 1, i as int) },
        decreases n - i,
    {
        if i < d {
            stem.push(cs[i]);
            assert(stem@ =~= cs@.subrange(0, i + 1));
        } else if i > d {
            ext.push(cs[i]);
            assert(ext@ =~= cs@.subrange(d + 1, i + 1));
        } else {
            assert(ext@ =~= cs@.subrange(d + 1, i + 1));
        }
        i = i + 1;
    }
    (string_of(stem.as_slice()), Some(string_of(ext.as_slice())))
}

} // verus!
