//! File names and extensions of slash-separated paths, as the standard
//! library's `Path::file_name` and `Path::extension` find them.

use vstd::prelude::*;
use crate::text::chars_of;

verus! {

/// The index of the last `c` in `s`, or -1 when `s` holds none.
pub open spec fn last_index_of(s: Seq<char>, c: char) -> int
    decreases s.len(),
{
    if s.len() == 0 {
        -1
    } else if s.last() == c {
        s.len() - 1
    } else {
        last_index_of(s.drop_last(), c)
    }
}

pub proof fn lemma_last_index_of(s: Seq<char>, c: char)
    ensures
        -1 <= last_index_of(s, c) < s.len(),
        last_index_of(s, c) >= 0 ==> s[last_index_of(s, c)] == c,
        forall|j: int| last_index_of(s, c) < j < s.len() ==> s[j] != c,
    decreases s.len(),
{
    if s.len() > 0 && s.last() != c {
        lemma_last_index_of(s.drop_last(), c);
        assert forall|j: int| last_index_of(s, c) < j < s.len() implies s[j] != c by {
            if j < s.len() - 1 {
                assert(s.drop_last()[j] == s[j]);
            }
        }
    }
}

/// The last non-empty component of `p` other than `.`, when there is one.
pub open spec fn last_component(p: Seq<char>) -> Option<Seq<char>>
    decreases p.len(),
{
    let slash = last_index_of(p, '/');
    let segment = p.subrange(slash + 1, p.len() as int);
    if p.len() == 0 {
        None
    } else if segment.len() != 0 && segment != seq!['.'] {
        Some(segment)
    } else if slash >= 0 {
        proof {
            lemma_last_index_of(p, '/');
        }
        last_component(p.subrange(0, slash))
    } else {
        None
    }
}

/// The file name of `p`: its last component, unless that is `..` or
/// there is none.
pub open spec fn file_name_of(p: Seq<char>) -> Option<Seq<char>> {
    match last_component(p) {
        Some(name) => if name == seq!['.', '.'] { None } else { Some(name) },
        None => None,
    }
}

/// The extension of `p`: what follows the last dot of its file name, when
/// that dot is not the name's first character.
pub open spec fn extension_of(p: Seq<char>) -> Option<Seq<char>> {
    match file_name_of(p) {
        Some(name) => {
            let dot = last_index_of(name, '.');
            if dot > 0 {
                Some(name.subrange(dot + 1, name.len() as int))
            } else {
                None
            }
        },
        None => None,
    }
}

/// The position of the last `c` in `v[..end]`, if any.
fn find_last(v: &Vec<char>, end: usize, c: char) -> (r: Option<usize>)
    requires
        end <= v@.len(),
    ensures
        match r {
            Some(j) => j < end && j == last_index_of(v@.subrange(0, end as int), c),
            None => last_index_of(v@.subrange(0, end as int), c) == -1,
        },
{
    let mut j = end;
    while j > 0
        invariant
            j <= end <= v@.len(),
            last_index_of(v@.subrange(0, end as int), c) == last_index_of(v@.subrange(0, j as int), c),
        decreases j,
    {
        assert(v@.subrange(0, j as int).drop_last() =~= v@.subrange(0, j as int - 1));
        if v[j - 1] == c {
            return Some(j - 1);
        }
        j = j - 1;
    }
    None
}

/// The span `[start, end)` of the last component of `v[..end]`, if any.
fn last_component_span(v: &Vec<char>, end: usize) -> (r: Option<(usize, usize)>)
    requires
        end <= v@.len(),
    ensures
        match r {
            Some((s, e)) => s <= e <= end && last_component(v@.subrange(0, end as int))
                == Some(v@.subrange(s as int, e as int)),
            None => last_component(v@.subrange(0, end as int)) is None,
        },
    decreases end,
{
    let ghost p = v@.subrange(0, end as int);
    if end == 0 {
        return None;
    }
    let slash = find_last(v, end, '/');
    let start: usize = match slash {
        Some(j) => j + 1,
        None => 0,
    };
    proof {
        lemma_last_index_of(p, '/');
        assert(p.subrange(last_index_of(p, '/') + 1, p.len() as int) =~= v@.subrange(start as int, end as int));
    }
    let seg_len = end - start;
    let is_dot = seg_len == 1 && v[start] == '.';
    if seg_len != 0 && !is_dot {
        proof {
            if v@.subrange(start as int, end as int) == seq!['.'] {
                assert(v@.subrange(start as int, end as int)[0] == v@[start as int]);
            }
        }
        Some((start, end))
    } else {
        proof {
            assert(seg_len == 1 ==> v@.subrange(start as int, end as int) =~= seq!['.']);
        }
        match slash {
            Some(j) => {
                assert(p.subrange(0, j as int) =~= v@.subrange(0, j as int));
                last_component_span(v, j)
            },
            None => None,
        }
    }
}

/// The span of the file name of `v`, if it has one.
fn file_name_span(v: &Vec<char>) -> (r: Option<(usize, usize)>)
    ensures
        match r {
            Some((s, e)) => s <= e <= v@.len() && file_name_of(v@) == Some(v@.subrange(s as int, e as int)),
            None => file_name_of(v@) is None,
        },
{
    assert(v@.subrange(0, v@.len() as int) =~= v@);
    match last_component_span(v, v.len()) {
        Some((s, e)) => {
            if e - s == 2 && v[s] == '.' && v[s + 1] == '.' {
                assert(v@.subrange(s as int, e as int) =~= seq!['.', '.']);
                None
            } else {
                proof {
                    if v@.subrange(s as int, e as int) == seq!['.', '.'] {
                        assert(v@.subrange(s as int, e as int).len() == 2);
                        assert(v@.subrange(s as int, e as int)[0] == v@[s as int]);
                        assert(v@.subrange(s as int, e as int)[1] == v@[s + 1]);
                    }
                }
                Some((s, e))
            }
        },
        None => None,
    }
}

/// The file name of `path`, as `Path::new(path).file_name()` gives it.
pub fn file_name(path: &str) -> (r: Option<String>)
    ensures
        match r {
            Some(s) => file_name_of(path@) == Some(s@),
            None => file_name_of(path@) is None,
        },
{
    let v = chars_of(path);
    match file_name_span(&v) {
        Some((s, e)) => Some(String::from_str(path.substring_char(s, e))),
        None => None,
    }
}

/// The extension of `path`, as `Path::new(path).extension()` gives it.
pub fn extension(path: &str) -> (r: Option<String>)
    ensures
        match r {
            Some(s) => extension_of(path@) == Some(s@),
            None => extension_of(path@) is None,
        },
{
    let v = chars_of(path);
    match file_name_span(&v) {
        Some((s, e)) => {
            let ghost name = v@.subrange(s as int, e as int);
            let dot = find_last(&v, e, '.');
            match dot {
                Some(d) => {
                    proof {
                        lemma_last_index_of(v@.subrange(0, e as int), '.');
                        lemma_last_index_of(name, '.');
                    }
                    if d > s {
                        proof {
                            assert(v@.subrange(0, e as int).subrange(s as int, e as int) =~= name);
                            lemma_last_in_suffix(v@.subrange(0, e as int), s as int, '.');
                            assert(name.subrange(d - s + 1, name.len() as int) =~= v@.subrange(d + 1, e as int));
                        }
                        Some(String::from_str(path.substring_char(d + 1, e)))
                    } else {
                        proof {
                            assert(v@.subrange(0, e as int).subrange(s as int, e as int) =~= name);
                            lemma_last_in_suffix(v@.subrange(0, e as int), s as int, '.');
                        }
                        None
                    }
                },
                None => {
                    proof {
                        assert(v@.subrange(0, e as int).subrange(s as int, e as int) =~= name);
                        lemma_last_in_suffix(v@.subrange(0, e as int), s as int, '.');
                    }
                    None
                },
            }
        },
        None => None,
    }
}

/// Where the last `c` of a suffix of `s` stands, seen from the suffix.
proof fn lemma_last_in_suffix(s: Seq<char>, k: int, c: char)
    requires
        0 <= k <= s.len(),
    ensures
        last_index_of(s.subrange(k, s.len() as int), c) == (if last_index_of(s, c) >= k {
            last_index_of(s, c) - k
        } else {
            -1
        }),
    decreases s.len(),
{
    if s.len() > k {
        assert(s.subrange(k, s.len() as int).last() == s.last());
        if s.last() != c {
            assert(s.subrange(k, s.len() as int).drop_last() =~= s.drop_last().subrange(k, s.len() - 1));
            lemma_last_in_suffix(s.drop_last(), k, c);
        }
    } else {
        assert(s.subrange(k, s.len() as int).len() == 0);
        lemma_last_index_of(s, c);
    }
}

} // verus!

verus! {

/// `name` joined onto the directory `dir` as `Path::join` joins a relative
/// name: with a `/` between them unless `dir` is empty or ends in one.
pub open spec fn joined_path(dir: Seq<char>, name: Seq<char>) -> Seq<char> {
    if dir.len() == 0 {
        name
    } else if dir.last() == '/' {
        dir + name
    } else {
        dir + "/"@ + name
    }
}

/// `name` joined onto the directory `dir`.
pub fn join_path(dir: &str, name: &str) -> (r: String)
    ensures
        r@ == joined_path(dir@, name@),
{
    let n = dir.unicode_len();
    let mut out = String::from_str(dir);
    if n > 0 && dir.get_char(n - 1) != '/' {
        out.append("/");
    }
    out.append(name);
    out
}

} // verus!

verus! {

/// `q` without trailing separators and trailing `.` components, keeping a
/// lone root `/` and a lone `.`.
pub open spec fn trim_trailing(q: Seq<char>) -> Seq<char>
    decreases q.len(),
{
    if q.len() > 1 && q.last() == '/' {
        trim_trailing(q.drop_last())
    } else if q.len() >= 2 && q.last() == '.' && q[q.len() - 2] == '/' {
        trim_trailing(q.drop_last())
    } else {
        q
    }
}

/// The parent of `p` as `Path::parent` finds it for `/`-separated paths:
/// none for the empty path and the root, the empty path for a single
/// relative component, else the path before the last component.
pub open spec fn parent_path(p: Seq<char>) -> Option<Seq<char>> {
    if p.len() == 0 {
        None
    } else {
        let q = trim_trailing(p);
        let slash = last_index_of(q, '/');
        if q == seq!['/'] {
            None
        } else if slash < 0 {
            Some(Seq::<char>::empty())
        } else if slash == 0 {
            Some(seq!['/'])
        } else {
            Some(trim_trailing(q.subrange(0, slash)))
        }
    }
}

/// The length of `trim_trailing(v[..end])`.
fn trimmed_len(v: &Vec<char>, end: usize) -> (n: usize)
    requires
        end <= v@.len(),
    ensures
        n <= end,
        trim_trailing(v@.subrange(0, end as int)) == v@.subrange(0, n as int),
{
    let mut n = end;
    while (n > 1 && v[n - 1] == '/') || (n >= 2 && v[n - 1] == '.' && v[n - 2] == '/')
        invariant
            n <= end <= v@.len(),
            trim_trailing(v@.subrange(0, end as int)) == trim_trailing(v@.subrange(0, n as int)),
        decreases n,
    {
        assert(v@.subrange(0, n as int).drop_last() =~= v@.subrange(0, n - 1));
        n = n - 1;
    }
    proof {
        let q = v@.subrange(0, n as int);
        if q.len() > 1 {
            assert(q.last() == v@[n - 1]);
        }
        if q.len() >= 2 {
            assert(q[q.len() - 2] == v@[n - 2]);
        }
    }
    n
}

/// The parent of `path`, as `Path::new(path).parent()` gives it.
pub fn parent(path: &str) -> (r: Option<String>)
    ensures
        match r {
            Some(s) => parent_path(path@) == Some(s@),
            None => parent_path(path@) is None,
        },
{
    let v = chars_of(path);
    if v.len() == 0 {
        return None;
    }
    assert(v@.subrange(0, v@.len() as int) =~= v@);
    let n = trimmed_len(&v, v.len());
    let ghost q = v@.subrange(0, n as int);
    if n == 1 && v[0] == '/' {
        assert(q =~= seq!['/']);
        return None;
    }
    proof {
        if q =~= seq!['/'] {
            assert(q.len() == 1);
            assert(n == 1);
            assert(v@.subrange(0, 1)[0] == v@[0]);
            assert(q[0] == '/');
        }
    }
    let slash = find_last(&v, n, '/');
    match slash {
        None => Some(String::new()),
        Some(j) => {
            if j == 0 {
                proof {
                    reveal_strlit("/");
                }
                Some(String::from_str("/"))
            } else {
                assert(q.subrange(0, j as int) =~= v@.subrange(0, j as int));
                let m = trimmed_len(&v, j);
                Some(String::from_str(path.substring_char(0, m)))
            }
        },
    }
}

} // verus!

verus! {

proof fn lemma_last_slash_after(prefix: Seq<char>, name: Seq<char>)
    requires
        !name.contains('/'),
    ensures
        last_index_of(prefix.push('/') + name, '/') == prefix.len(),
    decreases name.len(),
{
    let s = prefix.push('/') + name;
    if name.len() == 0 {
        assert(s =~= prefix.push('/'));
    } else {
        assert(s.last() == name.last());
        assert(name.contains(name.last()) ==> name.last() != '/');
        assert(name[name.len() - 1] == name.last());
        assert(s.drop_last() =~= prefix.push('/') + name.drop_last());
        assert forall|c: char| name.drop_last().contains(c) implies name.contains(c) by {
            let j = choose|j: int| 0 <= j < name.drop_last().len() && name.drop_last()[j] == c;
            assert(name[j] == c);
        }
        lemma_last_slash_after(prefix, name.drop_last());
    }
}

/// A name joined onto a directory has that directory as its parent, for a
/// directory that does not end in a separator or a `.` component and a
/// single component other than `.`.
pub proof fn lemma_parent_of_joined(dir: Seq<char>, name: Seq<char>)
    requires
        dir.len() > 0,
        dir.last() != '/',
        !(dir.len() >= 2 && dir.last() == '.' && dir[dir.len() - 2] == '/'),
        name.len() > 0,
        !name.contains('/'),
        name != seq!['.'],
    ensures
        parent_path(joined_path(dir, name)) == Some(dir),
{
    reveal_strlit("/");
    let q = dir + "/"@ + name;
    assert(q =~= dir.push('/') + name);
    assert(joined_path(dir, name) == q);
    assert(q.last() == name.last());
    assert(name[name.len() - 1] == name.last());
    assert(q.last() != '/');
    if q.last() == '.' {
        if name.len() == 1 {
            assert(name =~= seq!['.']);
        }
        assert(q[q.len() - 2] == name[name.len() - 2]);
        assert(name.contains(name[name.len() - 2]));
    }
    assert(trim_trailing(q) == q);
    lemma_last_slash_after(dir, name);
    assert(q.subrange(0, dir.len() as int) =~= dir);
    assert(trim_trailing(dir) == dir);
    if q =~= seq!['/'] {
        assert(q.len() == 1);
    }
}

} // verus!
