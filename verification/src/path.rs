//! Paths as `/`-separated text: joining a name onto a directory, and taking a
//! path's file name and extension apart.

use vstd::prelude::*;
use vstd::string::*;
use crate::text::chars_of;

verus! {

/// `name` placed under the directory `base`: a `/` goes between the two
/// unless `base` is empty or already ends in one.
pub open spec fn joined(base: Seq<char>, name: Seq<char>) -> Seq<char> {
    if base.len() == 0 || base.last() == '/' {
        base + name
    } else {
        base + seq!['/'] + name
    }
}

/// `joined` when there is a name, `base` itself when there is none.
pub open spec fn joined_option(base: Seq<char>, name: Option<Seq<char>>) -> Seq<char> {
    match name {
        None => base,
        Some(n) => joined(base, n),
    }
}

/// The greatest index at which `c` stands in `s`, or -1 where it stands nowhere.
pub open spec fn last_index(s: Seq<char>, c: char) -> int
    decreases s.len(),
{
    if s.len() == 0 {
        -1
    } else if s.last() == c {
        s.len() - 1
    } else {
        last_index(s.drop_last(), c)
    }
}

/// A path without what does not count at its end: slashes, and components
/// that are a single `.`.
pub open spec fn trimmed(path: Seq<char>) -> Seq<char>
    decreases path.len(),
{
    if path.len() > 0 && path.last() == '/' {
        trimmed(path.drop_last())
    } else if path.len() >= 2 && path.last() == '.' && path[path.len() - 2] == '/' {
        trimmed(path.subrange(0, path.len() - 2))
    } else {
        path
    }
}

/// What follows the last `/` of a path; all of it where it holds none.
pub open spec fn last_component(path: Seq<char>) -> Seq<char> {
    path.subrange(last_index(path, '/') + 1, path.len() as int)
}

/// The file name of a path: its last component, where trailing slashes and
/// `.` components do not count. A path that is empty, that is `.`, or whose
/// last component is `..` names no file.
pub open spec fn file_name_of(path: Seq<char>) -> Option<Seq<char>> {
    let name = last_component(trimmed(path));
    if name.len() == 0 || name == seq!['.'] || name == seq!['.', '.'] {
        None
    } else {
        Some(name)
    }
}

/// The extension of a path's file name: what follows its last `.`, where that
/// `.` is not the name's first character.
pub open spec fn extension_of(path: Seq<char>) -> Option<Seq<char>> {
    match file_name_of(path) {
        None => None,
        Some(name) => {
            let dot = last_index(name, '.');
            if dot <= 0 {
                None
            } else {
                Some(name.subrange(dot + 1, name.len() as int))
            }
        },
    }
}

/// What `last_index` returns is in range, holds `c`, and nothing after it does.
pub proof fn lemma_last_index(s: Seq<char>, c: char)
    ensures
        -1 <= last_index(s, c) < s.len(),
        last_index(s, c) >= 0 ==> s[last_index(s, c)] == c,
        forall|j: int| last_index(s, c) < j < s.len() ==> s[j] != c,
    decreases s.len(),
{
    if s.len() > 0 && s.last() != c {
        let t = s.drop_last();
        lemma_last_index(t, c);
        assert forall|j: int| last_index(s, c) < j < s.len() implies s[j] != c by {
            if j < t.len() {
                assert(t[j] == s[j]);
            }
        }
    }
}

/// A path at whose end everything counts is trimmed already.
pub proof fn lemma_trimmed_already(path: Seq<char>)
    requires
        path.len() > 0 ==> path.last() != '/',
        path.len() >= 2 ==> !(path.last() == '.' && path[path.len() - 2] == '/'),
    ensures
        trimmed(path) == path,
{
}

/// A path's file name holds no `/`, and is its own file name.
pub proof fn lemma_file_name_is_plain(path: Seq<char>)
    ensures
        file_name_of(path) matches Some(name) ==> last_index(name, '/') == -1 && file_name_of(name)
            == Some(name),
{
    let t = trimmed(path);
    lemma_last_index(t, '/');
    match file_name_of(path) {
        Some(name) => {
            lemma_last_index(name, '/');
            let k = last_index(name, '/');
            if k >= 0 {
                assert(name[k] == t[last_index(t, '/') + 1 + k]);
            }
            assert(forall|j: int| 0 <= j < name.len() ==> name[j] != '/');
            lemma_trimmed_already(name);
            assert(name.subrange(0, name.len() as int) =~= name);
        },
        None => {},
    }
}

/// The file name of a name placed under a directory is that name, where the
/// name itself is a file name.
pub proof fn lemma_file_name_of_joined(base: Seq<char>, name: Seq<char>)
    requires
        file_name_of(name) == Some(name),
        last_index(name, '/') == -1,
    ensures
        file_name_of(joined(base, name)) == Some(name),
{
    let p = joined(base, name);
    let start = p.len() - name.len();
    assert(p.subrange(start, p.len() as int) =~= name);
    lemma_last_index(name, '/');
    assert(forall|j: int| 0 <= j < name.len() ==> name[j] != '/');
    assert(name.len() > 0);
    assert(forall|j: int| start <= j < p.len() ==> p[j] == name[j - start]);
    assert(p.last() == name.last());
    if p.len() >= 2 && p.last() == '.' && p[p.len() - 2] == '/' {
        if name.len() >= 2 {
            assert(p[p.len() - 2] == name[name.len() - 2]);
        } else {
            assert(name =~= seq!['.']);
        }
    }
    lemma_trimmed_already(p);
    lemma_last_index(p, '/');
    let k = last_index(p, '/');
    if base.len() > 0 {
        assert(p[start - 1] == '/');
        assert(k >= start - 1);
    }
    assert(k < start) by {
        if k >= start {
            assert(p[k] == name[k - start]);
        }
    }
    assert(k == start - 1);
}

fn last_index_before(v: &Vec<char>, c: char, end: usize) -> (r: Option<usize>)
    requires
        end <= v.len(),
    ensures
        match r {
            Some(i) => last_index(v@.take(end as int), c) == i && i < end,
            None => last_index(v@.take(end as int), c) == -1,
        },
{
    let ghost s = v@.take(end as int);
    let mut k: usize = end;
    assert(s.take(k as int) =~= s);
    while k > 0
        invariant
            k <= end,
            end <= v.len(),
            s == v@.take(end as int),
            last_index(s, c) == last_index(s.take(k as int), c),
        decreases k,
    {
        if v[k - 1] == c {
            return Some(k - 1);
        }
        assert(s.take(k as int).drop_last() =~= s.take(k - 1));
        k -= 1;
    }
    None
}

/// `name` placed under the directory `base`.
pub fn join(base: &str, name: &str) -> (r: String)
    ensures
        r@ == joined(base@, name@),
{
    let n: usize = base.unicode_len();
    let mut s = base.to_owned();
    if n > 0 && base.get_char(n - 1) != '/' {
        proof {
            reveal_strlit("/");
        }
        assert("/"@ =~= seq!['/']);
        s.append("/");
    }
    s.append(name);
    s
}

/// The file name of `path`, if it names a file.
pub fn file_name(path: &str) -> (r: Option<String>)
    ensures
        match r {
            Some(name) => file_name_of(path@) == Some(name@),
            None => file_name_of(path@) is None,
        },
{
    let v = chars_of(path);
    let mut end: usize = v.len();
    assert(path@.take(end as int) =~= path@);
    while (end > 0 && v[end - 1] == '/') || (end >= 2 && v[end - 1] == '.' && v[end - 2] == '/')
        invariant
            end <= v.len(),
            v@ == path@,
            trimmed(path@) == trimmed(path@.take(end as int)),
        decreases end,
    {
        let ghost t = path@.take(end as int);
        if v[end - 1] == '/' {
            assert(t.drop_last() =~= path@.take(end - 1));
            end -= 1;
        } else {
            assert(t.subrange(0, t.len() - 2) =~= path@.take(end - 2));
            end -= 2;
        }
    }
    let ghost t = path@.take(end as int);
    proof {
        lemma_trimmed_already(t);
        lemma_last_index(t, '/');
    }
    let start: usize = match last_index_before(&v, '/', end) {
        Some(i) => i + 1,
        None => 0,
    };
    let len: usize = end - start;
    let ghost name = path@.subrange(start as int, end as int);
    assert(name =~= last_component(t));
    if len == 0 {
        None
    } else if len == 1 && v[start] == '.' {
        assert(name =~= seq!['.']);
        None
    } else if len == 2 && v[start] == '.' && v[start + 1] == '.' {
        assert(name =~= seq!['.', '.']);
        None
    } else {
        assert(name != seq!['.']) by {
            if name == seq!['.'] {
                assert(name.len() == 1 && name[0] == '.');
            }
        }
        assert(name != seq!['.', '.']) by {
            if name == seq!['.', '.'] {
                assert(name.len() == 2 && name[0] == '.' && name[1] == '.');
            }
        }
        Some(path.substring_char(start, end).to_owned())
    }
}

/// The extension of the file that `path` names, if it has one.
pub fn extension(path: &str) -> (r: Option<String>)
    ensures
        match r {
            Some(ext) => extension_of(path@) == Some(ext@),
            None => extension_of(path@) is None,
        },
{
    match file_name(path) {
        None => None,
        Some(name) => {
            let v = chars_of(name.as_str());
            assert(v@.take(v@.len() as int) =~= v@);
            match last_index_before(&v, '.', v.len()) {
                None => None,
                Some(dot) => {
                    proof {
                        lemma_last_index(v@, '.');
                    }
                    if dot == 0 {
                        None
                    } else {
                        Some(name.as_str().substring_char(dot + 1, v.len()).to_owned())
                    }
                },
            }
        },
    }
}

/// Joining an optional component onto a path.
pub trait PathExt {
    /// The path as text.
    spec fn path_text(&self) -> Seq<char>;

    /// The path with `path` placed under it, or the path itself where there
    /// is nothing to place.
    fn join_option(&self, path: Option<&str>) -> (r: String)
        ensures
            r@ == joined_option(
                self.path_text(),
                match path {
                    Some(p) => Some(p@),
                    None => None,
                },
            ),
    ;
}

impl PathExt for str {
    open spec fn path_text(&self) -> Seq<char> {
        self@
    }

    fn join_option(&self, path: Option<&str>) -> (r: String) {
        match path {
            None => self.to_owned(),
            Some(v) => join(self, v),
        }
    }
}

} // verus!
