//! Paths as strings whose components are parted by `/`.
//!
//! The file name of a path is its last component: what follows the last
//! `/`, once what stands for nothing at the end of the path is set aside,
//! a `/` or a `/.`. A path whose last component is empty, `.` or `..`
//! names no file.

use vstd::prelude::*;
use vstd::string::StringExecFns;
use vstd::string::StrSliceExecFns;
use crate::text::{last_index_of, lemma_last_index_of, to_chars};

verus! {

/// The path starts at the root of the file system.
pub open spec fn is_absolute(path: Seq<char>) -> bool {
    path.len() > 0 && path[0] == '/'
}

/// `child` below `base`: an absolute `child` stands for itself, and one `/`
/// is put between the two unless `base` is empty or already ends with one.
pub open spec fn path_join(base: Seq<char>, child: Seq<char>) -> Seq<char> {
    if is_absolute(child) {
        child
    } else if base.len() > 0 && base.last() != '/' {
        base + seq!['/'] + child
    } else {
        base + child
    }
}

/// `path` ends with `/.`: with a component that stands for the directory
/// before it.
pub open spec fn ends_with_dot_component(path: Seq<char>) -> bool {
    path.len() >= 2 && path.last() == '.' && path[path.len() - 2] == '/'
}

/// `path` without what stands for nothing at its end: a `/`, or a `/.`.
pub open spec fn trimmed(path: Seq<char>) -> Seq<char>
    decreases path.len(),
{
    if path.len() > 0 && path.last() == '/' {
        trimmed(path.drop_last())
    } else if ends_with_dot_component(path) {
        trimmed(path.subrange(0, path.len() - 2))
    } else {
        path
    }
}

/// The last component of `path`.
pub open spec fn last_component(path: Seq<char>) -> Seq<char> {
    trimmed(path).subrange(last_index_of(trimmed(path), '/') + 1, trimmed(path).len() as int)
}

/// The component is the name of a file rather than empty, `.` or `..`.
pub open spec fn names_file(component: Seq<char>) -> bool {
    component.len() > 0 && component != seq!['.'] && component != seq!['.', '.']
}

/// The file name of `path`.
pub open spec fn file_name(path: Seq<char>) -> Option<Seq<char>> {
    if names_file(last_component(path)) {
        Some(last_component(path))
    } else {
        None
    }
}

/// A file name without its extension: what stands before its last `.`, or
/// all of it where it holds no `.` or only one in front.
pub open spec fn stem_of(name: Seq<char>) -> Seq<char> {
    if last_index_of(name, '.') <= 0 {
        name
    } else {
        name.subrange(0, last_index_of(name, '.'))
    }
}

/// The file name of `path` without its extension.
pub open spec fn file_stem(path: Seq<char>) -> Option<Seq<char>> {
    match file_name(path) {
        Some(name) => Some(stem_of(name)),
        None => None,
    }
}

/// A path that ends neither with `/` nor with `/.` has nothing to set
/// aside.
pub proof fn lemma_trimmed_same(path: Seq<char>)
    requires
        path.len() == 0 || path.last() != '/',
        !ends_with_dot_component(path),
    ensures
        trimmed(path) == path,
{
}

/// `child` below `base`.
pub fn join(base: &str, child: &str) -> (r: String)
    ensures
        r@ == path_join(base@, child@),
{
    let b = to_chars(base);
    let c = to_chars(child);
    if c.len() > 0 && c[0] == '/' {
        return String::from_str(child);
    }
    let mut r = String::from_str(base);
    if b.len() > 0 && b[b.len() - 1] != '/' {
        proof {
            reveal_strlit("/");
        }
        r.append("/");
        assert(r@ =~= base@ + seq!['/']);
    }
    r.append(child);
    r
}

/// The length of `path` without what is set aside at its end.
fn trimmed_len(path: &Vec<char>) -> (n: usize)
    ensures
        n <= path.len(),
        path@.take(n as int) == trimmed(path@),
{
    let mut n: usize = path.len();
    assert(path@.take(n as int) =~= path@);
    loop
        invariant
            n <= path.len(),
            trimmed(path@) == trimmed(path@.take(n as int)),
        ensures
            n <= path.len(),
            trimmed(path@) == trimmed(path@.take(n as int)),
            n == 0 || path[n - 1] != '/',
            !ends_with_dot_component(path@.take(n as int)),
        decreases n,
    {
        let ghost front = path@.take(n as int);
        if n > 0 && path[n - 1] == '/' {
            proof {
                assert(front.drop_last() =~= path@.take(n - 1));
            }
            n -= 1;
        } else if n >= 2 && path[n - 1] == '.' && path[n - 2] == '/' {
            proof {
                assert(ends_with_dot_component(front));
                assert(front.subrange(0, front.len() - 2) =~= path@.take(n - 2));
            }
            n -= 2;
        } else {
            break ;
        }
    }
    proof {
        lemma_trimmed_same(path@.take(n as int));
    }
    n
}

/// The place of the last `c` among the first `end` characters of `s`.
fn find_last_before(s: &Vec<char>, end: usize, c: char) -> (r: Option<usize>)
    requires
        end <= s.len(),
    ensures
        match r {
            Some(i) => i as int == last_index_of(s@.take(end as int), c) && i < end,
            None => last_index_of(s@.take(end as int), c) == -1,
        },
{
    let mut i: usize = end;
    while i > 0
        invariant
            i <= end <= s.len(),
            last_index_of(s@.take(end as int), c) == last_index_of(s@.take(i as int), c),
        decreases i,
    {
        if s[i - 1] == c {
            assert(s@.take(i as int).last() == c);
            return Some(i - 1);
        }
        proof {
            assert(s@.take(i as int).drop_last() =~= s@.take(i - 1));
        }
        i -= 1;
    }
    None
}

/// The character offsets at which the file name of `path` starts and ends
/// in it.
fn name_bounds(path: &Vec<char>) -> (r: Option<(usize, usize)>)
    ensures
        match r {
            Some((from, to)) => {
                &&& file_name(path@) == Some(path@.subrange(from as int, to as int))
                &&& from < to <= path.len()
            },
            None => file_name(path@) is None,
        },
{
    let to: usize = trimmed_len(path);
    let ghost front = path@.take(to as int);
    let from: usize = match find_last_before(path, to, '/') {
        Some(i) => i + 1,
        None => 0,
    };
    let ghost name = path@.subrange(from as int, to as int);
    proof {
        assert(front.subrange(from as int, to as int) =~= name);
    }
    if from == to {
        return None;
    }
    if to - from == 1 && path[from] == '.' {
        assert(name =~= seq!['.']);
        return None;
    }
    if to - from == 2 && path[from] == '.' && path[from + 1] == '.' {
        assert(name =~= seq!['.', '.']);
        return None;
    }
    proof {
        if name == seq!['.'] {
            assert(name.len() == 1 && name[0] == '.');
        }
        if name == seq!['.', '.'] {
            assert(name.len() == 2 && name[0] == '.' && name[1] == '.');
        }
    }
    Some((from, to))
}

/// The file name of `path`.
pub fn name_of(path: &str) -> (r: Option<String>)
    ensures
        match r {
            Some(name) => file_name(path@) == Some(name@),
            None => file_name(path@) is None,
        },
{
    let chars = to_chars(path);
    match name_bounds(&chars) {
        Some((from, to)) => Some(String::from_str(path.substring_char(from, to))),
        None => None,
    }
}

/// The character offset at which the stem of the name `path[from..to]` ends.
fn stem_end(path: &Vec<char>, from: usize, to: usize) -> (end: usize)
    requires
        from < to <= path.len(),
    ensures
        from < end <= to,
        path@.subrange(from as int, end as int) == stem_of(path@.subrange(from as int, to as int)),
{
    let ghost name = path@.subrange(from as int, to as int);
    proof {
        lemma_last_index_of(name, '.');
    }
    let mut i: usize = to;
    assert(name.take((i - from) as int) =~= name);
    while i > from
        invariant
            from <= i <= to <= path.len(),
            name == path@.subrange(from as int, to as int),
            last_index_of(name, '.') == last_index_of(name.take((i - from) as int), '.'),
        decreases i,
    {
        if path[i - 1] == '.' {
            assert(name.take((i - from) as int).last() == '.');
            if i - 1 == from {
                assert(name =~= path@.subrange(from as int, to as int));
                return to;
            }
            assert(path@.subrange(from as int, i - 1) =~= name.subrange(0, i - 1 - from));
            return i - 1;
        }
        proof {
            assert(name.take((i - from) as int).drop_last() =~= name.take(i - 1 - from));
        }
        i -= 1;
    }
    to
}

/// The file name of `path` without its extension.
pub fn stem(path: &str) -> (r: Option<String>)
    ensures
        match r {
            Some(s) => file_stem(path@) == Some(s@),
            None => file_stem(path@) is None,
        },
{
    let chars = to_chars(path);
    match name_bounds(&chars) {
        Some((from, to)) => {
            let end = stem_end(&chars, from, to);
            Some(String::from_str(path.substring_char(from, end)))
        },
        None => None,
    }
}

} // verus!
