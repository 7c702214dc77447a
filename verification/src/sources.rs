//! Which files of a project are sources and which are tests.
//!
//! A file below `src` whose name ends in `.test.c` is a test that stands
//! beside the sources; every other `.c` file there is a source. Every `.c`
//! file below `tests` is a test too.

use vstd::prelude::*;
use crate::host::{is_file, walk, yes_at};
use crate::paths::{file_name, name_of};
use crate::project::Project;
use crate::text::{ends_with, equal, extend, views};

verus! {

/// The path is that of a C file.
pub open spec fn is_c_file(path: Seq<char>) -> bool {
    ".c"@.is_suffix_of(path)
}

/// The path is that of a test that stands beside the sources.
pub open spec fn is_inline_test(path: Seq<char>) -> bool {
    ".test.c"@.is_suffix_of(path)
}

/// The path is that of a source: a C file that is no test.
pub open spec fn is_c_source(path: Seq<char>) -> bool {
    is_c_file(path) && !is_inline_test(path)
}

/// The path is that of a file called `main.c`.
pub open spec fn is_main(path: Seq<char>) -> bool {
    file_name(path) == Some("main.c"@)
}

/// The sources among `files`, in their order.
pub open spec fn c_sources_of(files: Seq<Seq<char>>) -> Seq<Seq<char>> {
    files.filter(|p: Seq<char>| is_c_source(p))
}

/// The tests among the files below `src` and the files below `tests`: first
/// those beside the sources, then those of the tests directory, each group
/// in its order. A path that stands in both is a test twice.
pub open spec fn tests_of(src_files: Seq<Seq<char>>, tests_files: Seq<Seq<char>>) -> Seq<
    Seq<char>,
> {
    src_files.filter(|p: Seq<char>| is_inline_test(p)) + tests_files.filter(
        |p: Seq<char>| is_c_file(p),
    )
}

/// The sources that every test is compiled with: all but `main.c`.
pub open spec fn shared_sources_of(c_files: Seq<Seq<char>>) -> Seq<Seq<char>> {
    c_files.filter(|p: Seq<char>| !is_main(p))
}

/// Those of `found` that `answers` says yes to, in their order. What the
/// answers say nothing of is left out.
pub open spec fn kept(found: Seq<Seq<char>>, answers: Seq<bool>) -> Seq<Seq<char>>
    decreases found.len(),
{
    if found.len() == 0 {
        Seq::empty()
    } else {
        let rest = kept(found.drop_last(), answers);
        if yes_at(answers, found.len() - 1) {
            rest.push(found.last())
        } else {
            rest
        }
    }
}

/// Every path of `found` starts with `root`.
pub open spec fn all_below(root: Seq<char>, found: Seq<Seq<char>>) -> bool {
    forall|i: int| 0 <= i < found.len() ==> root.is_prefix_of(#[trigger] found[i])
}

/// `files` are the files at and below `root` as some state of the disk
/// shows them: of what a walk from `root` finds, each at a path that starts
/// with `root`, those that are said to be files, in the order of the walk.
pub open spec fn listed_below(root: Seq<char>, files: Seq<Seq<char>>) -> bool {
    exists|found: Seq<Seq<char>>, answers: Seq<bool>|
        all_below(root, found) && #[trigger] kept(found, answers) == files
}

/// What is kept of paths that start with `root` starts with `root`.
pub proof fn lemma_kept_is_below(root: Seq<char>, found: Seq<Seq<char>>, answers: Seq<bool>)
    requires
        all_below(root, found),
    ensures
        all_below(root, kept(found, answers)),
    decreases found.len(),
{
    if found.len() > 0 {
        let front = found.drop_last();
        assert forall|i: int| 0 <= i < front.len() implies root.is_prefix_of(
            #[trigger] front[i],
        ) by {
            assert(front[i] == found[i]);
        }
        lemma_kept_is_below(root, front, answers);
        let rest = kept(front, answers);
        assert forall|i: int| 0 <= i < kept(found, answers).len() implies root.is_prefix_of(
            #[trigger] kept(found, answers)[i],
        ) by {
            if i < rest.len() {
                assert(kept(found, answers)[i] == rest[i]);
            } else {
                assert(kept(found, answers)[i] == found[found.len() - 1]);
            }
        }
    }
}

/// What is listed below `root` is at paths that start with `root`.
pub proof fn lemma_listed_is_below(root: Seq<char>, files: Seq<Seq<char>>)
    requires
        listed_below(root, files),
    ensures
        all_below(root, files),
{
    let (found, answers) = choose|found: Seq<Seq<char>>, answers: Seq<bool>|
        all_below(root, found) && #[trigger] kept(found, answers) == files;
    lemma_kept_is_below(root, found, answers);
}

/// The tests are as many as the two groups together: nothing is left out
/// for standing in both.
pub proof fn lemma_tests_are_a_union(src_files: Seq<Seq<char>>, tests_files: Seq<Seq<char>>)
    ensures
        tests_of(src_files, tests_files).len() == src_files.filter(
            |p: Seq<char>| is_inline_test(p),
        ).len() + tests_files.filter(|p: Seq<char>| is_c_file(p)).len(),
        forall|p: Seq<char>|
            src_files.contains(p) && is_inline_test(p) ==> tests_of(
                src_files,
                tests_files,
            ).contains(p),
        forall|p: Seq<char>|
            tests_files.contains(p) && is_c_file(p) ==> tests_of(src_files, tests_files).contains(
                p,
            ),
        forall|p: Seq<char>| #[trigger]
            tests_of(src_files, tests_files).contains(p) ==> (src_files.contains(p)
                && is_inline_test(p)) || (tests_files.contains(p) && is_c_file(p)),
{
    let inline = |p: Seq<char>| is_inline_test(p);
    let explicit = |p: Seq<char>| is_c_file(p);
    let a = src_files.filter(inline);
    let b = tests_files.filter(explicit);
    assert forall|p: Seq<char>| src_files.contains(p) && is_inline_test(p) implies (a + b).contains(
        p,
    ) by {
        let i = choose|i: int| 0 <= i < src_files.len() && src_files[i] == p;
        src_files.lemma_filter_contains(inline, i);
        let j = choose|j: int| 0 <= j < a.len() && a[j] == p;
        assert((a + b)[j] == p);
    }
    assert forall|p: Seq<char>| tests_files.contains(p) && is_c_file(p) implies (a + b).contains(
        p,
    ) by {
        let i = choose|i: int| 0 <= i < tests_files.len() && tests_files[i] == p;
        tests_files.lemma_filter_contains(explicit, i);
        let j = choose|j: int| 0 <= j < b.len() && b[j] == p;
        assert((a + b)[a.len() + j] == p);
    }
    assert forall|p: Seq<char>| #[trigger] (a + b).contains(p) implies (src_files.contains(p)
        && is_inline_test(p)) || (tests_files.contains(p) && is_c_file(p)) by {
        let k = choose|k: int| 0 <= k < (a + b).len() && (a + b)[k] == p;
        if k < a.len() {
            assert(a.contains(p));
            src_files.lemma_filter_contains_rev(inline, p);
            src_files.lemma_filter_pred(inline, k);
        } else {
            assert(b[k - a.len()] == p);
            assert(b.contains(p));
            tests_files.lemma_filter_contains_rev(explicit, p);
            tests_files.lemma_filter_pred(explicit, k - a.len());
        }
    }
}

/// A file that stands in both groups is a test twice.
pub proof fn lemma_test_in_both_is_found_twice(
    src_files: Seq<Seq<char>>,
    tests_files: Seq<Seq<char>>,
    p: Seq<char>,
)
    requires
        src_files.contains(p),
        tests_files.contains(p),
        is_inline_test(p),
        is_c_file(p),
    ensures
        tests_of(src_files, tests_files).to_multiset().count(p) >= 2,
{
    broadcast use vstd::seq_lib::group_to_multiset_ensures;

    let inline = |p: Seq<char>| is_inline_test(p);
    let explicit = |p: Seq<char>| is_c_file(p);
    let a = src_files.filter(inline);
    let b = tests_files.filter(explicit);
    let i = choose|i: int| 0 <= i < src_files.len() && src_files[i] == p;
    src_files.lemma_filter_contains(inline, i);
    let j = choose|j: int| 0 <= j < tests_files.len() && tests_files[j] == p;
    tests_files.lemma_filter_contains(explicit, j);
    vstd::seq_lib::lemma_multiset_commutative(a, b);
    assert(a.to_multiset().count(p) > 0);
    assert(b.to_multiset().count(p) > 0);
}

/// Whether `path` is that of a C file.
pub fn is_c(path: &str) -> (r: bool)
    ensures
        r == is_c_file(path@),
{
    ends_with(path, ".c")
}

/// Whether `path` is that of a test that stands beside the sources.
pub fn is_test(path: &str) -> (r: bool)
    ensures
        r == is_inline_test(path@),
{
    ends_with(path, ".test.c")
}

/// Whether `path` is that of a source.
pub fn is_source(path: &str) -> (r: bool)
    ensures
        r == is_c_source(path@),
{
    is_c(path) && !is_test(path)
}

/// Whether `path` is that of a file that is not called `main.c`.
pub fn is_shared(path: &str) -> (r: bool)
    ensures
        r == !is_main(path@),
{
    match name_of(path) {
        Some(name) => !equal(name.as_str(), "main.c"),
        None => true,
    }
}

/// Those of `files` that `keep` says yes to, in their order, where `keep`
/// decides as `pred` does.
fn pick<F: Fn(&str) -> bool>(
    files: &Vec<String>,
    keep: F,
    Ghost(pred): Ghost<spec_fn(Seq<char>) -> bool>,
) -> (r: Vec<String>)
    requires
        forall|s: &str| call_requires(keep, (s,)),
        forall|s: &str, b: bool| call_ensures(keep, (s,), b) ==> b == pred(s@),
    ensures
        views(r@) == views(files@).filter(pred),
{
    let mut r: Vec<String> = Vec::new();
    let mut i: usize = 0;
    assert(views(files@).take(0) =~= Seq::<Seq<char>>::empty());
    assert(views(r@) =~= Seq::<Seq<char>>::empty());
    assert(Seq::<Seq<char>>::empty().filter(pred) =~= Seq::<Seq<char>>::empty()) by {
        reveal(Seq::filter);
    }
    while i < files.len()
        invariant
            i <= files.len(),
            forall|s: &str| call_requires(keep, (s,)),
            forall|s: &str, b: bool| call_ensures(keep, (s,), b) ==> b == pred(s@),
            views(r@) == views(files@).take(i as int).filter(pred),
        decreases files.len() - i,
    {
        let ghost before = views(r@);
        proof {
            let all = views(files@);
            assert(all.take(i + 1) =~= all.take(i as int).push(files[i as int]@));
            all.take(i as int).lemma_filter_push(files[i as int]@, pred);
        }
        if keep(files[i].as_str()) {
            r.push(files[i].clone());
            assert(views(r@) =~= before.push(files[i as int]@));
        }
        i += 1;
    }
    assert(views(files@).take(files.len() as int) =~= views(files@));
    r
}

/// The sources among `files`, in their order.
pub fn c_sources(files: &Vec<String>) -> (r: Vec<String>)
    ensures
        views(r@) == c_sources_of(views(files@)),
{
    pick(files, is_source, Ghost(|p: Seq<char>| is_c_source(p)))
}

/// The tests among the files below `src` and the files below `tests`.
pub fn test_sources(src_files: &Vec<String>, tests_files: &Vec<String>) -> (r: Vec<String>)
    ensures
        views(r@) == tests_of(views(src_files@), views(tests_files@)),
{
    let mut r = pick(src_files, is_test, Ghost(|p: Seq<char>| is_inline_test(p)));
    let apart = pick(tests_files, is_c, Ghost(|p: Seq<char>| is_c_file(p)));
    extend(&mut r, &apart);
    r
}

/// The sources that every test is compiled with: all of `c_files` but those
/// called `main.c`.
pub fn shared_sources(c_files: &Vec<String>) -> (r: Vec<String>)
    ensures
        views(r@) == shared_sources_of(views(c_files@)),
{
    pick(c_files, is_shared, Ghost(|p: Seq<char>| !is_main(p)))
}

/// Those of `found` that `answers` says to be files, in their order, where
/// `answers` holds for each place of `found` what the machine said of it.
pub fn files_among(found: &Vec<String>, answers: &Vec<bool>) -> (r: Vec<String>)
    ensures
        views(r@) == kept(views(found@), answers@),
{
    let mut r: Vec<String> = Vec::new();
    let mut i: usize = 0;
    assert(views(found@).take(0) =~= Seq::<Seq<char>>::empty());
    assert(views(r@) =~= Seq::<Seq<char>>::empty());
    while i < found.len()
        invariant
            i <= found.len(),
            views(r@) == kept(views(found@).take(i as int), answers@),
        decreases found.len() - i,
    {
        let ghost before = views(r@);
        proof {
            let all = views(found@);
            assert(all.take(i + 1).drop_last() =~= all.take(i as int));
            assert(all.take(i + 1).last() == found[i as int]@);
        }
        if i < answers.len() && answers[i] {
            r.push(found[i].clone());
            assert(views(r@) =~= before.push(found[i as int]@));
        }
        i += 1;
    }
    assert(views(found@).take(found.len() as int) =~= views(found@));
    r
}

/// The files at and below `root`, as the machine shows them now: of what a
/// walk from `root` finds, what the machine says to be a file, in the order
/// of the walk. The path of each starts with `root`.
fn files_below(root: &str) -> (r: Vec<String>)
    ensures
        listed_below(root@, views(r@)),
        forall|i: int| 0 <= i < r.len() ==> root@.is_prefix_of(#[trigger] r[i]@),
{
    let found = walk(root);
    let mut answers: Vec<bool> = Vec::new();
    let mut i: usize = 0;
    while i < found.len()
        invariant
            i <= found.len(),
            answers.len() == i,
        decreases found.len() - i,
    {
        answers.push(is_file(found[i].as_str()));
        i += 1;
    }
    let r = files_among(&found, &answers);
    proof {
        let listing = views(found@);
        assert forall|k: int| 0 <= k < listing.len() implies root@.is_prefix_of(
            #[trigger] listing[k],
        ) by {
            assert(listing[k] == found[k]@);
        }
        assert(kept(listing, answers@) == views(r@));
        lemma_kept_is_below(root@, listing, answers@);
        assert forall|k: int| 0 <= k < r.len() implies root@.is_prefix_of(#[trigger] r[k]@) by {
            assert(views(r@)[k] == r[k]@);
        }
    }
    r
}

impl<'a> Project<'a> {
    /// The files below `src`, as the machine shows them now: what a walk
    /// from `src` finds and the machine says to be a file, in the order of
    /// the walk. The path of each starts with that of `src`.
    pub fn src_files(&self) -> (r: Vec<String>)
        ensures
            listed_below(self.src_dir(), views(r@)),
            forall|i: int| 0 <= i < r.len() ==> self.src_dir().is_prefix_of(#[trigger] r[i]@),
    {
        let src = self.src();
        files_below(src.as_str())
    }

    /// The sources below `src`, as the machine shows them now: the sources
    /// among the files that are listed below `src`, in their order. Each of
    /// them is a C file that is no test, at a path that starts with that of
    /// `src`.
    pub fn c_files(&self) -> (r: Vec<String>)
        ensures
            exists|files: Seq<Seq<char>>|
                listed_below(self.src_dir(), files) && #[trigger] c_sources_of(files) == views(r@),
            forall|i: int|
                0 <= i < r.len() ==> is_c_source(#[trigger] r[i]@) && self.src_dir().is_prefix_of(
                    r[i]@,
                ),
    {
        let all = self.src_files();
        let r = c_sources(&all);
        proof {
            let pred = |p: Seq<char>| is_c_source(p);
            assert(c_sources_of(views(all@)) == views(r@));
            assert forall|i: int| 0 <= i < r.len() implies is_c_source(#[trigger] r[i]@)
                && self.src_dir().is_prefix_of(r[i]@) by {
                assert(views(r@)[i] == r[i]@);
                views(all@).lemma_filter_pred(pred, i);
                lemma_filtered_is_listed(views(all@), pred, i);
                let k = choose|k: int| 0 <= k < all.len() && views(all@)[k] == r[i]@;
                assert(views(all@)[k] == all[k]@);
            }
        }
        r
    }

    /// The tests of the project, as the machine shows them now: the tests
    /// among the files that are listed below `src` and those that are
    /// listed below `tests`. First come those beside the sources, at paths
    /// that start with that of `src`, then the C files at paths that start
    /// with that of `tests`.
    pub fn test_files(&self) -> (r: Vec<String>)
        ensures
            exists|beside: Seq<Seq<char>>, apart: Seq<Seq<char>>|
                listed_below(self.src_dir(), beside) && listed_below(self.tests_dir(), apart)
                    && #[trigger] tests_of(beside, apart) == views(r@),
            forall|i: int|
                0 <= i < r.len() ==> is_c_file(#[trigger] r[i]@) && ((is_inline_test(r[i]@)
                    && self.src_dir().is_prefix_of(r[i]@)) || self.tests_dir().is_prefix_of(
                    r[i]@,
                )),
    {
        let beside = self.src_files();
        let tests = self.tests();
        let apart = files_below(tests.as_str());
        let r = test_sources(&beside, &apart);
        proof {
            let inline = |p: Seq<char>| is_inline_test(p);
            let explicit = |p: Seq<char>| is_c_file(p);
            let a = views(beside@).filter(inline);
            let b = views(apart@).filter(explicit);
            assert(tests_of(views(beside@), views(apart@)) == views(r@));
            assert(views(r@) == a + b);
            assert forall|i: int| 0 <= i < r.len() implies is_c_file(#[trigger] r[i]@) && ((
            is_inline_test(r[i]@) && self.src_dir().is_prefix_of(r[i]@))
                || self.tests_dir().is_prefix_of(r[i]@)) by {
                assert(views(r@)[i] == r[i]@);
                if i < a.len() {
                    assert((a + b)[i] == a[i]);
                    views(beside@).lemma_filter_pred(inline, i);
                    lemma_inline_test_is_c_file(r[i]@);
                    lemma_filtered_is_listed(views(beside@), inline, i);
                    let k = choose|k: int| 0 <= k < beside.len() && views(beside@)[k] == r[i]@;
                    assert(views(beside@)[k] == beside[k]@);
                } else {
                    assert((a + b)[i] == b[i - a.len()]);
                    views(apart@).lemma_filter_pred(explicit, i - a.len());
                    lemma_filtered_is_listed(views(apart@), explicit, i - a.len());
                    let k = choose|k: int| 0 <= k < apart.len() && views(apart@)[k] == r[i]@;
                    assert(views(apart@)[k] == apart[k]@);
                }
            }
        }
        r
    }
}

/// What was picked from a listing stands in the listing.
proof fn lemma_filtered_is_listed(
    listing: Seq<Seq<char>>,
    pred: spec_fn(Seq<char>) -> bool,
    i: int,
)
    requires
        0 <= i < listing.filter(pred).len(),
    ensures
        exists|k: int| 0 <= k < listing.len() && listing[k] == listing.filter(pred)[i],
{
    let picked = listing.filter(pred);
    assert(picked.contains(picked[i]));
    listing.lemma_filter_contains_rev(pred, picked[i]);
    let k = choose|k: int| 0 <= k < listing.len() && listing[k] == picked[i];
    assert(listing[k] == picked[i]);
}

/// A test beside the sources is a C file.
pub proof fn lemma_inline_test_is_c_file(path: Seq<char>)
    requires
        is_inline_test(path),
    ensures
        is_c_file(path),
{
    reveal_strlit(".c");
    reveal_strlit(".test.c");
    let long = ".test.c"@;
    let short = ".c"@;
    let tail = path.subrange(path.len() - long.len(), path.len() as int);
    assert(tail == long);
    assert(short =~= path.subrange(path.len() - short.len(), path.len() as int)) by {
        assert(tail[5] == long[5]);
        assert(tail[6] == long[6]);
    }
}

} // verus!
