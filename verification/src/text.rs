//! Strings as sequences of characters: the tests and renderings that the rest
//! of the crate states its contracts with.

use vstd::prelude::*;
use vstd::string::StringExecFns;

verus! {

/// The views of a sequence of strings, element by element.
pub open spec fn views(items: Seq<String>) -> Seq<Seq<char>> {
    Seq::new(items.len(), |i: int| items[i]@)
}

/// The view of a string that may be absent.
pub open spec fn maybe_view(s: Option<String>) -> Option<Seq<char>> {
    match s {
        Some(s) => Some(s@),
        None => None,
    }
}

/// The view of a string that may be absent.
pub open spec fn option_view(s: Option<&String>) -> Option<Seq<char>> {
    match s {
        Some(s) => Some(s@),
        None => None,
    }
}

/// `pat` occurs in `s` at offset `at`.
pub open spec fn occurs_at(s: Seq<char>, pat: Seq<char>, at: int) -> bool {
    0 <= at && at + pat.len() <= s.len() && s.subrange(at, at + pat.len()) == pat
}

/// `pat` occurs somewhere in `s`.
pub open spec fn contains_text(s: Seq<char>, pat: Seq<char>) -> bool {
    exists|at: int| occurs_at(s, pat, at)
}

/// `item` stands at `i` in `items` and nowhere before.
pub open spec fn is_first_at(items: Seq<Seq<char>>, item: Seq<char>, i: int) -> bool {
    &&& 0 <= i < items.len()
    &&& items[i] == item
    &&& forall|j: int| 0 <= j < i ==> items[j] != item
}

/// The first place at which `item` stands in `items`.
pub open spec fn first_index(items: Seq<Seq<char>>, item: Seq<char>) -> Option<int> {
    if exists|i: int| is_first_at(items, item, i) {
        Some(choose|i: int| is_first_at(items, item, i))
    } else {
        None
    }
}

/// The index of the last `c` in `s`, or -1 where `s` holds none.
pub open spec fn last_index_of(s: Seq<char>, c: char) -> int
    decreases s.len(),
{
    if s.len() == 0 {
        -1
    } else if s.last() == c {
        s.len() - 1
    } else {
        last_index_of(s.drop_last(), c)
    }
}

/// The character that stands for the digit `d`.
pub open spec fn digit(d: nat) -> char {
    if d == 0 {
        '0'
    } else if d == 1 {
        '1'
    } else if d == 2 {
        '2'
    } else if d == 3 {
        '3'
    } else if d == 4 {
        '4'
    } else if d == 5 {
        '5'
    } else if d == 6 {
        '6'
    } else if d == 7 {
        '7'
    } else if d == 8 {
        '8'
    } else {
        '9'
    }
}

/// `n` in decimal, most significant digit first, without leading zeros.
pub open spec fn decimal(n: nat) -> Seq<char>
    decreases n,
{
    if n < 10 {
        seq![digit(n)]
    } else {
        decimal(n / 10).push(digit(n % 10))
    }
}

/// The words of `words`, each two neighbours parted by `sep`.
pub open spec fn joined(words: Seq<Seq<char>>, sep: Seq<char>) -> Seq<char>
    decreases words.len(),
{
    if words.len() == 0 {
        Seq::empty()
    } else if words.len() == 1 {
        words[0]
    } else {
        joined(words.drop_last(), sep) + sep + words.last()
    }
}

/// What `last_index_of` finds is the last place where `c` stands.
pub proof fn lemma_last_index_of(s: Seq<char>, c: char)
    ensures
        -1 <= last_index_of(s, c) < s.len(),
        last_index_of(s, c) >= 0 ==> s[last_index_of(s, c)] == c,
        forall|j: int| last_index_of(s, c) < j < s.len() ==> s[j] != c,
    decreases s.len(),
{
    if s.len() > 0 && s.last() != c {
        let front = s.drop_last();
        lemma_last_index_of(front, c);
        assert forall|j: int| last_index_of(s, c) < j < s.len() implies s[j] != c by {
            if j < front.len() {
                assert(front[j] == s[j]);
            }
        }
    }
}

/// The first place of an item is the one place that `is_first_at` holds of.
pub proof fn lemma_first_index(items: Seq<Seq<char>>, item: Seq<char>, i: int)
    requires
        is_first_at(items, item, i),
    ensures
        first_index(items, item) == Some(i),
{
    let c = choose|k: int| is_first_at(items, item, k);
    assert(is_first_at(items, item, c));
    if c < i {
        assert(items[c] != item);
    }
    if i < c {
        assert(items[i] != item);
    }
}

/// An item has a first place exactly when it stands somewhere.
pub proof fn lemma_first_index_none(items: Seq<Seq<char>>, item: Seq<char>)
    ensures
        first_index(items, item) is None <==> forall|j: int|
            0 <= j < items.len() ==> items[j] != item,
        first_index(items, item) matches Some(i) ==> is_first_at(items, item, i),
    decreases items.len(),
{
    if first_index(items, item) is None {
        assert forall|j: int| 0 <= j < items.len() implies items[j] != item by {
            if items[j] == item {
                lemma_has_first(items, item, j);
            }
        }
    } else {
        let c = choose|k: int| is_first_at(items, item, k);
        assert(is_first_at(items, item, c));
    }
}

/// An item that stands at `at` has a first place, at `at` or before.
pub proof fn lemma_has_first(items: Seq<Seq<char>>, item: Seq<char>, at: int)
    requires
        0 <= at < items.len(),
        items[at] == item,
    ensures
        exists|i: int| is_first_at(items, item, i) && i <= at,
    decreases at,
{
    if forall|j: int| 0 <= j < at ==> items[j] != item {
        assert(is_first_at(items, item, at));
    } else {
        let j = choose|j: int| 0 <= j < at && items[j] == item;
        lemma_has_first(items, item, j);
    }
}

/// The last `c` of two sequences in a row is the last one of the second,
/// and that of the first where the second holds none.
pub proof fn lemma_last_index_of_concat(a: Seq<char>, b: Seq<char>, c: char)
    ensures
        last_index_of(a + b, c) == if last_index_of(b, c) >= 0 {
            a.len() + last_index_of(b, c)
        } else {
            last_index_of(a, c)
        },
    decreases b.len(),
{
    if b.len() == 0 {
        assert(a + b =~= a);
    } else {
        assert((a + b).last() == b.last());
        assert((a + b).drop_last() =~= a + b.drop_last());
        if b.last() != c {
            lemma_last_index_of_concat(a, b.drop_last(), c);
        }
    }
}

/// A sequence holds no `c` exactly when none of its items is `c`.
pub proof fn lemma_last_index_of_none(s: Seq<char>, c: char)
    ensures
        last_index_of(s, c) == -1 <==> forall|i: int| 0 <= i < s.len() ==> s[i] != c,
    decreases s.len(),
{
    lemma_last_index_of(s, c);
    if last_index_of(s, c) >= 0 {
        assert(s[last_index_of(s, c)] == c);
    }
}

/// A decimal rendering is never empty.
pub proof fn lemma_decimal_len(n: nat)
    ensures
        decimal(n).len() >= 1,
        n >= 10 ==> decimal(n).len() >= 2,
    decreases n,
{
    if n >= 10 {
        lemma_decimal_len(n / 10);
    }
}

/// Two numbers with the same decimal rendering are the same number.
pub proof fn lemma_decimal_injective(a: nat, b: nat)
    requires
        decimal(a) == decimal(b),
    ensures
        a == b,
    decreases a,
{
    lemma_decimal_len(a);
    lemma_decimal_len(b);
    if a < 10 || b < 10 {
        assert(decimal(a).len() == 1 && decimal(b).len() == 1);
        assert(decimal(a)[0] == digit(a));
        assert(decimal(b)[0] == digit(b));
    } else {
        let da = decimal(a / 10);
        let db = decimal(b / 10);
        assert(decimal(a).last() == digit(a % 10));
        assert(decimal(b).last() == digit(b % 10));
        assert(da =~= decimal(a).drop_last());
        assert(db =~= decimal(b).drop_last());
        lemma_decimal_injective(a / 10, b / 10);
    }
}

/// The characters of `s`, in order.
pub fn to_chars(s: &str) -> (v: Vec<char>)
    ensures
        v@ == s@,
{
    let mut v: Vec<char> = Vec::new();
    for c in it: s.chars()
        invariant
            v@ == it.seq().take(it.index()),
            it.seq() == s@,
    {
        v.push(c);
    }
    v
}

/// Whether `a` and `b` hold the same characters.
pub fn equal(a: &str, b: &str) -> (r: bool)
    ensures
        r == (a@ == b@),
{
    let x = to_chars(a);
    let y = to_chars(b);
    if x.len() != y.len() {
        return false;
    }
    let mut i: usize = 0;
    while i < x.len()
        invariant
            i <= x.len(),
            x.len() == y.len(),
            x@ == a@,
            y@ == b@,
            forall|j: int| 0 <= j < i ==> x[j] == y[j],
        decreases x.len() - i,
    {
        if x[i] != y[i] {
            return false;
        }
        i += 1;
    }
    assert(x@ =~= y@);
    true
}

/// The first place at which `item` stands in `items`.
pub fn find_first(items: &Vec<String>, item: &str) -> (r: Option<usize>)
    ensures
        match r {
            Some(i) => first_index(views(items@), item@) == Some(i as int) && i < items.len(),
            None => first_index(views(items@), item@) is None,
        },
{
    let mut i: usize = 0;
    while i < items.len()
        invariant
            i <= items.len(),
            forall|j: int| 0 <= j < i ==> views(items@)[j] != item@,
        decreases items.len() - i,
    {
        if equal(items[i].as_str(), item) {
            proof {
                assert(views(items@)[i as int] == item@);
                lemma_first_index(views(items@), item@, i as int);
            }
            return Some(i);
        }
        i += 1;
    }
    proof {
        lemma_first_index_none(views(items@), item@);
    }
    None
}

/// Whether `s` ends with `suffix`.
pub fn ends_with(s: &str, suffix: &str) -> (r: bool)
    ensures
        r == suffix@.is_suffix_of(s@),
{
    let a = to_chars(s);
    let b = to_chars(suffix);
    if b.len() > a.len() {
        return false;
    }
    let off: usize = a.len() - b.len();
    let mut i: usize = 0;
    while i < b.len()
        invariant
            i <= b.len(),
            off + b.len() == a.len(),
            a@ == s@,
            b@ == suffix@,
            forall|j: int| 0 <= j < i ==> a[off + j] == b[j],
        decreases b.len() - i,
    {
        if a[off + i] != b[i] {
            assert(a@.subrange(off as int, a.len() as int)[i as int] != b@[i as int]);
            return false;
        }
        i += 1;
    }
    assert(b@ =~= a@.subrange(off as int, a.len() as int));
    true
}

/// Whether `pat` stands in `s` at offset `at`.
fn matches_at(s: &Vec<char>, pat: &Vec<char>, at: usize) -> (r: bool)
    requires
        at + pat.len() <= s.len(),
    ensures
        r == occurs_at(s@, pat@, at as int),
{
    let mut i: usize = 0;
    while i < pat.len()
        invariant
            i <= pat.len(),
            at + pat.len() <= s.len(),
            forall|j: int| 0 <= j < i ==> s[at + j] == pat[j],
        decreases pat.len() - i,
    {
        if s[at + i] != pat[i] {
            assert(s@.subrange(at as int, at + pat.len())[i as int] != pat@[i as int]);
            return false;
        }
        i += 1;
    }
    assert(pat@ =~= s@.subrange(at as int, at + pat.len()));
    true
}

/// Whether `pat` occurs somewhere in `s`.
pub fn contains(s: &str, pat: &str) -> (r: bool)
    ensures
        r == contains_text(s@, pat@),
{
    let a = to_chars(s);
    let b = to_chars(pat);
    if b.len() > a.len() {
        return false;
    }
    if b.len() == 0 {
        assert(occurs_at(s@, pat@, 0)) by {
            assert(s@.subrange(0, 0) =~= pat@);
        }
        return true;
    }
    let last: usize = a.len() - b.len();
    let mut at: usize = 0;
    while at <= last
        invariant
            at <= last + 1,
            last + b.len() == a.len(),
            b.len() > 0,
            a@ == s@,
            b@ == pat@,
            forall|k: int| 0 <= k < at ==> !occurs_at(a@, b@, k),
        decreases last + 1 - at,
    {
        if matches_at(&a, &b, at) {
            return true;
        }
        at += 1;
    }
    false
}

/// One decimal digit as a string.
fn digit_text(d: u64) -> (r: &'static str)
    requires
        d < 10,
    ensures
        r@ == seq![digit(d as nat)],
{
    proof {
        reveal_strlit("0");
        reveal_strlit("1");
        reveal_strlit("2");
        reveal_strlit("3");
        reveal_strlit("4");
        reveal_strlit("5");
        reveal_strlit("6");
        reveal_strlit("7");
        reveal_strlit("8");
        reveal_strlit("9");
    }
    let r = if d == 0 {
        "0"
    } else if d == 1 {
        "1"
    } else if d == 2 {
        "2"
    } else if d == 3 {
        "3"
    } else if d == 4 {
        "4"
    } else if d == 5 {
        "5"
    } else if d == 6 {
        "6"
    } else if d == 7 {
        "7"
    } else if d == 8 {
        "8"
    } else {
        "9"
    };
    assert(r@ =~= seq![digit(d as nat)]);
    r
}

/// `n` written in decimal.
pub fn to_decimal(n: u64) -> (r: String)
    ensures
        r@ == decimal(n as nat),
    decreases n,
{
    if n < 10 {
        String::from_str(digit_text(n))
    } else {
        let mut r = to_decimal(n / 10);
        r.append(digit_text(n % 10));
        assert(r@ =~= decimal((n / 10) as nat).push(digit((n % 10) as nat)));
        r
    }
}

/// Puts a clone of each string of `more` behind those of `items`.
pub fn extend(items: &mut Vec<String>, more: &Vec<String>)
    ensures
        views(final(items)@) == views(old(items)@) + views(more@),
{
    let ghost before = views(items@);
    let mut i: usize = 0;
    while i < more.len()
        invariant
            i <= more.len(),
            views(items@) == before + views(more@).take(i as int),
        decreases more.len() - i,
    {
        let ghost now = views(items@);
        items.push(more[i].clone());
        proof {
            assert(views(items@) =~= now.push(more[i as int]@));
            assert(views(more@).take(i + 1) =~= views(more@).take(i as int).push(
                more[i as int]@,
            ));
        }
        i += 1;
    }
    assert(views(more@).take(more.len() as int) =~= views(more@));
}

/// The words of `words` with `sep` between each two neighbours.
pub fn join(words: &Vec<String>, sep: &str) -> (r: String)
    ensures
        r@ == joined(views(words@), sep@),
{
    let mut r = String::new();
    let mut i: usize = 0;
    while i < words.len()
        invariant
            i <= words.len(),
            r@ == joined(views(words@).take(i as int), sep@),
        decreases words.len() - i,
    {
        proof {
            let next = views(words@).take(i + 1);
            assert(next.drop_last() =~= views(words@).take(i as int));
            assert(next.last() == words[i as int]@);
        }
        if i > 0 {
            r.append(sep);
        }
        r.append(words[i].as_str());
        proof {
            let before = views(words@).take(i as int);
            if i == 0 {
                assert(r@ =~= words[0]@);
            } else {
                assert(r@ =~= joined(before, sep@) + sep@ + words[i as int]@);
            }
        }
        i += 1;
    }
    assert(views(words@).take(words.len() as int) =~= views(words@));
    r
}

} // verus!
