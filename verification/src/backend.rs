//! How a tool is chosen among the ones that could do the work.
//!
//! Each kind of tool has a table of candidates in order of preference. A
//! configuration may name one of them as its default, which is then tried
//! first. The first candidate that is installed is the one chosen.

use vstd::prelude::*;
use vstd::string::StringExecFns;
use crate::error::{BackendKind, Error};
use crate::host::{is_installed, yes_at};
use crate::text::{
    find_first, first_index, is_first_at, lemma_first_index, lemma_first_index_none, option_view,
    views,
};

verus! {

/// The tools of each kind, in order of preference.
pub open spec fn candidates(kind: BackendKind) -> Seq<Seq<char>> {
    match kind {
        BackendKind::Compiler => seq!["gcc"@, "clang"@, "cosmocc"@],
        BackendKind::Formatter => seq!["clang-format"@, "uncrustify"@],
        BackendKind::Docgen => seq!["doxygen"@, "cldoc"@],
    }
}

/// `table` with the entry at `i` moved to the front and the others left in
/// their order.
pub open spec fn move_to_front(table: Seq<Seq<char>>, i: int) -> Seq<Seq<char>> {
    seq![table[i]] + table.subrange(0, i) + table.subrange(i + 1, table.len() as int)
}

/// The order in which the candidates of `table` are tried: as they stand
/// where there is no default, with the default first where it is one of
/// them, and none at all where it is not.
pub open spec fn probe_order(table: Seq<Seq<char>>, default: Option<Seq<char>>) -> Option<
    Seq<Seq<char>>,
> {
    match default {
        None => Some(table),
        Some(d) => match first_index(table, d) {
            Some(i) => Some(move_to_front(table, i)),
            None => None,
        },
    }
}

/// `i` is the first place of `order` whose candidate is installed, as
/// `available` says.
pub open spec fn is_first_available(order: Seq<Seq<char>>, available: Seq<bool>, i: int) -> bool {
    &&& 0 <= i < order.len()
    &&& yes_at(available, i)
    &&& forall|j: int| 0 <= j < i ==> !yes_at(available, j)
}

/// What the choice among `order` comes to when the candidate at each place
/// is installed or not as `available` says: the first one that is, and a
/// failure where none is.
pub open spec fn chosen(
    kind: BackendKind,
    order: Seq<Seq<char>>,
    available: Seq<bool>,
    r: Result<Seq<char>, Error>,
) -> bool {
    match r {
        Ok(name) => exists|i: int| is_first_available(order, available, i) && order[i] == name,
        Err(e) => e == (Error::NoBackendAvailable { kind }) && forall|i: int|
            0 <= i < order.len() ==> !yes_at(available, i),
    }
}

/// With the table `[a, b, c]` and the default `b` the order of trial is
/// `[b, a, c]`, and without a default it is `[a, b, c]`.
pub proof fn lemma_default_is_tried_first(a: Seq<char>, b: Seq<char>, c: Seq<char>)
    requires
        a != b,
    ensures
        probe_order(seq![a, b, c], Some(b)) == Some(seq![b, a, c]),
        probe_order(seq![a, b, c], None) == Some(seq![a, b, c]),
{
    let table = seq![a, b, c];
    assert(is_first_at(table, b, 1)) by {
        assert(table[0] == a);
        assert(table[1] == b);
    }
    lemma_first_index(table, b, 1);
    assert(move_to_front(table, 1) =~= seq![b, a, c]);
}

/// Whatever the default, the order of trial holds the candidates of the
/// table and no others, each as often as the table does.
pub proof fn lemma_order_keeps_candidates(table: Seq<Seq<char>>, default: Option<Seq<char>>)
    requires
        probe_order(table, default) is Some,
    ensures
        probe_order(table, default)->0.to_multiset() == table.to_multiset(),
        default matches Some(d) ==> probe_order(table, default)->0[0] == d,
{
    broadcast use vstd::seq_lib::group_to_multiset_ensures;

    match default {
        None => {},
        Some(d) => {
            lemma_first_index_none(table, d);
            let i = first_index(table, d)->0;
            let head = table.subrange(0, i);
            let tail = table.subrange(i + 1, table.len() as int);
            let one = seq![table[i]];
            assert(table =~= head + one + tail);
            vstd::seq_lib::lemma_multiset_commutative(head, one);
            vstd::seq_lib::lemma_multiset_commutative(head + one, tail);
            vstd::seq_lib::lemma_multiset_commutative(one, head);
            vstd::seq_lib::lemma_multiset_commutative(one + head, tail);
            assert((one + head).to_multiset() =~= (head + one).to_multiset());
            assert((one + head + tail).to_multiset() =~= (head + one + tail).to_multiset());
        },
    }
}

/// The tool that is chosen is one of the candidates of the table,
/// whatever the machine answers.
pub proof fn lemma_selected_is_candidate(
    kind: BackendKind,
    table: Seq<Seq<char>>,
    default: Option<Seq<char>>,
    available: Seq<bool>,
    name: Seq<char>,
)
    requires
        selected(kind, table, default, available, Ok(name)),
    ensures
        table.contains(name),
{
    let order = probe_order(table, default)->0;
    let i = choose|i: int| is_first_available(order, available, i) && order[i] == name;
    match default {
        None => {
            assert(table[i] == name);
        },
        Some(d) => {
            lemma_first_index_none(table, d);
            let at = first_index(table, d)->0;
            if i == 0 {
                assert(table[at] == name);
            } else if i <= at {
                assert(table[i - 1] == name);
            } else {
                assert(table[i] == name);
            }
        },
    }
}

/// The table of the candidates of `kind`.
pub fn candidate_table(kind: BackendKind) -> (r: Vec<String>)
    ensures
        views(r@) == candidates(kind),
{
    let mut r: Vec<String> = Vec::new();
    match kind {
        BackendKind::Compiler => {
            r.push(String::from_str("gcc"));
            r.push(String::from_str("clang"));
            r.push(String::from_str("cosmocc"));
        },
        BackendKind::Formatter => {
            r.push(String::from_str("clang-format"));
            r.push(String::from_str("uncrustify"));
        },
        BackendKind::Docgen => {
            r.push(String::from_str("doxygen"));
            r.push(String::from_str("cldoc"));
        },
    }
    assert(views(r@) =~= candidates(kind));
    r
}

/// The order in which to try the candidates of `table`. A default that is
/// not in the table is refused, whatever is installed.
pub fn order_of_trial(kind: BackendKind, table: &Vec<String>, default: Option<&String>) -> (r:
    Result<Vec<String>, Error>)
    ensures
        match default {
            None => r matches Ok(order) && views(order@) == views(table@),
            Some(d) => match first_index(views(table@), d@) {
                Some(i) => r matches Ok(order) && views(order@) == move_to_front(
                    views(table@),
                    i,
                ),
                None => r matches Err(Error::UnrecognizedDefault { kind: k, name }) && k == kind
                    && name@ == d@,
            },
        },
{
    let mut order: Vec<String> = Vec::new();
    let first: usize = match default {
        None => table.len(),
        Some(d) => match find_first(table, d.as_str()) {
            Some(i) => {
                order.push(table[i].clone());
                i
            },
            None => {
                return Err(Error::UnrecognizedDefault { kind, name: d.clone() });
            },
        },
    };
    let ghost head = views(order@);
    let mut j: usize = 0;
    while j < table.len()
        invariant
            j <= table.len(),
            first <= table.len(),
            views(order@) == head + if j <= first {
                views(table@).subrange(0, j as int)
            } else {
                views(table@).subrange(0, first as int) + views(table@).subrange(
                    first + 1,
                    j as int,
                )
            },
        decreases table.len() - j,
    {
        let ghost before = views(order@);
        if j != first {
            order.push(table[j].clone());
            assert(views(order@) =~= before.push(table[j as int]@));
        }
        proof {
            let t = views(table@);
            if j < first {
                assert(t.subrange(0, j + 1) =~= t.subrange(0, j as int).push(t[j as int]));
            } else if j == first {
                assert(t.subrange(first + 1, j + 1) =~= Seq::<Seq<char>>::empty());
            } else {
                assert(t.subrange(first + 1, j + 1) =~= t.subrange(first + 1, j as int).push(
                    t[j as int],
                ));
            }
        }
        j += 1;
    }
    proof {
        let t = views(table@);
        if first == table.len() {
            assert(head =~= Seq::<Seq<char>>::empty());
            assert(t.subrange(0, t.len() as int) =~= t);
            assert(views(order@) =~= t);
        } else {
            assert(head =~= seq![t[first as int]]);
        }
    }
    Ok(order)
}

/// The first candidate of `order` that is installed, where `available`
/// says of each place whether its candidate is. A candidate that it says
/// nothing of counts as not installed.
pub fn first_available(kind: BackendKind, order: &Vec<String>, available: &Vec<bool>) -> (r:
    Result<String, Error>)
    ensures
        chosen(kind, views(order@), available@, named(r)),
{
    let mut i: usize = 0;
    while i < order.len()
        invariant
            i <= order.len(),
            forall|j: int| 0 <= j < i ==> !yes_at(available@, j),
        decreases order.len() - i,
    {
        if i < available.len() && available[i] {
            assert(is_first_available(views(order@), available@, i as int));
            assert(views(order@)[i as int] == order[i as int]@);
            return Ok(order[i].clone());
        }
        i += 1;
    }
    Err(Error::NoBackendAvailable { kind })
}

/// `r` is what choosing among `table` with `default` comes to where the
/// machine answers as `available` says of each place of the order of
/// trial: a refusal where the default is unknown, whatever is installed,
/// and else the first candidate of the order that is installed.
pub open spec fn selected(
    kind: BackendKind,
    table: Seq<Seq<char>>,
    default: Option<Seq<char>>,
    available: Seq<bool>,
    r: Result<Seq<char>, Error>,
) -> bool {
    match probe_order(table, default) {
        None => r matches Err(Error::UnrecognizedDefault { kind: k, name }) && k == kind && Some(
            name@,
        ) == default,
        Some(order) => chosen(kind, order, available, r),
    }
}

/// `r` is what choosing among `table` with `default` comes to for some
/// answers of the machine.
pub open spec fn located(
    kind: BackendKind,
    table: Seq<Seq<char>>,
    default: Option<Seq<char>>,
    r: Result<Seq<char>, Error>,
) -> bool {
    exists|available: Seq<bool>| #[trigger] selected(kind, table, default, available, r)
}

/// Chooses a tool of `kind` among the candidates of `table`, where
/// `available` says of each place of the order of trial whether its
/// candidate is installed: the default first, where there is one, then the
/// others in their order, and of these the first that is installed. A
/// default that is not in the table is refused, whatever is installed.
pub fn select(
    kind: BackendKind,
    table: &Vec<String>,
    default: Option<&String>,
    available: &Vec<bool>,
) -> (r: Result<String, Error>)
    ensures
        selected(kind, views(table@), option_view(default), available@, named(r)),
{
    match order_of_trial(kind, table, default) {
        Ok(order) => first_available(kind, &order, available),
        Err(e) => Err(e),
    }
}

/// `answers` are what the machine says of the first of `n` candidates when
/// they are asked for one after the other up to the first that is
/// installed: every answer but the last is a no, and the asking stops
/// short of the last candidate only behind a yes.
pub open spec fn asked_in_turn(n: nat, answers: Seq<bool>) -> bool {
    &&& answers.len() <= n
    &&& forall|j: int| 0 <= j < answers.len() - 1 ==> !answers[j]
    &&& answers.len() < n ==> answers.len() > 0 && answers[answers.len() - 1]
}

/// What the machine answers for the candidates of `order`, asked one after
/// the other up to the first that is installed. What stands behind that
/// one is not asked for.
fn ask(order: &Vec<String>) -> (answers: Vec<bool>)
    ensures
        asked_in_turn(order@.len(), answers@),
{
    let mut answers: Vec<bool> = Vec::new();
    let mut found = false;
    while answers.len() < order.len() && !found
        invariant
            answers.len() <= order.len(),
            found == (answers.len() > 0 && answers[answers.len() - 1]),
            forall|j: int| 0 <= j < answers.len() - 1 ==> !answers[j],
        decreases order.len() - answers.len() + if found { 0int } else { 1int },
    {
        found = is_installed(order[answers.len()].as_str());
        answers.push(found);
    }
    answers
}

/// Asks the machine which candidates of `table` are installed, in the
/// order of trial and up to the first that is: all are asked for where
/// none is installed, and none behind the first that is. A default that is
/// not in the table is refused before anything is looked for.
pub fn survey(kind: BackendKind, table: &Vec<String>, default: Option<&String>) -> (r: Result<
    Vec<bool>,
    Error,
>)
    ensures
        match probe_order(views(table@), option_view(default)) {
            None => r matches Err(Error::UnrecognizedDefault { kind: k, name }) && k == kind
                && Some(name@) == option_view(default),
            Some(order) => r matches Ok(answers) && asked_in_turn(order.len(), answers@),
        },
{
    match order_of_trial(kind, table, default) {
        Ok(order) => {
            let answers = ask(&order);
            assert(views(order@).len() == order@.len());
            Ok(answers)
        },
        Err(e) => Err(e),
    }
}

/// Chooses a tool of `kind` among the candidates of `table` as the machine
/// stands: `select` on what the machine answers.
pub fn locate(kind: BackendKind, table: &Vec<String>, default: Option<&String>) -> (r: Result<
    String,
    Error,
>)
    ensures
        located(kind, views(table@), option_view(default), named(r)),
{
    match survey(kind, table, default) {
        Ok(answers) => {
            let r = select(kind, table, default, &answers);
            assert(selected(kind, views(table@), option_view(default), answers@, named(r)));
            r
        },
        Err(e) => {
            assert(selected(
                kind,
                views(table@),
                option_view(default),
                Seq::<bool>::empty(),
                named(Err(e)),
            ));
            Err(e)
        },
    }
}

/// A result with the view of the string that it holds.
pub open spec fn named(r: Result<String, Error>) -> Result<Seq<char>, Error> {
    match r {
        Ok(name) => Ok(name@),
        Err(e) => Err(e),
    }
}

} // verus!
