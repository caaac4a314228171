//! Ranking of directory entries against a query: matches first, never a filter.

use vstd::prelude::*;
use crate::item::Item;
use crate::text::{
    contains, find, find_exec, lemma_find_spec, lemma_lex_antisym, lemma_lex_trans, lex_cmp,
    lex_cmp_exec, lower, lower_vec, chars_of,
};

verus! {

/// The name contains the query with case taken into account.
pub open spec fn cased_match(name: Seq<char>, q: Seq<char>) -> bool {
    find(name, q) is Some
}

/// Where the lower-cased query first occurs in the lower-cased name.
pub open spec fn folded_pos(name: Seq<char>, q: Seq<char>) -> Option<nat> {
    find(lower(name), lower(q))
}

/// The ranking comparator: -1 when `a` goes before `b`, 1 when after, 0 on a tie.
pub open spec fn rank_cmp(a: Seq<char>, b: Seq<char>, q: Seq<char>) -> int {
    if cased_match(a, q) && !cased_match(b, q) {
        -1
    } else if !cased_match(a, q) && cased_match(b, q) {
        1
    } else {
        match (folded_pos(a, q), folded_pos(b, q)) {
            (Some(i), None) => -1,
            (None, Some(j)) => 1,
            (Some(i), Some(j)) => if i < j {
                -1
            } else if i > j {
                1
            } else {
                lex_cmp(lower(a), lower(b))
            },
            (None, None) => lex_cmp(lower(a), lower(b)),
        }
    }
}

pub proof fn lemma_rank_antisym(a: Seq<char>, b: Seq<char>, q: Seq<char>)
    ensures
        rank_cmp(a, b, q) == -rank_cmp(b, a, q),
        -1 <= rank_cmp(a, b, q) <= 1,
{
    lemma_lex_antisym(lower(a), lower(b));
}

pub proof fn lemma_rank_trans(a: Seq<char>, b: Seq<char>, c: Seq<char>, q: Seq<char>)
    requires
        rank_cmp(a, b, q) <= 0,
        rank_cmp(b, c, q) <= 0,
    ensures
        rank_cmp(a, c, q) <= 0,
        rank_cmp(a, b, q) < 0 || rank_cmp(b, c, q) < 0 ==> rank_cmp(a, c, q) < 0,
{
    lemma_lex_antisym(lower(a), lower(b));
    lemma_lex_antisym(lower(b), lower(c));
    lemma_lex_antisym(lower(a), lower(c));
    if lex_cmp(lower(a), lower(b)) <= 0 && lex_cmp(lower(b), lower(c)) <= 0 {
        lemma_lex_trans(lower(a), lower(b), lower(c));
    }
    if lex_cmp(lower(c), lower(a)) <= 0 && lex_cmp(lower(a), lower(b)) <= 0 {
        lemma_lex_trans(lower(c), lower(a), lower(b));
    }
    if lex_cmp(lower(b), lower(c)) <= 0 && lex_cmp(lower(c), lower(a)) <= 0 {
        lemma_lex_trans(lower(b), lower(c), lower(a));
    }
}

/// What the comparator needs to know of one name, computed once.
struct RankKey {
    cased: bool,
    folded_at: Option<usize>,
    folded: Vec<char>,
}

spec fn key_of(k: RankKey, name: Seq<char>, q: Seq<char>) -> bool {
    &&& k.cased == cased_match(name, q)
    &&& match k.folded_at {
        Some(i) => folded_pos(name, q) == Some(i as nat),
        None => folded_pos(name, q) is None,
    }
    &&& k.folded@ == lower(name)
}

fn make_key(name: &String, q: &Vec<char>, q_folded: &Vec<char>) -> (r: RankKey)
    requires
        q_folded@ == lower(q@),
    ensures
        key_of(r, name@, q@),
{
    let n = chars_of(name.as_str());
    let folded = lower_vec(&n);
    let cased = find_exec(&n, q).is_some();
    let folded_at = find_exec(&folded, q_folded);
    RankKey { cased, folded_at, folded }
}

fn key_cmp(a: &RankKey, b: &RankKey, Ghost(na): Ghost<Seq<char>>, Ghost(nb): Ghost<Seq<char>>, Ghost(q): Ghost<Seq<char>>) -> (r: i8)
    requires
        key_of(*a, na, q),
        key_of(*b, nb, q),
    ensures
        r as int == rank_cmp(na, nb, q),
{
    if a.cased && !b.cased {
        return -1;
    }
    if !a.cased && b.cased {
        return 1;
    }
    match (a.folded_at, b.folded_at) {
        (Some(_), None) => -1,
        (None, Some(_)) => 1,
        (Some(i), Some(j)) => if i < j {
            -1
        } else if i > j {
            1
        } else {
            lex_cmp_exec(&a.folded, &b.folded)
        },
        (None, None) => lex_cmp_exec(&a.folded, &b.folded),
    }
}

/// The name of the entry at index `i` of `items`.
pub open spec fn name_at(items: Seq<Item>, i: int) -> Seq<char> {
    items[i].name@
}

/// `order` lists every index below `n` exactly once.
pub open spec fn is_index_permutation(order: Seq<usize>, n: nat) -> bool {
    &&& order.len() == n
    &&& forall|i: int| 0 <= i < order.len() ==> order[i] < n
    &&& forall|i: int, j: int| 0 <= i < j < order.len() ==> order[i] != order[j]
    &&& forall|v: usize| v < n ==> #[trigger] order.contains(v)
}

/// `order` arranges `items` by the ranking comparator, ties kept in input order.
pub open spec fn is_ranked(items: Seq<Item>, q: Seq<char>, order: Seq<usize>) -> bool {
    &&& forall|i: int, j: int|
        0 <= i < j < order.len() ==> rank_cmp(
            #[trigger] name_at(items, order[i] as int),
            #[trigger] name_at(items, order[j] as int),
            q,
        ) <= 0
    &&& forall|i: int, j: int|
        0 <= i < j < order.len() && rank_cmp(
            name_at(items, order[i] as int),
            name_at(items, order[j] as int),
            q,
        ) == 0 ==> #[trigger] order[i] < #[trigger] order[j]
}


/// Orders `items` for display against `query`: a permutation of the indices,
/// sorted by the ranking comparator, with ties left in input order.
pub fn rank(items: &Vec<Item>, query: &String) -> (order: Vec<usize>)
    ensures
        is_index_permutation(order@, items.len() as nat),
        is_ranked(items@, query@, order@),
{
    let q = chars_of(query.as_str());
    let qf = lower_vec(&q);
    let mut keys: Vec<RankKey> = Vec::new();
    let mut k: usize = 0;
    while k < items.len()
        invariant
            k <= items.len(),
            q@ == query@,
            qf@ == lower(q@),
            keys.len() == k,
            forall|i: int| 0 <= i < k ==> key_of(#[trigger] keys[i], name_at(items@, i), q@),
        decreases items.len() - k,
    {
        keys.push(make_key(&items[k].name, &q, &qf));
        k = k + 1;
    }
    let mut order: Vec<usize> = Vec::new();
    let mut k: usize = 0;
    while k < items.len()
        invariant
            k <= items.len(),
            q@ == query@,
            keys.len() == items.len(),
            forall|i: int| 0 <= i < keys.len() ==> key_of(#[trigger] keys[i], name_at(items@, i), q@),
            order.len() == k,
            forall|i: int| 0 <= i < order.len() ==> order[i] < k,
            forall|i: int, j: int| 0 <= i < j < order.len() ==> order[i] != order[j],
            forall|v: usize| v < k ==> #[trigger] order@.contains(v),
            is_ranked(items@, q@, order@),
        decreases items.len() - k,
    {
        let ghost nk = name_at(items@, k as int);
        let mut p: usize = 0;
        loop
            invariant
                p <= order.len(),
                k < keys.len(),
                nk == name_at(items@, k as int),
                keys.len() == items.len(),
                forall|i: int| 0 <= i < keys.len() ==> key_of(#[trigger] keys[i], name_at(items@, i), q@),
                forall|i: int| 0 <= i < order.len() ==> order[i] < k,
                forall|i: int| 0 <= i < p ==> rank_cmp(nk, name_at(items@, order[i] as int), q@) >= 0,
            ensures
                p <= order.len(),
                forall|i: int| 0 <= i < p ==> rank_cmp(nk, name_at(items@, order[i] as int), q@) >= 0,
                p < order.len() ==> rank_cmp(nk, name_at(items@, order[p as int] as int), q@) < 0,
            decreases order.len() - p,
        {
            if p == order.len() {
                break;
            }
            let c = key_cmp(&keys[k], &keys[order[p]], Ghost(nk), Ghost(name_at(items@, order[p as int] as int)), Ghost(q@));
            if c < 0 {
                break;
            }
            p = p + 1;
        }
        let ghost o = order@;
        order.insert(p, k);
        proof {
            let o2 = order@;
            assert(o2 == o.insert(p as int, k));
            assert forall|i: int, j: int| 0 <= i < j < o2.len() implies rank_cmp(
                #[trigger] name_at(items@, o2[i] as int),
                #[trigger] name_at(items@, o2[j] as int),
                q@,
            ) <= 0 && (rank_cmp(name_at(items@, o2[i] as int), name_at(items@, o2[j] as int), q@) == 0
                ==> o2[i] < o2[j]) by {
                if j < p {
                    assert(o2[i] == o[i] && o2[j] == o[j]);
                } else if j == p {
                    lemma_rank_antisym(nk, name_at(items@, o[i] as int), q@);
                } else if i < p {
                    assert(o2[i] == o[i] && o2[j] == o[j - 1]);
                } else if i == p {
                    let a = name_at(items@, o[p as int] as int);
                    let c = name_at(items@, o[j - 1] as int);
                    if j - 1 > p {
                        lemma_rank_trans(nk, a, c, q@);
                    }
                } else {
                    assert(o2[i] == o[i - 1] && o2[j] == o[j - 1]);
                }
            }
            assert forall|v: usize| v < k + 1 implies #[trigger] o2.contains(v) by {
                if v == k {
                    assert(o2[p as int] == k);
                } else {
                    assert(o.contains(v));
                    let w = choose|w: int| 0 <= w < o.len() && o[w] == v;
                    if w < p {
                        assert(o2[w] == v);
                    } else {
                        assert(o2[w + 1] == v);
                    }
                }
            }
            assert forall|i: int, j: int| 0 <= i < j < o2.len() implies o2[i] != o2[j] by {
                if i == p || j == p {
                } else {
                    let i0 = if i < p { i } else { i - 1 };
                    let j0 = if j < p { j } else { j - 1 };
                    assert(o2[i] == o[i0] && o2[j] == o[j0]);
                }
            }
        }
        k = k + 1;
    }
    order
}


/// A name that holds the query, case taken into account, is ranked before
/// every name that does not, whatever their alphabetical order.
pub proof fn lemma_cased_match_first(items: Seq<Item>, q: Seq<char>, order: Seq<usize>, i: int, j: int)
    requires
        is_index_permutation(order, items.len()),
        is_ranked(items, q, order),
        0 <= i < order.len(),
        0 <= j < order.len(),
        contains(name_at(items, order[i] as int), q),
        !contains(name_at(items, order[j] as int), q),
    ensures
        i < j,
{
    lemma_find_spec(name_at(items, order[i] as int), q);
    lemma_find_spec(name_at(items, order[j] as int), q);
    if j < i {
        assert(rank_cmp(name_at(items, order[j] as int), name_at(items, order[i] as int), q) <= 0);
    }
}

proof fn lemma_empty_query_found(s: Seq<char>)
    ensures
        find(s, Seq::<char>::empty()) == Some(0nat),
{
    assert(s.subrange(0, 0) =~= Seq::<char>::empty());
}

/// With an empty query the ranking is plain case-insensitive alphabetical
/// order, names that compare equal kept in input order.
pub proof fn lemma_empty_query_alphabetical(items: Seq<Item>, order: Seq<usize>, i: int, j: int)
    requires
        is_ranked(items, Seq::<char>::empty(), order),
        0 <= i < j < order.len(),
    ensures
        lex_cmp(lower(name_at(items, order[i] as int)), lower(name_at(items, order[j] as int))) <= 0,
        lower(name_at(items, order[i] as int)) == lower(name_at(items, order[j] as int)) ==> order[i] < order[j],
{
    let a = name_at(items, order[i] as int);
    let b = name_at(items, order[j] as int);
    let e = Seq::<char>::empty();
    lemma_empty_query_found(a);
    lemma_empty_query_found(b);
    assert(lower(e) =~= e);
    lemma_empty_query_found(lower(a));
    lemma_empty_query_found(lower(b));
    lemma_lex_antisym(lower(a), lower(b));
    assert(rank_cmp(a, b, e) <= 0);
}

} // verus!
