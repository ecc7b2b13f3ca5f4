//! Facts about sequences that the registry and the ledger share.

use vstd::prelude::*;

verus! {

/// Whether `i` is the first position of `s` whose item satisfies `p`.
pub open spec fn es_primero<T>(s: Seq<T>, p: spec_fn(T) -> bool, i: int) -> bool {
    &&& 0 <= i < s.len()
    &&& p(s[i])
    &&& forall|k: int| 0 <= k < i ==> !p(#[trigger] s[k])
}

/// Whether some item of `s` satisfies `p`.
pub open spec fn alguno<T>(s: Seq<T>, p: spec_fn(T) -> bool) -> bool {
    exists|i: int| 0 <= i < s.len() && p(#[trigger] s[i])
}

/// The first position of `s` whose item satisfies `p`, if there is one.
pub open spec fn primero<T>(s: Seq<T>, p: spec_fn(T) -> bool) -> Option<int> {
    if alguno(s, p) {
        Some(choose|i: int| es_primero(s, p, i))
    } else {
        None
    }
}

/// A position that is the first to satisfy `p` is the one that `primero` names.
pub proof fn lema_primero<T>(s: Seq<T>, p: spec_fn(T) -> bool, i: int)
    requires
        es_primero(s, p, i),
    ensures
        primero(s, p) == Some(i),
{
    assert(p(s[i]));
    let j = choose|j: int| es_primero(s, p, j);
    assert(es_primero(s, p, j));
    if j < i {
        assert(!p(s[j]));
    }
    if i < j {
        assert(!p(s[i]));
    }
}

/// Where no item satisfies `p`, `primero` names no position.
pub proof fn lema_sin_primero<T>(s: Seq<T>, p: spec_fn(T) -> bool)
    requires
        forall|k: int| 0 <= k < s.len() ==> !p(#[trigger] s[k]),
    ensures
        primero(s, p) is None,
        !alguno(s, p),
{
}

/// What `primero` names is a position of `s`, the first to satisfy `p`.
pub proof fn lema_primero_es_primero<T>(s: Seq<T>, p: spec_fn(T) -> bool)
    ensures
        primero(s, p) matches Some(i) ==> es_primero(s, p, i),
        primero(s, p) is Some <==> alguno(s, p),
{
    if alguno(s, p) {
        let w = choose|i: int| 0 <= i < s.len() && p(#[trigger] s[i]);
        lema_existe_primero(s, p, w);
    }
}

/// Below any position that satisfies `p` there is a first one.
pub proof fn lema_existe_primero<T>(s: Seq<T>, p: spec_fn(T) -> bool, w: int)
    requires
        0 <= w < s.len(),
        p(s[w]),
    ensures
        exists|i: int| es_primero(s, p, i),
    decreases w,
{
    if exists|k: int| 0 <= k < w && p(#[trigger] s[k]) {
        let k = choose|k: int| 0 <= k < w && p(#[trigger] s[k]);
        lema_existe_primero(s, p, k);
    } else {
        assert(es_primero(s, p, w));
    }
}

/// Filtering one item more: the filter of the first `i + 1` items is that of the first
/// `i`, followed by item `i` where it satisfies `p`.
pub proof fn lema_filtro_paso<T>(s: Seq<T>, p: spec_fn(T) -> bool, i: int)
    requires
        0 <= i < s.len(),
    ensures
        s.take(i + 1).filter(p) == if p(s[i]) {
            s.take(i).filter(p).push(s[i])
        } else {
            s.take(i).filter(p)
        },
{
    reveal(Seq::filter);
    assert(s.take(i + 1).drop_last() =~= s.take(i));
}

/// Mapping one item more.
pub proof fn lema_mapa_paso<T, U>(s: Seq<T>, f: spec_fn(T) -> U, i: int)
    requires
        0 <= i < s.len(),
    ensures
        s.take(i + 1).map_values(f) == s.take(i).map_values(f).push(f(s[i])),
{
    assert(s.take(i + 1).map_values(f) =~= s.take(i).map_values(f).push(f(s[i])));
}

} // verus!
