//! Tables keyed by session id: a sequence of entries, at most one per session.

use vstd::prelude::*;
use crate::session::SessionId;

verus! {

pub open spec fn entry_ids_unique<S>(s: Seq<(SessionId, S)>) -> bool {
    forall|i: int, j: int| 0 <= i < s.len() && 0 <= j < s.len() && #[trigger] s[i].0 == #[trigger] s[j].0 ==> i == j
}

/// Whether session `id` has an entry in `s`.
pub open spec fn has_entry<S>(s: Seq<(SessionId, S)>, id: SessionId) -> bool {
    exists|i: int| 0 <= i < s.len() && #[trigger] s[i].0 == id
}

/// `s` with the entry of session `id` taken out.
pub open spec fn without_entry<S>(s: Seq<(SessionId, S)>, id: SessionId) -> Seq<(SessionId, S)> {
    s.filter(not_of::<S>(id))
}

pub open spec fn not_of<S>(id: SessionId) -> spec_fn((SessionId, S)) -> bool {
    |e: (SessionId, S)| e.0 != id
}

/// `s` with `value` as the entry of session `id`, in place of any earlier one.
pub open spec fn with_entry<S>(s: Seq<(SessionId, S)>, id: SessionId, value: S) -> Seq<(SessionId, S)> {
    without_entry(s, id).push((id, value))
}

pub fn remove_entry<S>(v: &mut Vec<(SessionId, S)>, id: SessionId) -> (r: bool)
    requires
        entry_ids_unique(old(v)@),
    ensures
        r == has_entry(old(v)@, id),
        final(v)@ == without_entry(old(v)@, id),
        entry_ids_unique(final(v)@),
{
    let ghost o = v@;
    let ghost pred = not_of::<S>(id);
    let mut i: usize = 0;
    while i < v.len()
        invariant
            v@ == o,
            o == old(v)@,
            entry_ids_unique(o),
            0 <= i <= o.len(),
            pred == not_of::<S>(id),
            forall|k: int| 0 <= k < i ==> (#[trigger] o[k]).0 != id,
            o.take(i as int).filter(pred) == o.take(i as int),
        decreases o.len() - i,
    {
        if v[i].0 == id {
            v.remove(i);
            proof {
                reveal(Seq::filter);
                assert(o.take(i as int + 1).drop_last() =~= o.take(i as int));
                assert(o.take(i as int + 1).last() == o[i as int]);
                assert(!pred(o[i as int]));
                assert(o.take(i as int + 1).filter(pred) == o.take(i as int));
                let rest = o.subrange(i as int + 1, o.len() as int);
                assert forall|k: int| 0 <= k < rest.len() implies pred(#[trigger] rest[k]) by {
                    let j: int = i as int + 1 + k;
                    assert(rest[k] == o[j]);
                    assert(o[j].0 != o[i as int].0);
                }
                lemma_filter_all(rest, pred);
                assert(o =~= o.take(i as int + 1) + rest);
                Seq::filter_distributes_over_add(o.take(i as int + 1), rest, pred);
                assert(v@ =~= o.take(i as int) + rest);
                assert(o.filter(pred) == o.take(i as int + 1).filter(pred) + rest.filter(pred));
                assert(has_entry(o, id)) by {
                    assert(o[i as int].0 == id);
                }
                assert forall|a: int, b: int| 0 <= a < v@.len() && 0 <= b < v@.len() && #[trigger] v@[a].0 == #[trigger] v@[b].0 implies a == b by {
                    let a2 = if a < i { a } else { a + 1 };
                    let b2 = if b < i { b } else { b + 1 };
                    assert(v@[a] == o[a2]);
                    assert(v@[b] == o[b2]);
                }
            }
            return true;
        }
        proof {
            reveal(Seq::filter);
            assert(o.take(i as int + 1).drop_last() =~= o.take(i as int));
        }
        i = i + 1;
    }
    proof {
        assert(o.take(i as int) =~= o);
    }
    false
}

proof fn lemma_filter_all<A>(s: Seq<A>, pred: spec_fn(A) -> bool)
    requires
        forall|k: int| 0 <= k < s.len() ==> pred(#[trigger] s[k]),
    ensures
        s.filter(pred) == s,
    decreases s.len(),
{
    reveal(Seq::filter);
    if s.len() > 0 {
        lemma_filter_all(s.drop_last(), pred);
        assert(s.drop_last().push(s.last()) =~= s);
    }
}


pub fn put_entry<S>(v: &mut Vec<(SessionId, S)>, id: SessionId, value: S)
    requires
        entry_ids_unique(old(v)@),
    ensures
        final(v)@ == with_entry(old(v)@, id, value),
        entry_ids_unique(final(v)@),
{
    remove_entry(v, id);
    let ghost before = v@;
    v.push((id, value));
    proof {
        lemma_without_entry_lacks(old(v)@, id);
        assert forall|a: int, b: int| 0 <= a < v@.len() && 0 <= b < v@.len() && #[trigger] v@[a].0 == #[trigger] v@[b].0 implies a == b by {
            if a < before.len() && b < before.len() {
                assert(v@[a] == before[a] && v@[b] == before[b]);
            } else if a < before.len() {
                assert(v@[a] == before[a]);
                assert(before.contains(before[a]));
            } else if b < before.len() {
                assert(v@[b] == before[b]);
                assert(before.contains(before[b]));
            }
        }
    }
}

/// After its entry is taken out, session `id` has none.
pub proof fn lemma_without_entry_lacks<S>(s: Seq<(SessionId, S)>, id: SessionId)
    ensures
        forall|e: (SessionId, S)| #[trigger] without_entry(s, id).contains(e) ==> e.0 != id,
        forall|e: (SessionId, S)| e.0 != id ==> (#[trigger] without_entry(s, id).contains(e) <==> s.contains(e)),
{
    let pred = not_of::<S>(id);
    assert forall|e: (SessionId, S)| #[trigger] without_entry(s, id).contains(e) implies e.0 != id && s.contains(e) by {
        let w = without_entry(s, id);
        let i = choose|i: int| 0 <= i < w.len() && w[i] == e;
        s.lemma_filter_pred(pred, i);
        s.lemma_filter_contains_rev(pred, e);
    }
    assert forall|e: (SessionId, S)| e.0 != id && s.contains(e) implies #[trigger] without_entry(s, id).contains(e) by {
        let i = choose|i: int| 0 <= i < s.len() && s[i] == e;
        s.lemma_filter_contains(pred, i);
    }
}


/// `s` with each entry's value mapped by `f`.
pub open spec fn map_entries<S, U>(s: Seq<(SessionId, S)>, f: spec_fn(S) -> U) -> Seq<(SessionId, U)> {
    s.map_values(|e: (SessionId, S)| (e.0, f(e.1)))
}

pub proof fn lemma_map_without_entry<S, U>(s: Seq<(SessionId, S)>, id: SessionId, f: spec_fn(S) -> U)
    ensures
        map_entries(without_entry(s, id), f) == without_entry(map_entries(s, f), id),
    decreases s.len(),
{
    reveal(Seq::filter);
    if s.len() == 0 {
        assert(map_entries(without_entry(s, id), f) =~= without_entry(map_entries(s, f), id));
    } else {
        lemma_map_without_entry(s.drop_last(), id, f);
        assert(map_entries(s, f).drop_last() =~= map_entries(s.drop_last(), f));
        let sub = s.drop_last().filter(not_of::<S>(id));
        if not_of::<S>(id)(s.last()) {
            assert(map_entries(sub.push(s.last()), f) =~= map_entries(sub, f).push((s.last().0, f(s.last().1))));
        }
    }
}

pub proof fn lemma_map_with_entry<S, U>(s: Seq<(SessionId, S)>, id: SessionId, v: S, f: spec_fn(S) -> U)
    ensures
        map_entries(with_entry(s, id, v), f) == with_entry(map_entries(s, f), id, f(v)),
{
    lemma_map_without_entry(s, id, f);
    assert(map_entries(without_entry(s, id).push((id, v)), f) =~= map_entries(without_entry(s, id), f).push((id, f(v))));
}

pub proof fn lemma_map_unique<S, U>(s: Seq<(SessionId, S)>, f: spec_fn(S) -> U)
    ensures
        entry_ids_unique(map_entries(s, f)) == entry_ids_unique(s),
        forall|id: SessionId| #[trigger] has_entry(map_entries(s, f), id) == has_entry(s, id),
{
    let m = map_entries(s, f);
    assert forall|i: int| 0 <= i < s.len() implies (#[trigger] m[i]).0 == s[i].0 by {}
    assert forall|id: SessionId| #[trigger] has_entry(m, id) == has_entry(s, id) by {
        if has_entry(s, id) {
            let i = choose|i: int| 0 <= i < s.len() && #[trigger] s[i].0 == id;
            assert(m[i].0 == id);
        }
        if has_entry(m, id) {
            let i = choose|i: int| 0 <= i < m.len() && #[trigger] m[i].0 == id;
            assert(s[i].0 == id);
        }
    }
    if entry_ids_unique(s) {
        assert forall|a: int, b: int| 0 <= a < m.len() && 0 <= b < m.len() && #[trigger] m[a].0 == #[trigger] m[b].0 implies a == b by {
            assert(s[a].0 == m[a].0 && s[b].0 == m[b].0);
        }
    }
    if entry_ids_unique(m) {
        assert forall|a: int, b: int| 0 <= a < s.len() && 0 <= b < s.len() && #[trigger] s[a].0 == #[trigger] s[b].0 implies a == b by {
            assert(s[a].0 == m[a].0 && s[b].0 == m[b].0);
        }
    }
}

/// What a filter keeps was in the sequence and passes the filter.
pub proof fn lemma_filter_subset<A>(s: Seq<A>, p: spec_fn(A) -> bool, e: A)
    requires
        s.filter(p).contains(e),
    ensures
        s.contains(e),
        p(e),
{
    s.lemma_filter_contains_rev(p, e);
    let f = s.filter(p);
    let i = choose|i: int| 0 <= i < f.len() && f[i] == e;
    s.lemma_filter_pred(p, i);
}

/// Filtering keeps session ids unique.
pub proof fn lemma_filter_unique<S>(s: Seq<(SessionId, S)>, p: spec_fn((SessionId, S)) -> bool)
    requires
        entry_ids_unique(s),
    ensures
        entry_ids_unique(s.filter(p)),
    decreases s.len(),
{
    reveal(Seq::filter);
    if s.len() > 0 {
        let d = s.drop_last();
        assert forall|a: int, b: int| 0 <= a < d.len() && 0 <= b < d.len() && #[trigger] d[a].0 == #[trigger] d[b].0 implies a == b by {
            assert(d[a] == s[a] && d[b] == s[b]);
        }
        lemma_filter_unique(d, p);
        let f = d.filter(p);
        if p(s.last()) {
            let n = f.push(s.last());
            assert forall|a: int, b: int| 0 <= a < n.len() && 0 <= b < n.len() && #[trigger] n[a].0 == #[trigger] n[b].0 implies a == b by {
                if a < f.len() && b == f.len() {
                    assert(f.contains(f[a]));
                    lemma_filter_subset(d, p, f[a]);
                    let j = choose|j: int| 0 <= j < d.len() && d[j] == f[a];
                    assert(s[j].0 == s[s.len() - 1].0);
                }
                if b < f.len() && a == f.len() {
                    assert(f.contains(f[b]));
                    lemma_filter_subset(d, p, f[b]);
                    let j = choose|j: int| 0 <= j < d.len() && d[j] == f[b];
                    assert(s[j].0 == s[s.len() - 1].0);
                }
                if a < f.len() && b < f.len() {
                    assert(n[a] == f[a] && n[b] == f[b]);
                }
            }
        }
    }
}

} // verus!
