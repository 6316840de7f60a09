use vstd::prelude::*;
use crate::statistics::{StatisticsStream, StreamStatsModel};

verus! {

pub open spec fn stats_models(v: Seq<StatisticsStream>) -> Seq<StreamStatsModel> {
    v.map_values(|s: StatisticsStream| s@)
}

/// Some position of `idx` holds `j`.
pub open spec fn covered(idx: Seq<int>, j: int) -> bool {
    exists|k: int| 0 <= k < idx.len() && #[trigger] idx[k] == j
}

/// `out` is `inp` rearranged by `idx` (position in `out` to position in `inp`),
/// ordered by subscriber count from most to fewest, and streams of equal count
/// keep their order in `inp`.
pub open spec fn arranged_by_count(out: Seq<StreamStatsModel>, inp: Seq<StreamStatsModel>, idx: Seq<int>) -> bool {
    &&& out.len() == inp.len()
    &&& idx.len() == inp.len()
    &&& forall|k: int| 0 <= k < out.len() ==> 0 <= #[trigger] idx[k] < inp.len() && out[k] == inp[idx[k]]
    &&& forall|k: int, l: int| 0 <= k < out.len() && 0 <= l < out.len() && k != l ==> #[trigger] idx[k] != #[trigger] idx[l]
    &&& forall|j: int| 0 <= j < inp.len() ==> #[trigger] covered(idx, j)
    &&& forall|k: int, l: int|
        0 <= k < l < out.len() ==> (#[trigger] out[k]).subscriber_count >= (#[trigger] out[l]).subscriber_count
    &&& forall|k: int, l: int|
        0 <= k < l < out.len() && (#[trigger] out[k]).subscriber_count == (#[trigger] out[l]).subscriber_count ==> idx[k] < idx[l]
}

/// `out` is the stable ordering of `inp` by subscriber count, most first.
pub open spec fn sorted_by_count(out: Seq<StreamStatsModel>, inp: Seq<StreamStatsModel>) -> bool {
    exists|idx: Seq<int>| arranged_by_count(out, inp, idx)
}

/// `r` is what a statistics query reports for the streams `inp`: all of them
/// ordered by subscriber count when `top_n` is given and cut to its first `top_n`,
/// else `inp` as it is.
pub open spec fn top_selection(inp: Seq<StreamStatsModel>, top_n: Option<usize>, r: Seq<StreamStatsModel>) -> bool {
    match top_n {
        None => r == inp,
        Some(n) => exists|out: Seq<StreamStatsModel>|
            sorted_by_count(out, inp) && r == (if n < inp.len() {
                out.take(n as int)
            } else {
                out
            }),
    }
}

/// Orders streams by subscriber count, most first; streams of equal count keep their order.
pub fn sort_by_subscriber_count(data: &Vec<StatisticsStream>) -> (r: Vec<StatisticsStream>)
    ensures
        sorted_by_count(stats_models(r@), stats_models(data@)),
{
    let ghost inp = stats_models(data@);
    let mut out: Vec<StatisticsStream> = Vec::new();
    let ghost mut idx: Seq<int> = Seq::empty();
    let mut i: usize = 0;
    while i < data.len()
        invariant
            0 <= i <= data@.len(),
            inp == stats_models(data@),
            arranged_by_count(stats_models(out@), inp.take(i as int), idx),
        decreases data@.len() - i,
    {
        let x = data[i].clone();
        let ghost pre = inp.take(i as int);
        let ghost o = stats_models(out@);
        let mut pos: usize = 0;
        while pos < out.len() && out[pos].subscriber_count >= x.subscriber_count
            invariant
                0 <= pos <= out@.len(),
                o == stats_models(out@),
                forall|k: int| 0 <= k < pos ==> (#[trigger] o[k]).subscriber_count >= x.subscriber_count,
            decreases out@.len() - pos,
        {
            pos = pos + 1;
        }
        out.insert(pos, x);
        proof {
            let next = inp.take(i as int + 1);
            let n = stats_models(out@);
            let idx2 = idx.insert(pos as int, i as int);
            assert(n =~= o.insert(pos as int, inp[i as int]));
            assert forall|k: int| 0 <= k < n.len() implies 0 <= #[trigger] idx2[k] < next.len() && n[k] == next[idx2[k]] by {
                if k < pos {
                    assert(idx2[k] == idx[k]);
                } else if k > pos {
                    assert(idx2[k] == idx[k - 1]);
                }
            }
            assert forall|k: int, l: int| 0 <= k < n.len() && 0 <= l < n.len() && k != l implies #[trigger] idx2[k] != #[trigger] idx2[l] by {
                if k != pos && l != pos {
                    let k0 = if k < pos { k } else { k - 1 };
                    let l0 = if l < pos { l } else { l - 1 };
                    assert(idx2[k] == idx[k0]);
                    assert(idx2[l] == idx[l0]);
                } else if k == pos {
                    let l0 = if l < pos { l } else { l - 1 };
                    assert(idx2[l] == idx[l0]);
                } else {
                    let k0 = if k < pos { k } else { k - 1 };
                    assert(idx2[k] == idx[k0]);
                }
            }
            assert forall|j: int| 0 <= j < next.len() implies #[trigger] covered(idx2, j) by {
                if j == i {
                    assert(idx2[pos as int] == j);
                } else {
                    assert(pre.len() == i);
                    assert(covered(idx, j));
                    let k0 = choose|k: int| 0 <= k < idx.len() && #[trigger] idx[k] == j;
                    if k0 < pos {
                        assert(idx2[k0] == j);
                    } else {
                        assert(idx2[k0 + 1] == j);
                    }
                }
            }
            assert forall|k: int, l: int| 0 <= k < l < n.len() implies (#[trigger] n[k]).subscriber_count >= (#[trigger] n[l]).subscriber_count by {
                if l < pos {
                } else if l == pos {
                } else if k < pos {
                    assert(n[l] == o[l - 1]);
                    if pos < o.len() {
                        assert(o[pos as int].subscriber_count >= o[l - 1].subscriber_count);
                    }
                } else if k == pos {
                    assert(n[l] == o[l - 1]);
                    assert(o[pos as int].subscriber_count >= o[l - 1].subscriber_count || l - 1 == pos);
                } else {
                    assert(n[k] == o[k - 1]);
                    assert(n[l] == o[l - 1]);
                }
            }
            assert forall|k: int, l: int|
                0 <= k < l < n.len() && (#[trigger] n[k]).subscriber_count == (#[trigger] n[l]).subscriber_count implies idx2[k] < idx2[l] by {
                if l < pos {
                    assert(idx2[k] == idx[k] && idx2[l] == idx[l]);
                } else if l == pos {
                    assert(idx2[k] == idx[k]);
                } else if k < pos {
                    assert(n[l] == o[l - 1]);
                    assert(idx2[k] == idx[k] && idx2[l] == idx[l - 1]);
                } else if k == pos {
                    assert(n[l] == o[l - 1]);
                    assert(o[pos as int].subscriber_count >= o[l - 1].subscriber_count);
                } else {
                    assert(n[k] == o[k - 1]);
                    assert(n[l] == o[l - 1]);
                    assert(idx2[k] == idx[k - 1] && idx2[l] == idx[l - 1]);
                }
            }
            assert(arranged_by_count(n, next, idx2));
            idx = idx2;
        }
        i = i + 1;
    }
    proof {
        assert(inp.take(i as int) =~= inp);
    }
    out
}

/// The streams that a statistics query reports: with `top_n`, the `top_n` streams
/// with the most subscribers, most first; without it, all of them as given.
pub fn select_top(data: Vec<StatisticsStream>, top_n: Option<usize>) -> (r: Vec<StatisticsStream>)
    ensures
        top_selection(stats_models(data@), top_n, stats_models(r@)),
{
    match top_n {
        None => data,
        Some(n) => {
            let mut sorted = sort_by_subscriber_count(&data);
            let ghost out = stats_models(sorted@);
            sorted.truncate(n);
            proof {
                if n < out.len() {
                    assert(stats_models(sorted@) =~= out.take(n as int));
                } else {
                    assert(stats_models(sorted@) =~= out);
                }
            }
            sorted
        },
    }
}

/// Asking for the single busiest stream yields one stream of the input, and no
/// stream of the input has more subscribers.
pub proof fn top_one_is_busiest(inp: Seq<StreamStatsModel>, r: Seq<StreamStatsModel>)
    requires
        inp.len() > 0,
        top_selection(inp, Some(1), r),
    ensures
        r.len() == 1,
        inp.contains(r[0]),
        forall|j: int| 0 <= j < inp.len() ==> (#[trigger] inp[j]).subscriber_count <= r[0].subscriber_count,
{
    let out = choose|out: Seq<StreamStatsModel>| sorted_by_count(out, inp) && r == (if 1 < inp.len() {
        out.take(1)
    } else {
        out
    });
    let idx = choose|idx: Seq<int>| arranged_by_count(out, inp, idx);
    assert(r[0] == out[0]);
    assert(out[0] == inp[idx[0]]);
    assert forall|j: int| 0 <= j < inp.len() implies (#[trigger] inp[j]).subscriber_count <= r[0].subscriber_count by {
        assert(covered(idx, j));
        let k = choose|k: int| 0 <= k < idx.len() && #[trigger] idx[k] == j;
        assert(out[k] == inp[j]);
        if k > 0 {
            assert(out[0].subscriber_count >= out[k].subscriber_count);
        }
    }
}

} // verus!
