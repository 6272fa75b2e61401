//! The median filter: sort one burst's samples ascending and take the
//! element at index `len / 2` — for even lengths the lower of the two middle
//! elements, never an average. `median_spec` pins that value down as a
//! function of the sample sequence alone, and `lemma_median_deterministic`
//! shows any sorted rearrangement whatsoever yields the same median.

use vstd::prelude::*;
use vstd::relations::antisymmetric;
use vstd::relations::reflexive;
use vstd::relations::sorted_by;
use vstd::relations::strongly_connected;
use vstd::relations::total_ordering;
use vstd::relations::transitive;
use vstd::seq_lib::group_to_multiset_ensures;
use vstd::seq_lib::lemma_sorted_unique;

verus! {

/// The ascending order the median filter sorts by.
pub open spec fn sample_leq() -> spec_fn(i16, i16) -> bool {
    |a: i16, b: i16| a <= b
}

/// Ascending order on 16-bit samples is a total order.
pub proof fn lemma_sample_leq_total_ordering()
    ensures
        total_ordering(sample_leq()),
{
    assert(reflexive(sample_leq()));
    assert(antisymmetric(sample_leq()));
    assert(transitive(sample_leq()));
    assert(strongly_connected(sample_leq()));
}

/// The burst's samples, sorted ascending.
pub open spec fn sorted_of(s: Seq<i16>) -> Seq<i16> {
    s.sort_by(sample_leq())
}

/// The median of a burst: the lower-middle element of the sorted samples.
pub open spec fn median_spec(s: Seq<i16>) -> i16
    recommends
        s.len() >= 1,
{
    sorted_of(s)[s.len() as int / 2]
}

/// What sorting promises: same length, same samples (as a multiset), and
/// ascending order.
pub proof fn lemma_sorted_of_ensures(s: Seq<i16>)
    ensures
        sorted_of(s).len() == s.len(),
        sorted_by(sorted_of(s), sample_leq()),
        sorted_of(s).to_multiset() == s.to_multiset(),
{
    broadcast use group_to_multiset_ensures;

    lemma_sample_leq_total_ordering();
    s.lemma_sort_by_ensures(sample_leq());
    assert(sorted_of(s).len() == sorted_of(s).to_multiset().len());
    assert(s.len() == s.to_multiset().len());
}

/// There is only one way to sort a burst: any ascending rearrangement of the
/// samples is `sorted_of` exactly.
pub proof fn lemma_sorted_rearrangement_unique(s: Seq<i16>, t: Seq<i16>)
    requires
        sorted_by(t, sample_leq()),
        t.to_multiset() == s.to_multiset(),
    ensures
        t == sorted_of(s),
{
    lemma_sample_leq_total_ordering();
    lemma_sorted_of_ensures(s);
    lemma_sorted_unique(t, sorted_of(s), sample_leq());
}

/// Median selection is deterministic: however the samples were rearranged
/// into ascending order, the lower-middle element is `median_spec`.
pub proof fn lemma_median_deterministic(s: Seq<i16>, t: Seq<i16>)
    requires
        s.len() >= 1,
        sorted_by(t, sample_leq()),
        t.to_multiset() == s.to_multiset(),
    ensures
        t.len() == s.len(),
        t[s.len() as int / 2] == median_spec(s),
{
    broadcast use group_to_multiset_ensures;

    lemma_sorted_rearrangement_unique(s, t);
    lemma_sorted_of_ensures(s);
}

/// Sort the burst's samples ascending, by insertion into an output buffer.
#[verifier::rlimit(60)]
pub fn sort_samples(v: &mut Vec<i16>)
    ensures
        final(v)@ == sorted_of(old(v)@),
{
    let ghost orig: Seq<i16> = v@;
    let mut out: Vec<i16> = Vec::new();
    let mut i: usize = 0;
    proof {
        assert(orig.subrange(0, 0) =~= Seq::<i16>::empty());
    }
    while i < v.len()
        invariant
            i <= orig.len(),
            v@ == orig,
            sorted_by(out@, sample_leq()),
            out@.to_multiset() == orig.subrange(0, i as int).to_multiset(),
        decreases orig.len() - i,
    {
        let x: i16 = v[i];
        let mut j: usize = 0;
        while j < out.len() && out[j] <= x
            invariant
                j <= out@.len(),
                forall|k: int| 0 <= k < j ==> out@[k] <= x,
            decreases out@.len() - j,
        {
            j += 1;
        }
        let ghost before: Seq<i16> = out@;
        out.insert(j, x);
        proof {
            assert(out@ == before.insert(j as int, x));
            before.insert_ensures(j as int, x);
            assert forall|p: int, q: int| 0 <= p < q < out@.len() implies sample_leq()(
                out@[p],
                out@[q],
            ) by {
                if q < j {
                    assert(out@[p] == before[p] && out@[q] == before[q]);
                } else if q == j {
                    assert(out@[q] == x && out@[p] == before[p]);
                } else {
                    assert(out@[q] == before[q - 1]);
                    assert(before[j as int] > x || j == before.len());
                    if p < j {
                        assert(out@[p] == before[p]);
                    } else if p == j {
                        assert(out@[p] == x);
                        assert(x < before[j as int]);
                        if q - 1 > j {
                            assert(sample_leq()(before[j as int], before[q - 1]));
                        }
                    } else {
                        assert(out@[p] == before[p - 1]);
                    }
                }
            }
            assert(out@.to_multiset() == before.insert(j as int, x).to_multiset());
            vstd::seq_lib::to_multiset_insert(before, j as int, x);
            assert(out@.to_multiset() == before.to_multiset().insert(x));
            assert(orig.subrange(0, i as int + 1) =~= orig.subrange(0, i as int).push(
                orig[i as int],
            ));
            vstd::seq_lib::to_multiset_build(orig.subrange(0, i as int), orig[i as int]);
            assert(orig.subrange(0, i as int).push(orig[i as int]).to_multiset() =~= orig.subrange(
                0,
                i as int,
            ).to_multiset().insert(orig[i as int]));
        }
        i += 1;
    }
    proof {
        assert(orig.subrange(0, orig.len() as int) =~= orig);
        lemma_sorted_rearrangement_unique(orig, out@);
    }
    *v = out;
}

/// Sort a completed burst and select the median reading.
pub fn median_of(mut samples: Vec<i16>) -> (m: i16)
    requires
        samples@.len() >= 1,
    ensures
        m == median_spec(samples@),
{
    let ghost orig: Seq<i16> = samples@;
    sort_samples(&mut samples);
    proof {
        lemma_sorted_of_ensures(orig);
    }
    let mid: usize = samples.len() / 2;
    samples[mid]
}

} // verus!
