//! Sorting records by name, in the code-point order of their names.

use vstd::prelude::*;
use crate::text::{lemma_seq_lt_asymmetric, lemma_seq_lt_irreflexive, lemma_seq_lt_transitive, seq_lt, str_lt};

verus! {

/// A record with a name.
pub trait Named {
    /// The record's name.
    spec fn name_view(&self) -> Seq<char>;

    /// The record's name.
    fn name_str(&self) -> (r: &str)
        ensures
            r@ == self.name_view();
}

/// No record comes after a later one by name.
pub open spec fn sorted_by_name<T: Named>(s: Seq<T>) -> bool {
    forall|i: int, j: int| 0 <= i < j < s.len() ==> !seq_lt(#[trigger] s[j].name_view(), #[trigger] s[i].name_view())
}

/// The first position in `out` whose name comes after `name`.
fn insertion_point<T: Named>(out: &Vec<T>, name: &str) -> (p: usize)
    ensures
        p <= out@.len(),
        forall|j: int| 0 <= j < p ==> !seq_lt(name@, #[trigger] out@[j].name_view()),
        p < out@.len() ==> seq_lt(name@, out@[p as int].name_view()),
{
    let mut k: usize = 0;
    while k < out.len()
        invariant
            k <= out@.len(),
            forall|j: int| 0 <= j < k ==> !seq_lt(name@, #[trigger] out@[j].name_view()),
        decreases out@.len() - k,
    {
        if str_lt(name, out[k].name_str()) {
            return k;
        }
        k = k + 1;
    }
    k
}

/// The records of `v` sorted by name; the same records, moved (so any
/// spec function `f` of them has the same multiset of values).
pub fn sort_by_name<T: Named, R>(v: Vec<T>, Ghost(f): Ghost<spec_fn(T) -> R>) -> (r: Vec<T>)
    ensures
        r@.to_multiset() == v@.to_multiset(),
        r@.map_values(f).to_multiset() == v@.map_values(f).to_multiset(),
        sorted_by_name(r@),
        r@.len() == v@.len(),
{
    broadcast use vstd::seq_lib::group_to_multiset_ensures;
    broadcast use vstd::multiset::group_multiset_axioms;

    let ghost orig = v@;
    let mut rest = v;
    let mut out: Vec<T> = Vec::new();
    while rest.len() > 0
        invariant
            out@.to_multiset().add(rest@.to_multiset()) == orig.to_multiset(),
            out@.map_values(f).to_multiset().add(rest@.map_values(f).to_multiset()) == orig.map_values(f).to_multiset(),
            out@.len() + rest@.len() == orig.len(),
            sorted_by_name(out@),
        decreases rest@.len(),
    {
        let ghost before_rest = rest@;
        let x = rest.pop().unwrap();
        proof {
            assert(before_rest =~= rest@.push(x));
            vstd::seq_lib::to_multiset_build(rest@, x);
            assert(before_rest.map_values(f) =~= rest@.map_values(f).push(f(x)));
            vstd::seq_lib::to_multiset_build(rest@.map_values(f), f(x));
        }
        let p = insertion_point(&out, x.name_str());
        let ghost old_out = out@;
        let ghost xn = x.name_view();
        out.insert(p, x);
        proof {
            assert(out@ == old_out.insert(p as int, x));
            vstd::seq_lib::to_multiset_insert(old_out, p as int, x);
            assert(out@.to_multiset() =~= old_out.to_multiset().insert(x));
            assert(out@.to_multiset().add(rest@.to_multiset()) =~= orig.to_multiset());
            assert(out@.map_values(f) =~= old_out.map_values(f).insert(p as int, f(x)));
            vstd::seq_lib::to_multiset_insert(old_out.map_values(f), p as int, f(x));
            assert(out@.map_values(f).to_multiset().add(rest@.map_values(f).to_multiset()) =~= orig.map_values(f).to_multiset());
            assert forall|i: int, j: int| 0 <= i < j < out@.len() implies !seq_lt(#[trigger] out@[j].name_view(), #[trigger] out@[i].name_view()) by {
                let n = out@;
                if j < p {
                    assert(n[i] == old_out[i] && n[j] == old_out[j]);
                } else if i > p {
                    assert(n[i] == old_out[i - 1] && n[j] == old_out[j - 1]);
                } else if i < p && j == p {
                    assert(n[i] == old_out[i]);
                    assert(n[j].name_view() == xn);
                } else if i < p && j > p {
                    assert(n[i] == old_out[i] && n[j] == old_out[j - 1]);
                } else {
                    assert(i == p);
                    assert(n[i].name_view() == xn);
                    assert(n[j] == old_out[j - 1]);
                    let q = p as int;
                    assert(q < old_out.len());
                    assert(seq_lt(xn, old_out[q].name_view()));
                    if seq_lt(old_out[j - 1].name_view(), xn) {
                        lemma_seq_lt_transitive(old_out[j - 1].name_view(), xn, old_out[q].name_view());
                        if j - 1 == q {
                            lemma_seq_lt_irreflexive(old_out[q].name_view());
                        } else {
                            assert(!seq_lt(old_out[j - 1].name_view(), old_out[q].name_view()));
                        }
                    }
                }
            }
        }
    }
    proof {
        assert(rest@.to_multiset() =~= vstd::multiset::Multiset::empty());
        assert(out@.to_multiset() =~= orig.to_multiset());
        assert(rest@.map_values(f).to_multiset() =~= vstd::multiset::Multiset::empty());
        assert(out@.map_values(f).to_multiset() =~= orig.map_values(f).to_multiset());
    }
    out
}

} // verus!
