//! Edits that replace the selection of a page with new samples.
use vstd::prelude::*;
use crate::page::WaveformPage;

verus! {

/// An edit of the selection of a page.
#[derive(Debug)]
pub enum EditEffects {
    /// The samples as the current hand-drawn edit leaves them.
    MouseEdit,
    /// Delete the selection.
    Delete,
    /// Take the samples `from_selection` of the source with index `from`.
    Transfer { from: usize, from_selection: (usize, usize) },
    /// The given samples.
    Paste(Vec<i16>),
    /// The selection repeated the given number of times.
    Loop(usize),
    /// The selection as it is.
    Unset,
}

impl Default for EditEffects {
    fn default() -> (r: Self)
        ensures
            r is Unset,
    {
        EditEffects::Unset
    }
}

/// `sample` repeated `times` times.
pub open spec fn repeated(sample: Seq<i16>, times: nat) -> Seq<i16> {
    Seq::new(sample.len() * times, |i: int| sample[i % (sample.len() as int)])
}

impl EditEffects {
    /// The edit can be computed on `parent` without failing.
    pub open spec fn data_ok(&self, parent: &WaveformPage) -> bool {
        match *self {
            EditEffects::Transfer { .. } => false,
            EditEffects::Loop(x) => {
                &&& parent.selection.0 <= parent.selection.1 <= parent.data@.len()
                &&& (parent.selection.1 - parent.selection.0) * x <= usize::MAX
            },
            EditEffects::Unset => parent.selection.0 <= parent.selection.1 <= parent.data@.len(),
            _ => true,
        }
    }

    /// The samples that replace the selection of `parent`. Samples of another
    /// source cannot be taken yet, so `Transfer` is outside the contract.
    pub fn data(&self, parent: &WaveformPage) -> (r: Vec<i16>)
        requires
            self.data_ok(parent),
        ensures
            r@ == match *self {
                EditEffects::MouseEdit => parent.affected_data@,
                EditEffects::Delete => Seq::empty(),
                EditEffects::Paste(x) => x@,
                EditEffects::Loop(x) => repeated(
                    parent.data@.subrange(parent.selection.0 as int, parent.selection.1 as int),
                    x as nat,
                ),
                _ => parent.data@.subrange(parent.selection.0 as int, parent.selection.1 as int),
            },
    {
        match self {
            EditEffects::MouseEdit => parent.affected_data.clone(),
            EditEffects::Delete => Vec::new(),
            EditEffects::Transfer { .. } => Vec::new(),
            EditEffects::Paste(x) => x.clone(),
            EditEffects::Loop(x) => {
                let sample = crate::page::slice_of(&parent.data, parent.selection.0, parent.selection.1);
                let n = sample.len();
                let ghost s = sample@;
                let mut out: Vec<i16> = Vec::new();
                if n == 0 {
                    assert(s.len() * (*x as nat) == 0) by (nonlinear_arith)
                        requires
                            s.len() == 0,
                    ;
                    assert(out@ =~= repeated(s, *x as nat));
                    return out;
                }
                let mut k: usize = 0;
                while k < *x
                    invariant
                        k <= *x,
                        n == s.len(),
                        n > 0,
                        n * *x <= usize::MAX,
                        sample@ == s,
                        out@ == repeated(s, k as nat),
                    decreases *x - k,
                {
                    let mut i: usize = 0;
                    let ghost before = out@;
                    proof {
                        vstd::arithmetic::mul::lemma_mul_inequality(k as int + 1, *x as int, n as int);
                        vstd::arithmetic::mul::lemma_mul_is_distributive_add(n as int, k as int, 1);
                    }
                    while i < n
                        invariant
                            i <= n,
                            n == s.len(),
                            n > 0,
                            sample@ == s,
                            before == repeated(s, k as nat),
                            before.len() == n * k,
                            out@ == before + s.subrange(0, i as int),
                        decreases n - i,
                    {
                        out.push(sample[i]);
                        i = i + 1;
                        assert(out@ =~= before + s.subrange(0, i as int));
                    }
                    proof {
                        assert(out@ =~= repeated(s, (k + 1) as nat)) by {
                            assert forall|j: int| 0 <= j < n * (k + 1) implies out@[j] == s[j % (n as int)] by {
                                if j < n * k {
                                } else {
                                    vstd::arithmetic::div_mod::lemma_fundamental_div_mod_converse(
                                        j,
                                        n as int,
                                        k as int,
                                        j - n * k,
                                    );
                                }
                            }
                        }
                    }
                    k = k + 1;
                }
                out
            },
            EditEffects::Unset => crate::page::slice_of(&parent.data, parent.selection.0, parent.selection.1),
        }
    }
}

} // verus!
