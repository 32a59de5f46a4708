//! Vtable slots. The host's vtable of a trait object has a slot for every
//! method of the trait, empty for the methods that cannot be called on a
//! trait object. The lowered vtable leaves the empty slots out, so a slot
//! number of the host has to be renumbered.
use vstd::prelude::*;
use crate::lowered::trait_inst_of;
use crate::session::TyCtxt;
use crate::types::{Ty, TyView};

verus! {

/// How many of the first `n` slots hold a method.
pub open spec fn present_before(methods: Seq<bool>, n: nat) -> nat
    decreases n,
{
    if n == 0 {
        0
    } else if n <= methods.len() && methods[n - 1] {
        present_before(methods, (n - 1) as nat) + 1
    } else {
        present_before(methods, (n - 1) as nat)
    }
}

/// Whether a type is a trait object with a principal trait.
pub open spec fn has_principal(t: TyView) -> bool {
    t matches TyView::Dynamic(preds) && trait_inst_of(preds).trait_ref is Some
}

/// No more slots hold a method than there are slots.
pub proof fn lemma_present_before_bound(methods: Seq<bool>, n: nat)
    ensures
        present_before(methods, n) <= n,
    decreases n,
{
    if n > 0 {
        lemma_present_before_bound(methods, (n - 1) as nat);
    }
}

/// The slot of the lowered vtable that stands for slot `raw_idx` of the
/// host's vtable of `self_ty`: the number of slots before it that hold a
/// method.
pub fn adjust_method_index(tcx: &TyCtxt, self_ty: &Ty, raw_idx: usize) -> (idx: usize)
    requires
        has_principal(self_ty@),
    ensures
        idx == present_before(tcx@.vtable_methods(self_ty@), raw_idx as nat),
{
    match tcx.vtable_methods(self_ty) {
        Some(methods) => {
            let mut count: usize = 0;
            let mut i: usize = 0;
            while i < raw_idx
                invariant
                    i <= raw_idx,
                    count == present_before(methods@, i as nat),
                    count <= i,
                decreases raw_idx - i,
            {
                if i < methods.len() && methods[i] {
                    count += 1;
                }
                i += 1;
            }
            count
        },
        None => {
            proof {
                lemma_no_methods(raw_idx as nat);
            }
            0
        },
    }
}

/// Where there are no slots, none holds a method.
pub proof fn lemma_no_methods(n: nat)
    ensures
        present_before(Seq::<bool>::empty(), n) == 0,
    decreases n,
{
    if n > 0 {
        lemma_no_methods((n - 1) as nat);
    }
}

/// The number of slots before a slot does not go down as the slot goes up.
pub proof fn lemma_present_before_monotone(methods: Seq<bool>, a: nat, b: nat)
    requires
        a <= b,
    ensures
        present_before(methods, a) <= present_before(methods, b),
    decreases b,
{
    if a < b {
        lemma_present_before_monotone(methods, a, (b - 1) as nat);
    }
}

/// The lowered vtable is dense and keeps the order of the host's. The slots
/// that hold a method are numbered from zero without a gap: each of them
/// gets a number below the number of slots that hold a method, and of two
/// of them the later one gets the greater number.
pub proof fn law_renumbering_is_dense(methods: Seq<bool>, a: nat, b: nat)
    requires
        a < b < methods.len(),
        methods[a as int],
        methods[b as int],
    ensures
        present_before(methods, a) < present_before(methods, b),
        present_before(methods, b) < present_before(methods, methods.len()),
        present_before(methods, methods.len()) <= methods.len(),
{
    lemma_present_before_monotone(methods, a + 1, b);
    lemma_present_before_monotone(methods, b + 1, methods.len());
    lemma_present_before_bound(methods, methods.len());
}

/// A slot that follows directly on an empty slot has the number that the
/// empty slot would have: empty slots take up no number.
pub proof fn law_empty_slots_take_no_number(methods: Seq<bool>, a: nat)
    requires
        a < methods.len(),
        !methods[a as int],
    ensures
        present_before(methods, a + 1) == present_before(methods, a),
{
}

} // verus!
