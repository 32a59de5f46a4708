//! Structural equality: whether two items have the same view.
use vstd::prelude::*;
use crate::types::{
    AdtInst, Const, ConstKind, ConstValue, DefId, ExistentialPredicate, ExistentialProjection,
    ExistentialTraitRef, FnSig, GenericArg, Instance, InstanceDef, TraitInst, Ty,
};
use crate::types::{
    args_view, arg_view, pred_view, preds_view, projection_view, projections_view, tys_view, ty_view,
};

verus! {

pub fn same_def(a: &DefId, b: &DefId) -> (r: bool)
    ensures
        r == (a@ == b@),
{
    a.krate == b.krate && a.disambiguator == b.disambiguator && a.path == b.path
}

pub fn same_opt_def(a: &Option<DefId>, b: &Option<DefId>) -> (r: bool)
    ensures
        r == (crate::types::opt_def_view(*a) == crate::types::opt_def_view(*b)),
{
    match (a, b) {
        (Some(x), Some(y)) => same_def(x, y),
        (None, None) => true,
        _ => false,
    }
}

pub fn same_bytes(a: &Vec<u8>, b: &Vec<u8>) -> (r: bool)
    ensures
        r == (a@ == b@),
{
    if a.len() != b.len() {
        return false;
    }
    let mut i: usize = 0;
    while i < a.len()
        invariant
            a.len() == b.len(),
            i <= a.len(),
            forall|j: int| 0 <= j < i ==> a@[j] == b@[j],
        decreases a.len() - i,
    {
        if a[i] != b[i] {
            return false;
        }
        i += 1;
    }
    assert(a@ =~= b@);
    true
}

pub fn same_value(a: &ConstValue, b: &ConstValue) -> (r: bool)
    ensures
        r == (a@ == b@),
{
    match (a, b) {
        (
            ConstValue::Scalar { size: s1, data: d1, float_text: f1 },
            ConstValue::Scalar { size: s2, data: d2, float_text: f2 },
        ) => {
            let texts: bool = match (f1, f2) {
                (Some(x), Some(y)) => *x == *y,
                (None, None) => true,
                _ => false,
            };
            *s1 == *s2 && *d1 == *d2 && texts
        },
        (ConstValue::Ptr { static_def: pa }, ConstValue::Ptr { static_def: pb }) => same_opt_def(pa, pb),
        (
            ConstValue::Slice { bytes: b1, relocations: r1, start: s1, end: e1 },
            ConstValue::Slice { bytes: b2, relocations: r2, start: s2, end: e2 },
        ) => same_bytes(b1, b2) && *r1 == *r2 && *s1 == *s2 && *e1 == *e2,
        (ConstValue::ByRef, ConstValue::ByRef) => true,
        _ => false,
    }
}

pub fn same_ty(a: &Ty, b: &Ty) -> (r: bool)
    ensures
        r == (a@ == b@),
    decreases a,
{
    match (a, b) {
        (Ty::Bool, Ty::Bool) => true,
        (Ty::Char, Ty::Char) => true,
        (Ty::Int(x), Ty::Int(y)) => *x == *y,
        (Ty::Uint(x), Ty::Uint(y)) => *x == *y,
        (Ty::Float(x), Ty::Float(y)) => *x == *y,
        (Ty::Adt(d1, a1), Ty::Adt(d2, a2)) => same_def(d1, d2) && same_args(a1, a2),
        (Ty::Foreign, Ty::Foreign) => true,
        (Ty::Str, Ty::Str) => true,
        (Ty::Array(e1, n1), Ty::Array(e2, n2)) => same_ty(e1, e2) && same_const(n1, n2),
        (Ty::Slice(e1), Ty::Slice(e2)) => same_ty(e1, e2),
        (Ty::RawPtr(e1, m1), Ty::RawPtr(e2, m2)) => same_ty(e1, e2) && *m1 == *m2,
        (Ty::Ref(e1, m1), Ty::Ref(e2, m2)) => same_ty(e1, e2) && *m1 == *m2,
        (Ty::FnDef(d1, a1), Ty::FnDef(d2, a2)) => same_def(d1, d2) && same_args(a1, a2),
        (Ty::FnPtr(s1), Ty::FnPtr(s2)) => same_sig(s1, s2),
        (Ty::Dynamic(pa), Ty::Dynamic(pb)) => same_preds(pa, pb),
        (Ty::Closure(d1, a1, u1), Ty::Closure(d2, a2, u2)) => same_def(d1, d2) && same_args(a1, a2)
            && same_tys(u1, u2),
        (Ty::Generator, Ty::Generator) => true,
        (Ty::GeneratorWitness, Ty::GeneratorWitness) => true,
        (Ty::Never, Ty::Never) => true,
        (Ty::Tuple(t1), Ty::Tuple(t2)) => same_tys(t1, t2),
        (Ty::Projection(d1, a1), Ty::Projection(d2, a2)) => same_def(d1, d2) && same_args(a1, a2),
        (Ty::UnnormalizedProjection(d1, a1), Ty::UnnormalizedProjection(d2, a2)) => same_def(d1, d2)
            && same_args(a1, a2),
        (Ty::Opaque, Ty::Opaque) => true,
        (Ty::Param(i), Ty::Param(j)) => *i == *j,
        (Ty::Bound, Ty::Bound) => true,
        (Ty::Placeholder, Ty::Placeholder) => true,
        (Ty::Infer, Ty::Infer) => true,
        (Ty::Error, Ty::Error) => true,
        _ => false,
    }
}

pub fn same_tys(a: &Vec<Ty>, b: &Vec<Ty>) -> (r: bool)
    ensures
        r == (tys_view(a@) == tys_view(b@)),
    decreases a,
{
    if a.len() != b.len() {
        assert(tys_view(a@).len() != tys_view(b@).len());
        return false;
    }
    let mut i: usize = 0;
    while i < a.len()
        invariant
            a.len() == b.len(),
            i <= a.len(),
            forall|j: int| 0 <= j < i ==> ty_view(a@[j]) == ty_view(b@[j]),
        decreases a.len() - i,
    {
        if !same_ty(&a[i], &b[i]) {
            assert(tys_view(a@)[i as int] != tys_view(b@)[i as int]);
            return false;
        }
        i += 1;
    }
    assert(tys_view(a@) =~= tys_view(b@));
    true
}

pub fn same_arg(a: &GenericArg, b: &GenericArg) -> (r: bool)
    ensures
        r == (a@ == b@),
    decreases a,
{
    match (a, b) {
        (GenericArg::Type(x), GenericArg::Type(y)) => same_ty(x, y),
        (GenericArg::Lifetime, GenericArg::Lifetime) => true,
        (GenericArg::Const(x), GenericArg::Const(y)) => same_const(x, y),
        _ => false,
    }
}

pub fn same_args(a: &Vec<GenericArg>, b: &Vec<GenericArg>) -> (r: bool)
    ensures
        r == (args_view(a@) == args_view(b@)),
    decreases a,
{
    if a.len() != b.len() {
        assert(args_view(a@).len() != args_view(b@).len());
        return false;
    }
    let mut i: usize = 0;
    while i < a.len()
        invariant
            a.len() == b.len(),
            i <= a.len(),
            forall|j: int| 0 <= j < i ==> arg_view(a@[j]) == arg_view(b@[j]),
        decreases a.len() - i,
    {
        if !same_arg(&a[i], &b[i]) {
            assert(args_view(a@)[i as int] != args_view(b@)[i as int]);
            return false;
        }
        i += 1;
    }
    assert(args_view(a@) =~= args_view(b@));
    true
}

pub fn same_sig(a: &FnSig, b: &FnSig) -> (r: bool)
    ensures
        r == (a@ == b@),
    decreases a,
{
    same_tys(&a.inputs, &b.inputs) && same_ty(&a.output, &b.output) && a.c_variadic == b.c_variadic
        && a.is_unsafe == b.is_unsafe && a.abi == b.abi
}

pub fn same_trait_ref(a: &ExistentialTraitRef, b: &ExistentialTraitRef) -> (r: bool)
    ensures
        r == (a@ == b@),
    decreases a,
{
    same_def(&a.def_id, &b.def_id) && same_args(&a.substs, &b.substs)
}

pub fn same_projection(a: &ExistentialProjection, b: &ExistentialProjection) -> (r: bool)
    ensures
        r == (a@ == b@),
    decreases a,
{
    same_def(&a.item_def_id, &b.item_def_id) && same_args(&a.substs, &b.substs) && same_ty(&a.ty, &b.ty)
}

pub fn same_pred(a: &ExistentialPredicate, b: &ExistentialPredicate) -> (r: bool)
    ensures
        r == (a@ == b@),
    decreases a,
{
    match (a, b) {
        (ExistentialPredicate::Trait(x), ExistentialPredicate::Trait(y)) => same_trait_ref(x, y),
        (ExistentialPredicate::Projection(x), ExistentialPredicate::Projection(y)) => same_projection(x, y),
        (ExistentialPredicate::AutoTrait(x), ExistentialPredicate::AutoTrait(y)) => same_def(x, y),
        _ => false,
    }
}

pub fn same_preds(a: &Vec<ExistentialPredicate>, b: &Vec<ExistentialPredicate>) -> (r: bool)
    ensures
        r == (preds_view(a@) == preds_view(b@)),
    decreases a,
{
    if a.len() != b.len() {
        assert(preds_view(a@).len() != preds_view(b@).len());
        return false;
    }
    let mut i: usize = 0;
    while i < a.len()
        invariant
            a.len() == b.len(),
            i <= a.len(),
            forall|j: int| 0 <= j < i ==> pred_view(a@[j]) == pred_view(b@[j]),
        decreases a.len() - i,
    {
        if !same_pred(&a[i], &b[i]) {
            assert(preds_view(a@)[i as int] != preds_view(b@)[i as int]);
            return false;
        }
        i += 1;
    }
    assert(preds_view(a@) =~= preds_view(b@));
    true
}

pub fn same_const(a: &Const, b: &Const) -> (r: bool)
    ensures
        r == (a@ == b@),
    decreases a,
{
    same_ty(&a.ty, &b.ty) && same_kind(&a.val, &b.val)
}

pub fn same_kind(a: &ConstKind, b: &ConstKind) -> (r: bool)
    ensures
        r == (a@ == b@),
    decreases a,
{
    match (a, b) {
        (ConstKind::Unevaluated(d1, a1, pa), ConstKind::Unevaluated(d2, a2, pb)) => {
            let promoted: bool = match (pa, pb) {
                (Some(x), Some(y)) => *x == *y,
                (None, None) => true,
                _ => false,
            };
            same_def(d1, d2) && same_args(a1, a2) && promoted
        },
        (ConstKind::Value(x), ConstKind::Value(y)) => same_value(x, y),
        _ => false,
    }
}

pub fn same_projections(a: &Vec<ExistentialProjection>, b: &Vec<ExistentialProjection>) -> (r: bool)
    ensures
        r == (projections_view(a@) == projections_view(b@)),
{
    if a.len() != b.len() {
        assert(projections_view(a@).len() != projections_view(b@).len());
        return false;
    }
    let mut i: usize = 0;
    while i < a.len()
        invariant
            a.len() == b.len(),
            i <= a.len(),
            forall|j: int| 0 <= j < i ==> projection_view(a@[j]) == projection_view(b@[j]),
        decreases a.len() - i,
    {
        if !same_projection(&a[i], &b[i]) {
            assert(projections_view(a@)[i as int] != projections_view(b@)[i as int]);
            return false;
        }
        i += 1;
    }
    assert(projections_view(a@) =~= projections_view(b@));
    true
}

pub fn same_trait_inst(a: &TraitInst, b: &TraitInst) -> (r: bool)
    ensures
        r == (a@ == b@),
{
    let principal: bool = match (&a.trait_ref, &b.trait_ref) {
        (Some(x), Some(y)) => same_trait_ref(x, y),
        (None, None) => true,
        _ => false,
    };
    principal && same_projections(&a.projs, &b.projs)
}

pub fn same_adt_inst(a: &AdtInst, b: &AdtInst) -> (r: bool)
    ensures
        r == (a@ == b@),
{
    same_def(&a.adt, &b.adt) && same_args(&a.substs, &b.substs)
}

pub fn same_instance_def(a: &InstanceDef, b: &InstanceDef) -> (r: bool)
    ensures
        r == (a@ == b@),
{
    match (a, b) {
        (InstanceDef::Item(x), InstanceDef::Item(y)) => same_def(x, y),
        (InstanceDef::Intrinsic(x), InstanceDef::Intrinsic(y)) => same_def(x, y),
        (InstanceDef::VtableShim(x), InstanceDef::VtableShim(y)) => same_def(x, y),
        (InstanceDef::ReifyShim(x), InstanceDef::ReifyShim(y)) => same_def(x, y),
        (InstanceDef::FnPtrShim(x, s), InstanceDef::FnPtrShim(y, t)) => same_def(x, y) && same_ty(s, t),
        (InstanceDef::Virtual(x, i, s), InstanceDef::Virtual(y, j, t)) => same_def(x, y) && *i == *j
            && same_trait_inst(s, t),
        (InstanceDef::ClosureOnceShim { call_once: x }, InstanceDef::ClosureOnceShim { call_once: y }) => same_def(
            x,
            y,
        ),
        (InstanceDef::DropGlue(x, s), InstanceDef::DropGlue(y, t)) => {
            let tys: bool = match (s, t) {
                (Some(s), Some(t)) => same_ty(s, t),
                (None, None) => true,
                _ => false,
            };
            same_def(x, y) && tys
        },
        (InstanceDef::CloneShim(x, s), InstanceDef::CloneShim(y, t)) => same_def(x, y) && same_ty(s, t),
        _ => false,
    }
}

pub fn same_instance(a: &Instance, b: &Instance) -> (r: bool)
    ensures
        r == (a@ == b@),
{
    same_instance_def(&a.def, &b.def) && same_args(&a.substs, &b.substs)
}

} // verus!
