//! Instantiation: a generic type with the type arguments of an
//! instantiation in place of its type parameters.
//!
//! A parameter whose index names a type among the arguments becomes that
//! type; any other parameter stays as it is. Nothing else is rewritten.
use vstd::prelude::*;
use crate::copy::copy_ty;
use crate::types::{
    Const, ConstKind, ConstKindView, ConstView, ExistentialPredicate, ExistentialPredicateView,
    ExistentialProjection, ExistentialProjectionView, ExistentialTraitRef, ExistentialTraitRefView, FnSig,
    FnSigView, GenericArg, GenericArgView, Ty, TyView,
};
use crate::types::{args_view, arg_view, pred_view, preds_view, tys_view, ty_view};

verus! {

pub open spec fn subst_ty(t: TyView, substs: Seq<GenericArgView>) -> TyView
    decreases t,
{
    match t {
        TyView::Param(i) => if i < substs.len() && substs[i as int] is Type {
            substs[i as int]->Type_0
        } else {
            t
        },
        TyView::Adt(d, args) => TyView::Adt(d, subst_args(args, substs)),
        TyView::Array(e, n) => TyView::Array(
            Box::new(subst_ty(*e, substs)),
            Box::new(subst_const(*n, substs)),
        ),
        TyView::Slice(e) => TyView::Slice(Box::new(subst_ty(*e, substs))),
        TyView::RawPtr(e, m) => TyView::RawPtr(Box::new(subst_ty(*e, substs)), m),
        TyView::Ref(e, m) => TyView::Ref(Box::new(subst_ty(*e, substs)), m),
        TyView::FnDef(d, args) => TyView::FnDef(d, subst_args(args, substs)),
        TyView::FnPtr(sig) => TyView::FnPtr(Box::new(subst_sig(*sig, substs))),
        TyView::Dynamic(preds) => TyView::Dynamic(subst_preds(preds, substs)),
        TyView::Closure(d, args, upvars) => TyView::Closure(
            d,
            subst_args(args, substs),
            subst_tys(upvars, substs),
        ),
        TyView::Tuple(tys) => TyView::Tuple(subst_tys(tys, substs)),
        TyView::Projection(d, args) => TyView::Projection(d, subst_args(args, substs)),
        TyView::UnnormalizedProjection(d, args) => TyView::UnnormalizedProjection(d, subst_args(args, substs)),
        _ => t,
    }
}

pub open spec fn subst_tys(ts: Seq<TyView>, substs: Seq<GenericArgView>) -> Seq<TyView>
    decreases ts,
{
    Seq::new(ts.len(), |i: int| if 0 <= i < ts.len() { subst_ty(ts[i], substs) } else { TyView::Error })
}

pub open spec fn subst_arg(a: GenericArgView, substs: Seq<GenericArgView>) -> GenericArgView
    decreases a,
{
    match a {
        GenericArgView::Type(t) => GenericArgView::Type(subst_ty(t, substs)),
        GenericArgView::Lifetime => GenericArgView::Lifetime,
        GenericArgView::Const(c) => GenericArgView::Const(subst_const(c, substs)),
    }
}

pub open spec fn subst_args(args: Seq<GenericArgView>, substs: Seq<GenericArgView>) -> Seq<GenericArgView>
    decreases args,
{
    Seq::new(
        args.len(),
        |i: int| if 0 <= i < args.len() { subst_arg(args[i], substs) } else { GenericArgView::Lifetime },
    )
}

pub open spec fn subst_sig(s: FnSigView, substs: Seq<GenericArgView>) -> FnSigView
    decreases s,
{
    FnSigView {
        inputs: subst_tys(s.inputs, substs),
        output: subst_ty(s.output, substs),
        c_variadic: s.c_variadic,
        is_unsafe: s.is_unsafe,
        abi: s.abi,
    }
}

pub open spec fn subst_trait_ref(t: ExistentialTraitRefView, substs: Seq<GenericArgView>) -> ExistentialTraitRefView
    decreases t,
{
    ExistentialTraitRefView { def_id: t.def_id, substs: subst_args(t.substs, substs) }
}

pub open spec fn subst_projection(
    p: ExistentialProjectionView,
    substs: Seq<GenericArgView>,
) -> ExistentialProjectionView
    decreases p,
{
    ExistentialProjectionView {
        item_def_id: p.item_def_id,
        substs: subst_args(p.substs, substs),
        ty: subst_ty(p.ty, substs),
    }
}

pub open spec fn subst_pred(p: ExistentialPredicateView, substs: Seq<GenericArgView>) -> ExistentialPredicateView
    decreases p,
{
    match p {
        ExistentialPredicateView::Trait(t) => ExistentialPredicateView::Trait(subst_trait_ref(t, substs)),
        ExistentialPredicateView::Projection(q) => ExistentialPredicateView::Projection(
            subst_projection(q, substs),
        ),
        ExistentialPredicateView::AutoTrait(d) => ExistentialPredicateView::AutoTrait(d),
    }
}

pub open spec fn subst_preds(
    ps: Seq<ExistentialPredicateView>,
    substs: Seq<GenericArgView>,
) -> Seq<ExistentialPredicateView>
    decreases ps,
{
    Seq::new(ps.len(), |i: int| if 0 <= i < ps.len() { subst_pred(ps[i], substs) } else { ps[0] })
}

pub open spec fn subst_const(c: ConstView, substs: Seq<GenericArgView>) -> ConstView
    decreases c,
{
    ConstView { ty: subst_ty(c.ty, substs), val: subst_kind(c.val, substs) }
}

pub open spec fn subst_kind(k: ConstKindView, substs: Seq<GenericArgView>) -> ConstKindView
    decreases k,
{
    match k {
        ConstKindView::Unevaluated(d, args, promoted) => ConstKindView::Unevaluated(
            d,
            subst_args(args, substs),
            promoted,
        ),
        ConstKindView::Value(v) => ConstKindView::Value(v),
    }
}

fn subst_param(i: u32, substs: &Vec<GenericArg>) -> (r: Ty)
    ensures
        r@ == subst_ty(TyView::Param(i), args_view(substs@)),
{
    if (i as usize) < substs.len() {
        assert(args_view(substs@)[i as int] == substs[i as int]@);
        match &substs[i as usize] {
            GenericArg::Type(t) => copy_ty(t),
            _ => Ty::Param(i),
        }
    } else {
        Ty::Param(i)
    }
}

/// The type `t` with the type arguments among `substs` in place of its
/// type parameters.
pub fn subst(t: &Ty, substs: &Vec<GenericArg>) -> (r: Ty)
    ensures
        r@ == subst_ty(t@, args_view(substs@)),
    decreases t,
{
    match t {
        Ty::Param(i) => subst_param(*i, substs),
        Ty::Adt(d, args) => Ty::Adt(d.clone(), subst_in_args(args, substs)),
        Ty::Array(e, n) => Ty::Array(Box::new(subst(e, substs)), Box::new(subst_in_const(n, substs))),
        Ty::Slice(e) => Ty::Slice(Box::new(subst(e, substs))),
        Ty::RawPtr(e, m) => Ty::RawPtr(Box::new(subst(e, substs)), *m),
        Ty::Ref(e, m) => Ty::Ref(Box::new(subst(e, substs)), *m),
        Ty::FnDef(d, args) => Ty::FnDef(d.clone(), subst_in_args(args, substs)),
        Ty::FnPtr(sig) => Ty::FnPtr(Box::new(subst_in_sig(sig, substs))),
        Ty::Dynamic(preds) => Ty::Dynamic(subst_in_preds(preds, substs)),
        Ty::Closure(d, args, upvars) => Ty::Closure(
            d.clone(),
            subst_in_args(args, substs),
            subst_in_tys(upvars, substs),
        ),
        Ty::Tuple(tys) => Ty::Tuple(subst_in_tys(tys, substs)),
        Ty::Projection(d, args) => Ty::Projection(d.clone(), subst_in_args(args, substs)),
        Ty::UnnormalizedProjection(d, args) => Ty::UnnormalizedProjection(
            d.clone(),
            subst_in_args(args, substs),
        ),
        _ => copy_ty(t),
    }
}

pub fn subst_in_tys(v: &Vec<Ty>, substs: &Vec<GenericArg>) -> (r: Vec<Ty>)
    ensures
        tys_view(r@) == subst_tys(tys_view(v@), args_view(substs@)),
    decreases v,
{
    let mut r: Vec<Ty> = Vec::new();
    let mut i: usize = 0;
    while i < v.len()
        invariant
            i <= v.len(),
            r.len() == i,
            forall|j: int| 0 <= j < i ==> ty_view(r@[j]) == subst_ty(ty_view(v@[j]), args_view(substs@)),
        decreases v.len() - i,
    {
        r.push(subst(&v[i], substs));
        i += 1;
    }
    assert(tys_view(r@) =~= subst_tys(tys_view(v@), args_view(substs@)));
    r
}

pub fn subst_in_arg(a: &GenericArg, substs: &Vec<GenericArg>) -> (r: GenericArg)
    ensures
        r@ == subst_arg(a@, args_view(substs@)),
    decreases a,
{
    match a {
        GenericArg::Type(t) => GenericArg::Type(subst(t, substs)),
        GenericArg::Lifetime => GenericArg::Lifetime,
        GenericArg::Const(c) => GenericArg::Const(subst_in_const(c, substs)),
    }
}

pub fn subst_in_args(v: &Vec<GenericArg>, substs: &Vec<GenericArg>) -> (r: Vec<GenericArg>)
    ensures
        args_view(r@) == subst_args(args_view(v@), args_view(substs@)),
    decreases v,
{
    let mut r: Vec<GenericArg> = Vec::new();
    let mut i: usize = 0;
    while i < v.len()
        invariant
            i <= v.len(),
            r.len() == i,
            forall|j: int| 0 <= j < i ==> arg_view(r@[j]) == subst_arg(arg_view(v@[j]), args_view(substs@)),
        decreases v.len() - i,
    {
        r.push(subst_in_arg(&v[i], substs));
        i += 1;
    }
    assert(args_view(r@) =~= subst_args(args_view(v@), args_view(substs@)));
    r
}

pub fn subst_in_sig(s: &FnSig, substs: &Vec<GenericArg>) -> (r: FnSig)
    ensures
        r@ == subst_sig(s@, args_view(substs@)),
    decreases s,
{
    FnSig {
        inputs: subst_in_tys(&s.inputs, substs),
        output: subst(&s.output, substs),
        c_variadic: s.c_variadic,
        is_unsafe: s.is_unsafe,
        abi: s.abi,
    }
}

pub fn subst_in_trait_ref(t: &ExistentialTraitRef, substs: &Vec<GenericArg>) -> (r: ExistentialTraitRef)
    ensures
        r@ == subst_trait_ref(t@, args_view(substs@)),
    decreases t,
{
    ExistentialTraitRef { def_id: t.def_id.clone(), substs: subst_in_args(&t.substs, substs) }
}

pub fn subst_in_projection(p: &ExistentialProjection, substs: &Vec<GenericArg>) -> (r: ExistentialProjection)
    ensures
        r@ == subst_projection(p@, args_view(substs@)),
    decreases p,
{
    ExistentialProjection {
        item_def_id: p.item_def_id.clone(),
        substs: subst_in_args(&p.substs, substs),
        ty: subst(&p.ty, substs),
    }
}

pub fn subst_in_pred(p: &ExistentialPredicate, substs: &Vec<GenericArg>) -> (r: ExistentialPredicate)
    ensures
        r@ == subst_pred(p@, args_view(substs@)),
    decreases p,
{
    match p {
        ExistentialPredicate::Trait(t) => ExistentialPredicate::Trait(subst_in_trait_ref(t, substs)),
        ExistentialPredicate::Projection(q) => ExistentialPredicate::Projection(subst_in_projection(q, substs)),
        ExistentialPredicate::AutoTrait(d) => ExistentialPredicate::AutoTrait(d.clone()),
    }
}

pub fn subst_in_preds(v: &Vec<ExistentialPredicate>, substs: &Vec<GenericArg>) -> (r: Vec<ExistentialPredicate>)
    ensures
        preds_view(r@) == subst_preds(preds_view(v@), args_view(substs@)),
    decreases v,
{
    let mut r: Vec<ExistentialPredicate> = Vec::new();
    let mut i: usize = 0;
    while i < v.len()
        invariant
            i <= v.len(),
            r.len() == i,
            forall|j: int| 0 <= j < i ==> pred_view(r@[j]) == subst_pred(pred_view(v@[j]), args_view(substs@)),
        decreases v.len() - i,
    {
        r.push(subst_in_pred(&v[i], substs));
        i += 1;
    }
    assert(preds_view(r@) =~= subst_preds(preds_view(v@), args_view(substs@)));
    r
}

pub fn subst_in_const(c: &Const, substs: &Vec<GenericArg>) -> (r: Const)
    ensures
        r@ == subst_const(c@, args_view(substs@)),
    decreases c,
{
    Const { ty: subst(&c.ty, substs), val: subst_in_kind(&c.val, substs) }
}

pub fn subst_in_kind(k: &ConstKind, substs: &Vec<GenericArg>) -> (r: ConstKind)
    ensures
        r@ == subst_kind(k@, args_view(substs@)),
    decreases k,
{
    match k {
        ConstKind::Unevaluated(d, args, promoted) => ConstKind::Unevaluated(
            d.clone(),
            subst_in_args(args, substs),
            *promoted,
        ),
        ConstKind::Value(v) => ConstKind::Value(v.clone()),
    }
}

} // verus!
