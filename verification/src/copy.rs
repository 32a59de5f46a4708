//! Deep copies: a copy of an item has the view of the item.
use vstd::prelude::*;
use crate::types::{
    AdtInst, Const, ConstKind, ConstValue, DefId, ExistentialPredicate, ExistentialProjection,
    ExistentialTraitRef, FnSig, GenericArg, Instance, InstanceDef, TraitInst, Ty,
};
use crate::types::{
    args_view, arg_view, pred_view, preds_view, projection_view, projections_view, tys_view, ty_view,
};

verus! {

impl Clone for DefId {
    fn clone(&self) -> (r: Self)
        ensures
            r@ == self@,
    {
        DefId {
            krate: self.krate.clone(),
            disambiguator: self.disambiguator.clone(),
            path: self.path.clone(),
        }
    }
}

pub fn copy_bytes(v: &Vec<u8>) -> (r: Vec<u8>)
    ensures
        r@ == v@,
{
    let mut r: Vec<u8> = Vec::new();
    let mut i: usize = 0;
    while i < v.len()
        invariant
            i <= v.len(),
            r@ == v@.take(i as int),
        decreases v.len() - i,
    {
        r.push(v[i]);
        assert(r@ =~= v@.take(i + 1));
        i += 1;
    }
    assert(r@ =~= v@);
    r
}

impl Clone for ConstValue {
    fn clone(&self) -> (r: Self)
        ensures
            r@ == self@,
    {
        match self {
            ConstValue::Scalar { size, data, float_text } => ConstValue::Scalar {
                size: *size,
                data: *data,
                float_text: match float_text {
                    Some(t) => Some(t.clone()),
                    None => None,
                },
            },
            ConstValue::Ptr { static_def } => ConstValue::Ptr {
                static_def: match static_def {
                    Some(d) => Some(d.clone()),
                    None => None,
                },
            },
            ConstValue::Slice { bytes, relocations, start, end } => ConstValue::Slice {
                bytes: copy_bytes(bytes),
                relocations: *relocations,
                start: *start,
                end: *end,
            },
            ConstValue::ByRef => ConstValue::ByRef,
        }
    }
}

pub fn copy_ty(t: &Ty) -> (r: Ty)
    ensures
        r@ == t@,
    decreases t,
{
    match t {
        Ty::Bool => Ty::Bool,
        Ty::Char => Ty::Char,
        Ty::Int(i) => Ty::Int(*i),
        Ty::Uint(u) => Ty::Uint(*u),
        Ty::Float(f) => Ty::Float(*f),
        Ty::Adt(d, args) => Ty::Adt(d.clone(), copy_args(args)),
        Ty::Foreign => Ty::Foreign,
        Ty::Str => Ty::Str,
        Ty::Array(e, n) => Ty::Array(Box::new(copy_ty(e)), Box::new(copy_const(n))),
        Ty::Slice(e) => Ty::Slice(Box::new(copy_ty(e))),
        Ty::RawPtr(e, m) => Ty::RawPtr(Box::new(copy_ty(e)), *m),
        Ty::Ref(e, m) => Ty::Ref(Box::new(copy_ty(e)), *m),
        Ty::FnDef(d, args) => Ty::FnDef(d.clone(), copy_args(args)),
        Ty::FnPtr(sig) => Ty::FnPtr(Box::new(copy_sig(sig))),
        Ty::Dynamic(preds) => Ty::Dynamic(copy_preds(preds)),
        Ty::Closure(d, args, upvars) => Ty::Closure(d.clone(), copy_args(args), copy_tys(upvars)),
        Ty::Generator => Ty::Generator,
        Ty::GeneratorWitness => Ty::GeneratorWitness,
        Ty::Never => Ty::Never,
        Ty::Tuple(tys) => Ty::Tuple(copy_tys(tys)),
        Ty::Projection(d, args) => Ty::Projection(d.clone(), copy_args(args)),
        Ty::UnnormalizedProjection(d, args) => Ty::UnnormalizedProjection(d.clone(), copy_args(args)),
        Ty::Opaque => Ty::Opaque,
        Ty::Param(i) => Ty::Param(*i),
        Ty::Bound => Ty::Bound,
        Ty::Placeholder => Ty::Placeholder,
        Ty::Infer => Ty::Infer,
        Ty::Error => Ty::Error,
    }
}

pub fn copy_tys(v: &Vec<Ty>) -> (r: Vec<Ty>)
    ensures
        tys_view(r@) == tys_view(v@),
    decreases v,
{
    let mut r: Vec<Ty> = Vec::new();
    let mut i: usize = 0;
    while i < v.len()
        invariant
            i <= v.len(),
            r.len() == i,
            forall|j: int| 0 <= j < i ==> ty_view(r@[j]) == ty_view(v@[j]),
        decreases v.len() - i,
    {
        r.push(copy_ty(&v[i]));
        i += 1;
    }
    assert(tys_view(r@) =~= tys_view(v@));
    r
}

pub fn copy_arg(a: &GenericArg) -> (r: GenericArg)
    ensures
        r@ == a@,
    decreases a,
{
    match a {
        GenericArg::Type(t) => GenericArg::Type(copy_ty(t)),
        GenericArg::Lifetime => GenericArg::Lifetime,
        GenericArg::Const(c) => GenericArg::Const(copy_const(c)),
    }
}

pub fn copy_args(v: &Vec<GenericArg>) -> (r: Vec<GenericArg>)
    ensures
        args_view(r@) == args_view(v@),
    decreases v,
{
    let mut r: Vec<GenericArg> = Vec::new();
    let mut i: usize = 0;
    while i < v.len()
        invariant
            i <= v.len(),
            r.len() == i,
            forall|j: int| 0 <= j < i ==> arg_view(r@[j]) == arg_view(v@[j]),
        decreases v.len() - i,
    {
        r.push(copy_arg(&v[i]));
        i += 1;
    }
    assert(args_view(r@) =~= args_view(v@));
    r
}

pub fn copy_sig(s: &FnSig) -> (r: FnSig)
    ensures
        r@ == s@,
    decreases s,
{
    FnSig {
        inputs: copy_tys(&s.inputs),
        output: copy_ty(&s.output),
        c_variadic: s.c_variadic,
        is_unsafe: s.is_unsafe,
        abi: s.abi,
    }
}

pub fn copy_trait_ref(t: &ExistentialTraitRef) -> (r: ExistentialTraitRef)
    ensures
        r@ == t@,
    decreases t,
{
    ExistentialTraitRef { def_id: t.def_id.clone(), substs: copy_args(&t.substs) }
}

pub fn copy_projection(p: &ExistentialProjection) -> (r: ExistentialProjection)
    ensures
        r@ == p@,
    decreases p,
{
    ExistentialProjection {
        item_def_id: p.item_def_id.clone(),
        substs: copy_args(&p.substs),
        ty: copy_ty(&p.ty),
    }
}

pub fn copy_pred(p: &ExistentialPredicate) -> (r: ExistentialPredicate)
    ensures
        r@ == p@,
    decreases p,
{
    match p {
        ExistentialPredicate::Trait(t) => ExistentialPredicate::Trait(copy_trait_ref(t)),
        ExistentialPredicate::Projection(q) => ExistentialPredicate::Projection(copy_projection(q)),
        ExistentialPredicate::AutoTrait(d) => ExistentialPredicate::AutoTrait(d.clone()),
    }
}

pub fn copy_preds(v: &Vec<ExistentialPredicate>) -> (r: Vec<ExistentialPredicate>)
    ensures
        preds_view(r@) == preds_view(v@),
    decreases v,
{
    let mut r: Vec<ExistentialPredicate> = Vec::new();
    let mut i: usize = 0;
    while i < v.len()
        invariant
            i <= v.len(),
            r.len() == i,
            forall|j: int| 0 <= j < i ==> pred_view(r@[j]) == pred_view(v@[j]),
        decreases v.len() - i,
    {
        r.push(copy_pred(&v[i]));
        i += 1;
    }
    assert(preds_view(r@) =~= preds_view(v@));
    r
}

pub fn copy_const(c: &Const) -> (r: Const)
    ensures
        r@ == c@,
    decreases c,
{
    Const { ty: copy_ty(&c.ty), val: copy_kind(&c.val) }
}

pub fn copy_kind(k: &ConstKind) -> (r: ConstKind)
    ensures
        r@ == k@,
    decreases k,
{
    match k {
        ConstKind::Unevaluated(d, args, promoted) => ConstKind::Unevaluated(
            d.clone(),
            copy_args(args),
            *promoted,
        ),
        ConstKind::Value(v) => ConstKind::Value(v.clone()),
    }
}

pub fn copy_projections(v: &Vec<ExistentialProjection>) -> (r: Vec<ExistentialProjection>)
    ensures
        projections_view(r@) == projections_view(v@),
{
    let mut r: Vec<ExistentialProjection> = Vec::new();
    let mut i: usize = 0;
    while i < v.len()
        invariant
            i <= v.len(),
            r.len() == i,
            forall|j: int| 0 <= j < i ==> projection_view(r@[j]) == projection_view(v@[j]),
        decreases v.len() - i,
    {
        r.push(copy_projection(&v[i]));
        i += 1;
    }
    assert(projections_view(r@) =~= projections_view(v@));
    r
}

impl Clone for Ty {
    fn clone(&self) -> (r: Self)
        ensures
            r@ == self@,
    {
        copy_ty(self)
    }
}

impl Clone for GenericArg {
    fn clone(&self) -> (r: Self)
        ensures
            r@ == self@,
    {
        copy_arg(self)
    }
}

impl Clone for Const {
    fn clone(&self) -> (r: Self)
        ensures
            r@ == self@,
    {
        copy_const(self)
    }
}

impl Clone for TraitInst {
    fn clone(&self) -> (r: Self)
        ensures
            r@ == self@,
    {
        TraitInst {
            trait_ref: match &self.trait_ref {
                Some(t) => Some(copy_trait_ref(t)),
                None => None,
            },
            projs: copy_projections(&self.projs),
        }
    }
}

impl Clone for AdtInst {
    fn clone(&self) -> (r: Self)
        ensures
            r@ == self@,
    {
        AdtInst { adt: self.adt.clone(), substs: copy_args(&self.substs) }
    }
}

impl Clone for InstanceDef {
    fn clone(&self) -> (r: Self)
        ensures
            r@ == self@,
    {
        match self {
            InstanceDef::Item(d) => InstanceDef::Item(d.clone()),
            InstanceDef::Intrinsic(d) => InstanceDef::Intrinsic(d.clone()),
            InstanceDef::VtableShim(d) => InstanceDef::VtableShim(d.clone()),
            InstanceDef::ReifyShim(d) => InstanceDef::ReifyShim(d.clone()),
            InstanceDef::FnPtrShim(d, t) => InstanceDef::FnPtrShim(d.clone(), copy_ty(t)),
            InstanceDef::Virtual(d, i, ti) => InstanceDef::Virtual(d.clone(), *i, ti.clone()),
            InstanceDef::ClosureOnceShim { call_once } => InstanceDef::ClosureOnceShim {
                call_once: call_once.clone(),
            },
            InstanceDef::DropGlue(d, t) => InstanceDef::DropGlue(
                d.clone(),
                match t {
                    Some(t) => Some(copy_ty(t)),
                    None => None,
                },
            ),
            InstanceDef::CloneShim(d, t) => InstanceDef::CloneShim(d.clone(), copy_ty(t)),
        }
    }
}

impl Clone for Instance {
    fn clone(&self) -> (r: Self)
        ensures
            r@ == self@,
    {
        Instance { def: self.def.clone(), substs: copy_args(&self.substs) }
    }
}

} // verus!
