//! Tests of what lowering demands of its input, for callers that cannot
//! know it otherwise: that the bytes of every string-literal constant on the
//! way can be read, and that a dynamic dispatch names a trait object.
use vstd::prelude::*;
use crate::assoc::{
    assoc_item_readable, predicate_readable, predicates_readable, AssocItem, GenericPredicates, Predicate,
};
use crate::instance::{first_type_of, instance_lowerable};
use crate::constant::do_const_eval;
use crate::lowered::{
    args_readable, arg_readable, const_readable, is_str_ref, pred_readable, preds_readable, sig_readable,
    ty_readable, tys_readable, value_readable,
};
use crate::session::TyCtxt;
use crate::types::{
    Const, ConstKind, ConstValue, ExistentialPredicate, FnSig, GenericArg, Instance, InstanceDef, Mutability, Ty,
};
use crate::types::{args_view, pred_view, preds_view, tys_view, ty_view};
use crate::vtable::has_principal;

verus! {

fn str_ref(ty: &Ty) -> (b: bool)
    ensures
        b == is_str_ref(ty@),
{
    proof {
        reveal_with_fuel(ty_view, 2);
    }
    match ty {
        Ty::Ref(e, m) => {
            let inner: bool = match &**e {
                Ty::Str => true,
                _ => false,
            };
            inner && *m == Mutability::Not
        },
        _ => false,
    }
}

/// Whether the bytes of a constant of type `ty` with value `v` can be read
/// as they stand.
pub fn value_is_readable(ty: &Ty, v: &ConstValue) -> (b: bool)
    ensures
        b == value_readable(ty@, Some(v@)),
{
    match v {
        ConstValue::Slice { bytes, relocations, start, end } => {
            if str_ref(ty) {
                *relocations == 0 && *start <= *end && *end <= bytes.len()
            } else {
                true
            }
        },
        _ => true,
    }
}

/// Whether a type can be lowered.
pub fn ty_is_readable(tcx: &TyCtxt, t: &Ty) -> (b: bool)
    ensures
        b == ty_readable(tcx@, t@),
    decreases t,
{
    match t {
        Ty::Adt(_, args) => args_are_readable(tcx, args),
        Ty::Array(e, n) => ty_is_readable(tcx, e) && const_is_readable(tcx, n),
        Ty::Slice(e) => ty_is_readable(tcx, e),
        Ty::RawPtr(e, _) => ty_is_readable(tcx, e),
        Ty::Ref(e, _) => ty_is_readable(tcx, e),
        Ty::FnPtr(sig) => sig_is_readable(tcx, sig),
        Ty::Dynamic(preds) => preds_are_readable(tcx, preds),
        Ty::Closure(_, args, upvars) => args_are_readable(tcx, args) && tys_are_readable(tcx, upvars),
        Ty::Tuple(tys) => tys_are_readable(tcx, tys),
        Ty::Projection(_, args) => args_are_readable(tcx, args),
        Ty::UnnormalizedProjection(_, args) => args_are_readable(tcx, args),
        _ => true,
    }
}

/// Whether each type of a list can be lowered.
pub fn tys_are_readable(tcx: &TyCtxt, v: &Vec<Ty>) -> (b: bool)
    ensures
        b == tys_readable(tcx@, tys_view(v@)),
    decreases v,
{
    let mut i: usize = 0;
    while i < v.len()
        invariant
            i <= v.len(),
            forall|j: int| 0 <= j < i ==> ty_readable(tcx@, #[trigger] tys_view(v@)[j]),
        decreases v.len() - i,
    {
        assert(tys_view(v@)[i as int] == v[i as int]@);
        if !ty_is_readable(tcx, &v[i]) {
            return false;
        }
        i += 1;
    }
    true
}

/// Whether a generic argument can be lowered.
pub fn arg_is_readable(tcx: &TyCtxt, a: &GenericArg) -> (b: bool)
    ensures
        b == arg_readable(tcx@, a@),
    decreases a,
{
    match a {
        GenericArg::Type(t) => ty_is_readable(tcx, t),
        _ => true,
    }
}

/// Whether each generic argument of a list can be lowered.
pub fn args_are_readable(tcx: &TyCtxt, v: &Vec<GenericArg>) -> (b: bool)
    ensures
        b == args_readable(tcx@, args_view(v@)),
    decreases v,
{
    let mut i: usize = 0;
    while i < v.len()
        invariant
            i <= v.len(),
            forall|j: int| 0 <= j < i ==> arg_readable(tcx@, #[trigger] args_view(v@)[j]),
        decreases v.len() - i,
    {
        assert(args_view(v@)[i as int] == v[i as int]@);
        if !arg_is_readable(tcx, &v[i]) {
            return false;
        }
        i += 1;
    }
    true
}

/// Whether a signature can be lowered.
pub fn sig_is_readable(tcx: &TyCtxt, s: &FnSig) -> (b: bool)
    ensures
        b == sig_readable(tcx@, s@),
    decreases s,
{
    tys_are_readable(tcx, &s.inputs) && ty_is_readable(tcx, &s.output)
}

/// Whether a predicate of a trait object can be lowered.
pub fn pred_is_readable(tcx: &TyCtxt, p: &ExistentialPredicate) -> (b: bool)
    ensures
        b == pred_readable(tcx@, p@),
    decreases p,
{
    match p {
        ExistentialPredicate::Trait(t) => args_are_readable(tcx, &t.substs),
        ExistentialPredicate::Projection(q) => args_are_readable(tcx, &q.substs) && ty_is_readable(tcx, &q.ty),
        ExistentialPredicate::AutoTrait(_) => true,
    }
}

/// Whether each predicate of a trait object can be lowered.
pub fn preds_are_readable(tcx: &TyCtxt, v: &Vec<ExistentialPredicate>) -> (b: bool)
    ensures
        b == preds_readable(tcx@, preds_view(v@)),
    decreases v,
{
    let mut i: usize = 0;
    while i < v.len()
        invariant
            i <= v.len(),
            forall|j: int| 0 <= j < i ==> pred_readable(tcx@, #[trigger] preds_view(v@)[j]),
        decreases v.len() - i,
    {
        assert(preds_view(v@)[i as int] == v[i as int]@);
        if !pred_is_readable(tcx, &v[i]) {
            return false;
        }
        i += 1;
    }
    true
}

/// Whether a constant can be lowered.
pub fn const_is_readable(tcx: &TyCtxt, c: &Const) -> (b: bool)
    ensures
        b == const_readable(tcx@, c@),
    decreases c,
{
    if !ty_is_readable(tcx, &c.ty) {
        return false;
    }
    match &c.val {
        ConstKind::Unevaluated(d, args, promoted) => match do_const_eval(tcx, d, args, *promoted) {
            Some(v) => value_is_readable(&c.ty, v),
            None => true,
        },
        ConstKind::Value(v) => value_is_readable(&c.ty, v),
    }
}

/// Whether a type is a trait object with a principal trait.
pub fn is_principal_object(t: &Ty) -> (b: bool)
    ensures
        b == has_principal(t@),
{
    match t {
        Ty::Dynamic(preds) => {
            assert(t@ == crate::types::TyView::Dynamic(preds_view(preds@)));
            if preds.len() > 0 {
                assert(preds_view(preds@)[0] == pred_view(preds@[0]));
                match &preds[0] {
                    ExistentialPredicate::Trait(_) => {
                        assert(pred_view(preds@[0]) is Trait);
                        true
                    },
                    _ => {
                        assert(!(pred_view(preds@[0]) is Trait));
                        false
                    },
                }
            } else {
                false
            }
        },
        _ => false,
    }
}

/// Whether an instance can be lowered.
pub fn instance_is_lowerable(tcx: &TyCtxt, inst: &Instance) -> (b: bool)
    ensures
        b == instance_lowerable(tcx@, inst@),
{
    match &inst.def {
        InstanceDef::Virtual(_, _, _) => match first_type_of(&inst.substs) {
            Some(t) => is_principal_object(t),
            None => false,
        },
        InstanceDef::FnPtrShim(_, ty) => args_are_readable(tcx, &inst.substs) && ty_is_readable(tcx, ty),
        InstanceDef::DropGlue(_, Some(ty)) => args_are_readable(tcx, &inst.substs) && ty_is_readable(tcx, ty),
        InstanceDef::CloneShim(_, ty) => args_are_readable(tcx, &inst.substs) && ty_is_readable(tcx, ty),
        _ => args_are_readable(tcx, &inst.substs),
    }
}

/// Whether a predicate of a `where` clause can be lowered.
pub fn predicate_is_readable(tcx: &TyCtxt, p: &Predicate) -> (b: bool)
    ensures
        b == predicate_readable(tcx@, *p),
{
    match p {
        Predicate::Trait(t) => args_are_readable(tcx, &t.substs),
        Predicate::Projection(q) => args_are_readable(tcx, &q.projection_ty.substs) && ty_is_readable(
            tcx,
            &q.ty,
        ),
        Predicate::Other => true,
    }
}

/// Whether the predicates of a definition, and of those around it, can be
/// lowered.
pub fn predicates_are_readable(tcx: &TyCtxt, g: &GenericPredicates) -> (b: bool)
    ensures
        b == predicates_readable(tcx@, *g),
    decreases g,
{
    let mut i: usize = 0;
    while i < g.predicates.len()
        invariant
            i <= g.predicates.len(),
            forall|j: int| 0 <= j < i ==> predicate_readable(tcx@, #[trigger] g.predicates@[j]),
        decreases g.predicates.len() - i,
    {
        if !predicate_is_readable(tcx, &g.predicates[i]) {
            return false;
        }
        i += 1;
    }
    match &g.parent {
        Some(parent) => predicates_are_readable(tcx, parent),
        None => true,
    }
}

/// Whether an associated item can be lowered.
pub fn assoc_item_is_readable(tcx: &TyCtxt, item: &AssocItem) -> (b: bool)
    ensures
        b == assoc_item_readable(tcx@, *item),
{
    let ty_ok: bool = match &item.ty {
        Some(t) => ty_is_readable(tcx, t),
        None => true,
    };
    let sig_ok: bool = match &item.sig {
        Some(s) => sig_is_readable(tcx, s),
        None => true,
    };
    predicates_are_readable(tcx, &item.predicates) && ty_ok && sig_ok
}

} // verus!
