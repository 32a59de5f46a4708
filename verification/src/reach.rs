//! Reachability. Lowering an item records everything that the lowered form
//! refers to: the function behind each function-item type, the source of
//! each unevaluated constant, the callees of each clone adapter, the trait
//! of each trait object, each instantiation of a data type. A set of
//! instances that holds, with each member, what that member refers to holds
//! everything that can be reached from any member.
use vstd::prelude::*;
use crate::growth::{
    lemma_added, lemma_step_args, lemma_step_const, lemma_step_const_head, lemma_step_diagnostic,
    lemma_step_instance, lemma_step_interned, lemma_step_pred, lemma_step_refl, lemma_step_rendered,
    lemma_step_resolved_name, lemma_step_trait, lemma_step_ty, lemma_step_tys, starts_with, step,
};
use crate::instance::{clone_callees, clone_parts, clone_start, lower_instance};
use crate::json::Json;
use crate::lowered::{
    const_head, evaluated, lower_arg, lower_args, lower_const, lower_pred, lower_preds, lower_sig, lower_ty,
    lower_tys, rendered_value, resolved_name, trait_inst_of, ty_body,
};
use crate::session::{DiagnosticView, Session, TyCtxtView};
use crate::types::{
    AdtInstView, ConstKindView, ConstValueView, ConstView, DefIdView, ExistentialPredicateView, FnSigView,
    GenericArgView, InstanceDefView, InstanceView, TraitInstView, TyView,
};

verus! {

/// What a lowered form refers to: instances, trait instances, and
/// instantiations of data types.
pub struct Refs {
    pub instances: Set<InstanceView>,
    pub traits: Set<TraitInstView>,
    pub adts: Set<AdtInstView>,
}

impl Refs {
    pub open spec fn none() -> Refs {
        Refs {
            instances: Set::<InstanceView>::empty(),
            traits: Set::<TraitInstView>::empty(),
            adts: Set::<AdtInstView>::empty(),
        }
    }

    pub open spec fn union(self, other: Refs) -> Refs {
        Refs {
            instances: self.instances.union(other.instances),
            traits: self.traits.union(other.traits),
            adts: self.adts.union(other.adts),
        }
    }

    pub open spec fn trait_inst(t: TraitInstView) -> Refs {
        Refs { traits: Set::<TraitInstView>::empty().insert(t), ..Refs::none() }
    }

    pub open spec fn adt(a: AdtInstView) -> Refs {
        Refs { adts: Set::<AdtInstView>::empty().insert(a), ..Refs::none() }
    }
}

/// An instance, if there is one.
pub open spec fn opt_set(i: Option<InstanceView>) -> Refs {
    match i {
        Some(i) => Refs { instances: Set::<InstanceView>::empty().insert(i), ..Refs::none() },
        None => Refs::none(),
    }
}

/// What the lowered form of a type refers to: the function of each
/// function-item type in it, the trait of each trait object, each
/// instantiation of a data type, and what its constants refer to. The
/// arguments of a function-item type are not lowered and do not count.
pub open spec fn ty_refs(tcx: TyCtxtView, t: TyView) -> Refs
    decreases t,
{
    match t {
        TyView::Adt(d, args) => Refs::adt(AdtInstView { adt: d, substs: args }).union(
            args_refs(tcx, args, args.len()),
        ),
        TyView::Array(e, n) => ty_refs(tcx, *e).union(const_refs(tcx, *n)),
        TyView::Slice(e) => ty_refs(tcx, *e),
        TyView::RawPtr(e, _) => ty_refs(tcx, *e),
        TyView::Ref(e, _) => ty_refs(tcx, *e),
        TyView::FnDef(d, args) => opt_set(tcx.resolve(d, args)),
        TyView::FnPtr(sig) => sig_refs(tcx, *sig),
        TyView::Dynamic(preds) => Refs::trait_inst(trait_inst_of(preds)).union(
            preds_refs(tcx, preds, preds.len()),
        ),
        TyView::Closure(_, args, upvars) => args_refs(tcx, args, args.len()).union(
            tys_refs(tcx, upvars, upvars.len()),
        ),
        TyView::Tuple(tys) => tys_refs(tcx, tys, tys.len()),
        TyView::Projection(_, args) => args_refs(tcx, args, args.len()),
        TyView::UnnormalizedProjection(_, args) => args_refs(tcx, args, args.len()),
        _ => Refs::none(),
    }
}

pub open spec fn tys_refs(tcx: TyCtxtView, ts: Seq<TyView>, n: nat) -> Refs
    decreases ts, n,
{
    if n == 0 || n > ts.len() {
        Refs::none()
    } else {
        tys_refs(tcx, ts, (n - 1) as nat).union(ty_refs(tcx, ts[n - 1]))
    }
}

pub open spec fn arg_refs(tcx: TyCtxtView, a: GenericArgView) -> Refs
    decreases a,
{
    match a {
        GenericArgView::Type(t) => ty_refs(tcx, t),
        _ => Refs::none(),
    }
}

pub open spec fn args_refs(tcx: TyCtxtView, args: Seq<GenericArgView>, n: nat) -> Refs
    decreases args, n,
{
    if n == 0 || n > args.len() {
        Refs::none()
    } else {
        args_refs(tcx, args, (n - 1) as nat).union(arg_refs(tcx, args[n - 1]))
    }
}

pub open spec fn sig_refs(tcx: TyCtxtView, sig: FnSigView) -> Refs
    decreases sig,
{
    tys_refs(tcx, sig.inputs, sig.inputs.len()).union(ty_refs(tcx, sig.output))
}

pub open spec fn pred_refs(tcx: TyCtxtView, p: ExistentialPredicateView) -> Refs
    decreases p,
{
    match p {
        ExistentialPredicateView::Trait(t) => args_refs(tcx, t.substs, t.substs.len()),
        ExistentialPredicateView::Projection(q) => args_refs(tcx, q.substs, q.substs.len()).union(
            ty_refs(tcx, q.ty),
        ),
        ExistentialPredicateView::AutoTrait(_) => Refs::none(),
    }
}

pub open spec fn preds_refs(tcx: TyCtxtView, ps: Seq<ExistentialPredicateView>, n: nat) -> Refs
    decreases ps, n,
{
    if n == 0 || n > ps.len() {
        Refs::none()
    } else {
        preds_refs(tcx, ps, (n - 1) as nat).union(pred_refs(tcx, ps[n - 1]))
    }
}

/// The instance that computes an unevaluated constant.
pub open spec fn kind_refs(tcx: TyCtxtView, k: ConstKindView) -> Refs {
    match k {
        ConstKindView::Unevaluated(d, args, _) => opt_set(tcx.resolve(d, args)),
        ConstKindView::Value(_) => Refs::none(),
    }
}

pub open spec fn const_refs(tcx: TyCtxtView, c: ConstView) -> Refs
    decreases c,
{
    ty_refs(tcx, c.ty).union(kind_refs(tcx, c.val))
}

/// Whether a session has recorded everything that `r` holds.
#[verifier::opaque]
pub open spec fn holds(s: Session, r: Refs) -> bool {
    &&& forall|i: InstanceView| r.instances.contains(i) ==> s.instances.contains(i)
    &&& forall|t: TraitInstView| r.traits.contains(t) ==> s.traits.contains(t)
    &&& forall|a: AdtInstView| r.adts.contains(a) ==> s.adts.contains(a)
}

/// Whether a session has recorded what each of its interned types refers
/// to.
#[verifier::opaque]
pub open spec fn closed(s: Session) -> bool {
    forall|k: int| 0 <= k < s.keys.len() ==> holds(s, ty_refs(s.tcx, #[trigger] s.keys[k]))
}

pub proof fn lemma_holds_empty(s: Session)
    ensures
        holds(s, Refs::none()),
{
    reveal(holds);
}

pub proof fn lemma_holds_union(s: Session, a: Refs, b: Refs)
    requires
        holds(s, a),
        holds(s, b),
    ensures
        holds(s, a.union(b)),
{
    reveal(holds);
}

/// What a session has recorded, it still has after a step.
pub proof fn lemma_holds_grow(s: Session, later: Session, r: Refs)
    requires
        step(s, later),
        holds(s, r),
    ensures
        holds(later, r),
{
    reveal(holds);
    reveal(step);
    assert forall|i: InstanceView| r.instances.contains(i) implies later.instances.contains(i) by {
        let k = choose|k: int| 0 <= k < s.instances.len() && s.instances[k] == i;
        assert(later.instances[k] == i);
    }
    assert forall|t: TraitInstView| r.traits.contains(t) implies later.traits.contains(t) by {
        let k = choose|k: int| 0 <= k < s.traits.len() && s.traits[k] == t;
        assert(later.traits[k] == t);
    }
    assert forall|a: AdtInstView| r.adts.contains(a) implies later.adts.contains(a) by {
        let k = choose|k: int| 0 <= k < s.adts.len() && s.adts[k] == a;
        assert(later.adts[k] == a);
    }
}

/// A session that has just recorded a trait instance holds it.
pub proof fn lemma_holds_trait(s: Session, t: TraitInstView)
    ensures
        holds(s.with_trait(t), Refs::trait_inst(t)),
{
    reveal(holds);
    lemma_added(s.traits, t);
}

/// A session that has just recorded an instantiation of a data type holds
/// it.
pub proof fn lemma_holds_adt(s: Session, a: AdtInstView)
    ensures
        holds(s.with_adt(a), Refs::adt(a)),
{
    reveal(holds);
    lemma_added(s.adts, a);
}

/// A closed session stays closed over a step that interns nothing.
pub proof fn lemma_closed_grow(s: Session, later: Session)
    requires
        closed(s),
        step(s, later),
        later.keys == s.keys,
    ensures
        closed(later),
{
    reveal(closed);
    reveal(step);
    assert forall|k: int| 0 <= k < later.keys.len() implies holds(
        later,
        ty_refs(later.tcx, #[trigger] later.keys[k]),
    ) by {
        lemma_holds_grow(s, later, ty_refs(s.tcx, s.keys[k]));
    }
}

/// A closed session stays closed when a type is interned whose references
/// it has recorded.
pub proof fn lemma_closed_interned(s: Session, t: TyView, body: Json)
    requires
        closed(s),
        holds(s, ty_refs(s.tcx, t)),
    ensures
        closed(s.interned(t, body)),
        holds(s.interned(t, body), ty_refs(s.tcx, t)),
{
    reveal(closed);
    let later = s.interned(t, body);
    lemma_step_interned(s, t, body);
    lemma_holds_grow(s, later, ty_refs(s.tcx, t));
    assert forall|k: int| 0 <= k < later.keys.len() implies holds(
        later,
        ty_refs(later.tcx, #[trigger] later.keys[k]),
    ) by {
        if k < s.keys.len() {
            assert(later.keys[k] == s.keys[k]);
            lemma_holds_grow(s, later, ty_refs(s.tcx, s.keys[k]));
        }
    }
}

/// Naming a call target records the instance it resolves to.
pub proof fn lemma_reach_resolved_name(s: Session, d: DefIdView, args: Seq<GenericArgView>)
    requires
        closed(s),
    ensures
        closed(resolved_name(s, d, args).0),
        holds(resolved_name(s, d, args).0, opt_set(s.tcx.resolve(d, args))),
        resolved_name(s, d, args).0.keys == s.keys,
        resolved_name(s, d, args).0.tcx == s.tcx,
{
    lemma_step_resolved_name(s, d, args);
    lemma_closed_grow(s, resolved_name(s, d, args).0);
    reveal(holds);
    match s.tcx.resolve(d, args) {
        Some(inst) => {
            lemma_added(s.instances, inst);
        },
        None => {},
    }
}

pub proof fn lemma_reach_rendered(s: Session, ty: TyView, v: Option<ConstValueView>)
    requires
        closed(s),
    ensures
        closed(rendered_value(s, ty, v).0),
        rendered_value(s, ty, v).0.keys == s.keys,
        rendered_value(s, ty, v).0.tcx == s.tcx,
{
    match ty {
        TyView::FnDef(d, args) => {
            lemma_reach_resolved_name(s, d, args);
        },
        _ => {},
    }
}

pub proof fn lemma_reach_const_head(s: Session, ty: Json, k: ConstKindView)
    requires
        closed(s),
    ensures
        closed(const_head(s, ty, k).0),
        holds(const_head(s, ty, k).0, kind_refs(s.tcx, k)),
        const_head(s, ty, k).0.keys == s.keys,
        const_head(s, ty, k).0.tcx == s.tcx,
{
    match k {
        ConstKindView::Unevaluated(d, args, promoted) => {
            lemma_reach_resolved_name(s, d, args);
        },
        ConstKindView::Value(_) => {
            lemma_holds_empty(s);
        },
    }
}

/// Lowering a type keeps a closed session closed and records what the type
/// refers to.
pub proof fn lemma_reach_ty(s: Session, t: TyView)
    requires
        closed(s),
    ensures
        closed(lower_ty(s, t).0),
        holds(lower_ty(s, t).0, ty_refs(s.tcx, t)),
        lower_ty(s, t).0.tcx == s.tcx,
    decreases t, 1nat,
{
    match s.ty_id(t) {
        Some(id) => {
            reveal(closed);
            crate::session::lemma_position(s.keys, t);
            assert(s.keys[id] == t);
        },
        None => {
            lemma_reach_ty_body(s, t);
            lemma_closed_interned(ty_body(s, t).0, t, ty_body(s, t).1);
        },
    }
}

pub proof fn lemma_reach_ty_body(s: Session, t: TyView)
    requires
        closed(s),
    ensures
        closed(ty_body(s, t).0),
        holds(ty_body(s, t).0, ty_refs(s.tcx, t)),
        ty_body(s, t).0.tcx == s.tcx,
    decreases t, 0nat,
{
    lemma_holds_empty(s);
    match t {
        TyView::Adt(d, args) => {
            let ai = AdtInstView { adt: d, substs: args };
            let s1 = s.with_adt(ai);
            crate::growth::lemma_step_adt(s, ai);
            lemma_closed_grow(s, s1);
            lemma_holds_adt(s, ai);
            lemma_reach_args(s1, args, args.len());
            lemma_step_args(s1, args, args.len());
            lemma_holds_grow(s1, ty_body(s, t).0, Refs::adt(ai));
            lemma_holds_union(ty_body(s, t).0, Refs::adt(ai), args_refs(s.tcx, args, args.len()));
        },
        TyView::Array(e, n) => {
            lemma_reach_ty(s, *e);
            let s1 = lower_ty(s, *e).0;
            lemma_reach_const(s1, *n);
            lemma_step_const(s1, *n);
            lemma_holds_grow(s1, lower_const(s1, *n).0, ty_refs(s.tcx, *e));
            lemma_holds_union(ty_body(s, t).0, ty_refs(s.tcx, *e), const_refs(s.tcx, *n));
        },
        TyView::Slice(e) => {
            lemma_reach_ty(s, *e);
        },
        TyView::RawPtr(e, _) => {
            lemma_reach_ty(s, *e);
        },
        TyView::Ref(e, _) => {
            lemma_reach_ty(s, *e);
        },
        TyView::FnDef(d, args) => {
            lemma_reach_resolved_name(s, d, args);
        },
        TyView::FnPtr(sig) => {
            lemma_reach_sig(s, *sig);
        },
        TyView::Dynamic(preds) => {
            let ti = trait_inst_of(preds);
            let s1 = s.with_trait(ti);
            lemma_step_trait(s, ti);
            lemma_closed_grow(s, s1);
            lemma_holds_trait(s, ti);
            lemma_reach_preds(s1, preds, preds.len());
            crate::growth::lemma_step_preds(s1, preds, preds.len());
            lemma_holds_grow(s1, ty_body(s, t).0, Refs::trait_inst(ti));
            lemma_holds_union(ty_body(s, t).0, Refs::trait_inst(ti), preds_refs(s.tcx, preds, preds.len()));
        },
        TyView::Closure(d, args, upvars) => {
            lemma_reach_args(s, args, args.len());
            let s1 = lower_args(s, args, args.len()).0;
            lemma_reach_tys(s1, upvars, upvars.len());
            lemma_step_tys(s1, upvars, upvars.len());
            lemma_holds_grow(s1, lower_tys(s1, upvars, upvars.len()).0, args_refs(s.tcx, args, args.len()));
            lemma_holds_union(
                ty_body(s, t).0,
                args_refs(s.tcx, args, args.len()),
                tys_refs(s.tcx, upvars, upvars.len()),
            );
        },
        TyView::Tuple(tys) => {
            lemma_reach_tys(s, tys, tys.len());
        },
        TyView::Projection(d, args) => {
            lemma_reach_args(s, args, args.len());
        },
        TyView::UnnormalizedProjection(d, args) => {
            lemma_reach_args(s, args, args.len());
        },
        _ => {},
    }
}

pub proof fn lemma_reach_tys(s: Session, ts: Seq<TyView>, n: nat)
    requires
        closed(s),
    ensures
        closed(lower_tys(s, ts, n).0),
        holds(lower_tys(s, ts, n).0, tys_refs(s.tcx, ts, n)),
        lower_tys(s, ts, n).0.tcx == s.tcx,
    decreases ts, n,
{
    if n == 0 || n > ts.len() {
        lemma_holds_empty(s);
    } else {
        lemma_reach_tys(s, ts, (n - 1) as nat);
        let s1 = lower_tys(s, ts, (n - 1) as nat).0;
        lemma_reach_ty(s1, ts[n - 1]);
        lemma_step_ty(s1, ts[n - 1]);
        lemma_holds_grow(s1, lower_ty(s1, ts[n - 1]).0, tys_refs(s.tcx, ts, (n - 1) as nat));
        lemma_holds_union(
            lower_tys(s, ts, n).0,
            tys_refs(s.tcx, ts, (n - 1) as nat),
            ty_refs(s.tcx, ts[n - 1]),
        );
    }
}

pub proof fn lemma_reach_arg(s: Session, a: GenericArgView)
    requires
        closed(s),
    ensures
        closed(lower_arg(s, a).0),
        holds(lower_arg(s, a).0, arg_refs(s.tcx, a)),
        lower_arg(s, a).0.tcx == s.tcx,
    decreases a,
{
    match a {
        GenericArgView::Type(t) => lemma_reach_ty(s, t),
        _ => lemma_holds_empty(s),
    }
}

pub proof fn lemma_reach_args(s: Session, args: Seq<GenericArgView>, n: nat)
    requires
        closed(s),
    ensures
        closed(lower_args(s, args, n).0),
        holds(lower_args(s, args, n).0, args_refs(s.tcx, args, n)),
        lower_args(s, args, n).0.tcx == s.tcx,
    decreases args, n,
{
    if n == 0 || n > args.len() {
        lemma_holds_empty(s);
    } else {
        lemma_reach_args(s, args, (n - 1) as nat);
        let s1 = lower_args(s, args, (n - 1) as nat).0;
        lemma_reach_arg(s1, args[n - 1]);
        crate::growth::lemma_step_arg(s1, args[n - 1]);
        lemma_holds_grow(s1, lower_arg(s1, args[n - 1]).0, args_refs(s.tcx, args, (n - 1) as nat));
        lemma_holds_union(
            lower_args(s, args, n).0,
            args_refs(s.tcx, args, (n - 1) as nat),
            arg_refs(s.tcx, args[n - 1]),
        );
    }
}

pub proof fn lemma_reach_sig(s: Session, sig: FnSigView)
    requires
        closed(s),
    ensures
        closed(lower_sig(s, sig).0),
        holds(lower_sig(s, sig).0, sig_refs(s.tcx, sig)),
        lower_sig(s, sig).0.tcx == s.tcx,
    decreases sig,
{
    lemma_reach_tys(s, sig.inputs, sig.inputs.len());
    let s1 = lower_tys(s, sig.inputs, sig.inputs.len()).0;
    lemma_reach_ty(s1, sig.output);
    lemma_step_ty(s1, sig.output);
    lemma_holds_grow(s1, lower_ty(s1, sig.output).0, tys_refs(s.tcx, sig.inputs, sig.inputs.len()));
    lemma_holds_union(
        lower_sig(s, sig).0,
        tys_refs(s.tcx, sig.inputs, sig.inputs.len()),
        ty_refs(s.tcx, sig.output),
    );
}

pub proof fn lemma_reach_pred(s: Session, p: ExistentialPredicateView)
    requires
        closed(s),
    ensures
        closed(lower_pred(s, p).0),
        holds(lower_pred(s, p).0, pred_refs(s.tcx, p)),
        lower_pred(s, p).0.tcx == s.tcx,
    decreases p, 1nat,
{
    match p {
        ExistentialPredicateView::Trait(t) => {
            lemma_reach_args(s, t.substs, t.substs.len());
        },
        ExistentialPredicateView::Projection(q) => {
            lemma_reach_args(s, q.substs, q.substs.len());
            let s1 = lower_args(s, q.substs, q.substs.len()).0;
            lemma_reach_ty(s1, q.ty);
            lemma_step_ty(s1, q.ty);
            lemma_holds_grow(s1, lower_ty(s1, q.ty).0, args_refs(s.tcx, q.substs, q.substs.len()));
            lemma_holds_union(
                lower_pred(s, p).0,
                args_refs(s.tcx, q.substs, q.substs.len()),
                ty_refs(s.tcx, q.ty),
            );
        },
        ExistentialPredicateView::AutoTrait(_) => {
            lemma_holds_empty(s);
        },
    }
}

pub proof fn lemma_reach_preds(s: Session, ps: Seq<ExistentialPredicateView>, n: nat)
    requires
        closed(s),
    ensures
        closed(lower_preds(s, ps, n).0),
        holds(lower_preds(s, ps, n).0, preds_refs(s.tcx, ps, n)),
        lower_preds(s, ps, n).0.tcx == s.tcx,
    decreases ps, n,
{
    if n == 0 || n > ps.len() {
        lemma_holds_empty(s);
    } else {
        lemma_reach_preds(s, ps, (n - 1) as nat);
        let s1 = lower_preds(s, ps, (n - 1) as nat).0;
        lemma_reach_pred(s1, ps[n - 1]);
        lemma_step_pred(s1, ps[n - 1]);
        lemma_holds_grow(s1, lower_pred(s1, ps[n - 1]).0, preds_refs(s.tcx, ps, (n - 1) as nat));
        lemma_holds_union(
            lower_preds(s, ps, n).0,
            preds_refs(s.tcx, ps, (n - 1) as nat),
            pred_refs(s.tcx, ps[n - 1]),
        );
    }
}

pub proof fn lemma_reach_const(s: Session, c: ConstView)
    requires
        closed(s),
    ensures
        closed(lower_const(s, c).0),
        holds(lower_const(s, c).0, const_refs(s.tcx, c)),
        lower_const(s, c).0.tcx == s.tcx,
    decreases c,
{
    lemma_reach_ty(s, c.ty);
    let s1 = lower_ty(s, c.ty).0;
    let j1 = lower_ty(s, c.ty).1;
    lemma_reach_const_head(s1, j1, c.val);
    lemma_step_const_head(s1, j1, c.val);
    let s2 = const_head(s1, j1, c.val).0;
    lemma_holds_grow(s1, s2, ty_refs(s.tcx, c.ty));
    lemma_reach_rendered(s2, c.ty, evaluated(s.tcx, c.val));
    lemma_step_rendered(s2, c.ty, evaluated(s.tcx, c.val));
    let s3 = lower_const(s, c).0;
    lemma_holds_grow(s2, s3, ty_refs(s.tcx, c.ty));
    lemma_holds_grow(s2, s3, kind_refs(s.tcx, c.val));
    lemma_holds_union(s3, ty_refs(s.tcx, c.ty), kind_refs(s.tcx, c.val));
}

/// A session in which no type is interned is closed.
pub proof fn law_fresh_session_is_closed(s: Session)
    requires
        s.keys.len() == 0,
    ensures
        closed(s),
{
    reveal(closed);
}

/// Lowering a type records every instance that the type refers to, and
/// keeps a closed session closed: in a session that has recorded what its
/// interned types refer to, nothing that the type refers to is missing
/// afterwards, whether the type was interned before or not.
pub proof fn law_type_references_are_recorded(s: Session, t: TyView, i: InstanceView)
    requires
        closed(s),
        ty_refs(s.tcx, t).instances.contains(i),
    ensures
        closed(lower_ty(s, t).0),
        lower_ty(s, t).0.instances.contains(i),
{
    lemma_reach_ty(s, t);
    reveal(holds);
}

/// Lowering a type records the trait of every trait object and every
/// instantiation of a data type in it: nothing is lowered ahead of need,
/// and nothing that is referred to is left out.
pub proof fn law_traits_and_data_types_are_recorded(s: Session, t: TyView, ti: TraitInstView, ai: AdtInstView)
    requires
        closed(s),
    ensures
        ty_refs(s.tcx, t).traits.contains(ti) ==> lower_ty(s, t).0.traits.contains(ti),
        ty_refs(s.tcx, t).adts.contains(ai) ==> lower_ty(s, t).0.adts.contains(ai),
{
    lemma_reach_ty(s, t);
    reveal(holds);
}

/// The same for a constant.
pub proof fn law_const_references_are_recorded(s: Session, c: ConstView, i: InstanceView)
    requires
        closed(s),
        const_refs(s.tcx, c).instances.contains(i),
    ensures
        closed(lower_const(s, c).0),
        lower_const(s, c).0.instances.contains(i),
{
    lemma_reach_const(s, c);
    reveal(holds);
}

/// The instances that a clone adapter for the first `n` parts calls.
pub open spec fn callee_refs(tcx: TyCtxtView, d: DefIdView, parts: Seq<TyView>, n: nat) -> Refs
    decreases n,
{
    if n == 0 || n > parts.len() {
        Refs::none()
    } else {
        callee_refs(tcx, d, parts, (n - 1) as nat).union(
            opt_set(tcx.resolve(d, seq![GenericArgView::Type(parts[n - 1])])),
        )
    }
}

/// What the lowered form of an instance refers to: what its arguments and
/// its type refer to, for a clone adapter the functions that it calls, for
/// a dynamic dispatch the trait. (The arguments of a dynamic dispatch are
/// not lowered.)
pub open spec fn instance_refs(tcx: TyCtxtView, i: InstanceView) -> Refs {
    match i.def {
        InstanceDefView::Virtual(_, _, ti) => Refs::trait_inst(ti),
        InstanceDefView::FnPtrShim(_, ty) => args_refs(tcx, i.substs, i.substs.len()).union(ty_refs(tcx, ty)),
        InstanceDefView::DropGlue(_, Some(ty)) => args_refs(tcx, i.substs, i.substs.len()).union(
            ty_refs(tcx, ty),
        ),
        InstanceDefView::CloneShim(d, ty) => callee_refs(tcx, d, clone_parts(ty), clone_parts(ty).len()).union(
            args_refs(tcx, i.substs, i.substs.len()),
        ).union(ty_refs(tcx, ty)),
        _ => args_refs(tcx, i.substs, i.substs.len()),
    }
}

pub proof fn lemma_reach_clone_callees(s: Session, d: DefIdView, parts: Seq<TyView>, n: nat)
    requires
        closed(s),
    ensures
        closed(clone_callees(s, d, parts, n).0),
        holds(clone_callees(s, d, parts, n).0, callee_refs(s.tcx, d, parts, n)),
        clone_callees(s, d, parts, n).0.tcx == s.tcx,
    decreases n,
{
    crate::growth::lemma_step_clone_callees(s, d, parts, n);
    lemma_closed_grow(s, clone_callees(s, d, parts, n).0);
    if n == 0 || n > parts.len() {
        lemma_holds_empty(s);
    } else {
        lemma_reach_clone_callees(s, d, parts, (n - 1) as nat);
        let s1 = clone_callees(s, d, parts, (n - 1) as nat).0;
        let s2 = clone_callees(s, d, parts, n).0;
        let r = s.tcx.resolve(d, seq![GenericArgView::Type(parts[n - 1])]);
        match r {
            Some(inst) => {
                lemma_step_instance(s1, inst);
                lemma_holds_grow(s1, s2, callee_refs(s.tcx, d, parts, (n - 1) as nat));
                lemma_added(s1.instances, inst);
                assert(holds(s2, opt_set(r))) by {
                    reveal(holds);
                }
            },
            None => {
                lemma_holds_empty(s2);
            },
        }
        lemma_holds_union(s2, callee_refs(s.tcx, d, parts, (n - 1) as nat), opt_set(r));
    }
}

/// Lowering an instance keeps a closed session closed and records what the
/// instance refers to.
pub proof fn lemma_reach_instance(s: Session, i: InstanceView)
    requires
        closed(s),
    ensures
        closed(lower_instance(s, i).0),
        holds(lower_instance(s, i).0, instance_refs(s.tcx, i)),
{
    lemma_reach_args(s, i.substs, i.substs.len());
    let s1 = lower_args(s, i.substs, i.substs.len()).0;
    let ar = args_refs(s.tcx, i.substs, i.substs.len());
    match i.def {
        InstanceDefView::FnPtrShim(d, ty) => {
            lemma_reach_ty(s1, ty);
            lemma_step_ty(s1, ty);
            lemma_holds_grow(s1, lower_ty(s1, ty).0, ar);
            lemma_holds_union(lower_ty(s1, ty).0, ar, ty_refs(s.tcx, ty));
        },
        InstanceDefView::Virtual(d, slot, ti) => {
            lemma_step_trait(s, ti);
            lemma_closed_grow(s, s.with_trait(ti));
            lemma_holds_trait(s, ti);
        },
        InstanceDefView::DropGlue(d, ty) => {
            match ty {
                Some(t) => {
                    lemma_reach_ty(s1, t);
                    lemma_step_ty(s1, t);
                    lemma_holds_grow(s1, lower_ty(s1, t).0, ar);
                    lemma_holds_union(lower_ty(s1, t).0, ar, ty_refs(s.tcx, t));
                },
                None => {},
            }
        },
        InstanceDefView::CloneShim(d, ty) => {
            let s0 = clone_start(s, ty);
            lemma_step_diagnostic(s, DiagnosticView::UnknownCloneShim(ty));
            lemma_step_refl(s);
            lemma_closed_grow(s, s0);
            let parts = clone_parts(ty);
            lemma_reach_clone_callees(s0, d, parts, parts.len());
            let sc = clone_callees(s0, d, parts, parts.len()).0;
            let cr = callee_refs(s.tcx, d, parts, parts.len());
            lemma_reach_args(sc, i.substs, i.substs.len());
            lemma_step_args(sc, i.substs, i.substs.len());
            let sa = lower_args(sc, i.substs, i.substs.len()).0;
            lemma_holds_grow(sc, sa, cr);
            lemma_holds_union(sa, cr, ar);
            lemma_reach_ty(sa, ty);
            lemma_step_ty(sa, ty);
            let st = lower_ty(sa, ty).0;
            lemma_holds_grow(sa, st, cr.union(ar));
            lemma_holds_union(st, cr.union(ar), ty_refs(s.tcx, ty));
        },
        _ => {},
    }
}

/// Lowering an instance records every instance that its lowered form
/// refers to, among them the callees of a clone adapter and what a drop
/// glue's type refers to, and keeps a closed session closed.
pub proof fn law_instance_references_are_recorded(s: Session, i: InstanceView, r: InstanceView)
    requires
        closed(s),
        instance_refs(s.tcx, i).instances.contains(r),
    ensures
        closed(lower_instance(s, i).0),
        lower_instance(s, i).0.instances.contains(r),
{
    lemma_reach_instance(s, i);
    reveal(holds);
}

/// Naming a call target, as for a direct call, a function pointer or the
/// filler of a vtable slot, records the instance that the target resolves
/// to, and keeps a closed session closed.
pub proof fn law_call_target_is_recorded(s: Session, d: DefIdView, args: Seq<GenericArgView>)
    requires
        closed(s),
    ensures
        closed(resolved_name(s, d, args).0),
        s.tcx.resolve(d, args) matches Some(inst) ==> resolved_name(s, d, args).0.instances.contains(inst),
{
    lemma_reach_resolved_name(s, d, args);
    reveal(holds);
    match s.tcx.resolve(d, args) {
        Some(inst) => {
            assert(opt_set(s.tcx.resolve(d, args)).instances.contains(inst));
        },
        None => {},
    }
}

/// Whether each member of `path` but the first is referred to by the member
/// before it.
pub open spec fn is_chain<A>(refs: spec_fn(A) -> Set<A>, path: Seq<A>) -> bool {
    forall|k: int| 0 <= k < path.len() - 1 ==> refs(#[trigger] path[k]).contains(path[k + 1])
}

/// The fixed point holds the closure. A set that holds a root and, with
/// each of its members, everything that the member refers to holds
/// everything that can be reached from the root along references.
pub proof fn law_closed_set_holds_all_reachable<A>(present: Set<A>, refs: spec_fn(A) -> Set<A>, path: Seq<A>)
    requires
        path.len() > 0,
        present.contains(path[0]),
        forall|a: A, b: A| present.contains(a) && #[trigger] refs(a).contains(b) ==> present.contains(b),
        is_chain(refs, path),
    ensures
        present.contains(path.last()),
    decreases path.len(),
{
    if path.len() > 1 {
        let front = path.drop_last();
        assert forall|k: int| 0 <= k < front.len() - 1 implies refs(#[trigger] front[k]).contains(
            front[k + 1],
        ) by {
            assert(front[k] == path[k]);
            assert(front[k + 1] == path[k + 1]);
        }
        law_closed_set_holds_all_reachable(present, refs, front);
        let k = path.len() - 2;
        assert(front.last() == path[k]);
        assert(refs(path[k]).contains(path[k + 1]));
    }
}

/// Whether what each of the first `n` recorded instances refers to has
/// been recorded: the state of a frontend that has emitted the first `n`
/// instances.
pub open spec fn drained(s: Session, n: nat) -> bool {
    n <= s.instances.len() && forall|k: int|
        0 <= k < n ==> holds(s, instance_refs(s.tcx, #[trigger] s.instances[k]))
}

/// Draining makes progress and loses nothing. In a closed session of which
/// the first `n` instances are drained, lowering the next instance leaves
/// the first `n + 1` drained and the session closed; what it adds, it adds
/// at the end.
pub proof fn law_draining_one_more(s: Session, n: nat)
    requires
        closed(s),
        drained(s, n),
        n < s.instances.len(),
    ensures
        closed(lower_instance(s, s.instances[n as int]).0),
        drained(lower_instance(s, s.instances[n as int]).0, n + 1),
        starts_with(lower_instance(s, s.instances[n as int]).0.instances, s.instances),
{
    let inst = s.instances[n as int];
    let later = lower_instance(s, inst).0;
    lemma_reach_instance(s, inst);
    crate::growth::lemma_step_lower_instance(s, inst);
    assert(starts_with(later.instances, s.instances) && later.tcx == s.tcx) by {
        reveal(step);
    }
    assert forall|k: int| 0 <= k < n + 1 implies holds(
        later,
        instance_refs(later.tcx, #[trigger] later.instances[k]),
    ) by {
        assert(later.instances[k] == s.instances[k]);
        if k < n {
            lemma_holds_grow(s, later, instance_refs(s.tcx, s.instances[k]));
        }
    }
}

/// When every recorded instance is drained, nothing reachable is missing:
/// every instance that can be reached from a recorded one, along what the
/// lowered forms refer to, is recorded.
pub proof fn law_drained_session_holds_all_reachable(s: Session, path: Seq<InstanceView>)
    requires
        drained(s, s.instances.len()),
        path.len() > 0,
        s.instances.contains(path[0]),
        is_chain(|i: InstanceView| instance_refs(s.tcx, i).instances, path),
    ensures
        s.instances.contains(path.last()),
{
    let refs = |i: InstanceView| instance_refs(s.tcx, i).instances;
    let present = Set::new(|i: InstanceView| s.instances.contains(i));
    assert forall|a: InstanceView, b: InstanceView| present.contains(a) && #[trigger] refs(a).contains(
        b,
    ) implies present.contains(b) by {
        let k = choose|k: int| 0 <= k < s.instances.len() && s.instances[k] == a;
        assert(holds(s, instance_refs(s.tcx, s.instances[k])));
        reveal(holds);
    }
    law_closed_set_holds_all_reachable(present, refs, path);
}

} // verus!
