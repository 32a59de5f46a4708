//! A session only grows: lowering appends to the interning table and to the
//! sets of what is used, and changes nothing that is there. So the ID of a
//! type never changes, and nothing is listed twice.
use vstd::prelude::*;
use crate::adt::{each_lowered, lower_adt, lower_discr, AdtDef, FieldDef, ToJsonAg, VariantDef, VariantDiscr};
use crate::assoc::{
    gathered_predicates, lower_assoc_item, lower_generic_predicates, lower_predicate, lower_predicates, AssocItem,
    GenericPredicates, Predicate,
};
use crate::instance::{clone_callees, clone_parts, clone_start, lower_instance};
use crate::subst::subst_ty;
use crate::types::args_view;
use crate::json::Json;
use crate::lowered::{
    const_head, lower_arg, lower_args, lower_const, lower_pred, lower_preds, lower_projection, lower_sig,
    lower_trait_ref, lower_ty, lower_tys, rendered, rendered_value, resolved_name, resolved_promoted_name,
    trait_inst_of, ty_body,
};
use crate::session::{added, lemma_position, position, DiagnosticView, Session};
use crate::types::{
    AdtInstView, ConstKindView, ConstValueView, ConstView, DefIdView, ExistentialPredicateView,
    ExistentialProjectionView, ExistentialTraitRefView, FnSigView, GenericArgView, InstanceDefView, InstanceView,
    TraitInstView, TyView,
};

verus! {

/// Whether `b` begins with `a`.
pub open spec fn starts_with<A>(b: Seq<A>, a: Seq<A>) -> bool {
    a.len() <= b.len() && forall|i: int| 0 <= i < a.len() ==> a[i] == b[i]
}

impl Session {
    /// Whether nothing is listed twice: no type has two IDs, and each set of
    /// what is used holds each of its members once.
    pub open spec fn wf(self) -> bool {
        &&& self.keys.len() == self.bodies.len()
        &&& self.keys.no_duplicates()
        &&& self.instances.no_duplicates()
        &&& self.traits.no_duplicates()
        &&& self.adts.no_duplicates()
    }

    /// Whether `later` is this session grown: the host's answers are the
    /// same, and each table of `later` begins with that of `self`.
    pub open spec fn extends_to(self, later: Session) -> bool {
        &&& later.tcx == self.tcx
        &&& starts_with(later.keys, self.keys)
        &&& starts_with(later.bodies, self.bodies)
        &&& starts_with(later.instances, self.instances)
        &&& starts_with(later.traits, self.traits)
        &&& starts_with(later.adts, self.adts)
        &&& starts_with(later.diagnostics, self.diagnostics)
    }
}

/// One step of lowering: the session has grown, and if nothing was listed
/// twice before, nothing is now.
#[verifier::opaque]
pub open spec fn step(s: Session, later: Session) -> bool {
    s.extends_to(later) && (s.wf() ==> later.wf())
}

pub proof fn lemma_step_refl(s: Session)
    ensures
        step(s, s),
{
    reveal(step);
}

pub proof fn lemma_step_trans(a: Session, b: Session, c: Session)
    requires
        step(a, b),
        step(b, c),
    ensures
        step(a, c),
{
    reveal(step);
}

pub proof fn lemma_added<A>(s: Seq<A>, x: A)
    ensures
        starts_with(added(s, x), s),
        s.no_duplicates() ==> added(s, x).no_duplicates(),
        added(s, x).contains(x),
{
    if !s.contains(x) {
        assert(s.push(x)[s.len() as int] == x);
    }
}

pub proof fn lemma_step_interned(s: Session, t: TyView, body: Json)
    ensures
        step(s, s.interned(t, body)),
        s.interned(t, body).ty_id(t) == Some(s.id_after(t)),
{
    reveal(step);
    lemma_position(s.keys, t);
    lemma_position(s.interned(t, body).keys, t);
    if s.ty_id(t) is None {
        let k = s.keys.push(t);
        assert(k[s.keys.len() as int] == t);
    }
}

pub proof fn lemma_step_instance(s: Session, i: InstanceView)
    ensures
        step(s, s.with_instance(i)),
{
    reveal(step);
    lemma_added(s.instances, i);
}

pub proof fn lemma_step_trait(s: Session, t: TraitInstView)
    ensures
        step(s, s.with_trait(t)),
{
    reveal(step);
    lemma_added(s.traits, t);
}

pub proof fn lemma_step_adt(s: Session, a: AdtInstView)
    ensures
        step(s, s.with_adt(a)),
{
    reveal(step);
    lemma_added(s.adts, a);
}

pub proof fn lemma_step_diagnostic(s: Session, d: DiagnosticView)
    ensures
        step(s, s.with_diagnostic(d)),
{
    reveal(step);
}

pub proof fn lemma_step_resolved_name(s: Session, d: DefIdView, args: Seq<GenericArgView>)
    ensures
        step(s, resolved_name(s, d, args).0),
        step(s, resolved_promoted_name(s, d, args, None).0),
{
    match s.tcx.resolve(d, args) {
        Some(inst) => lemma_step_instance(s, inst),
        None => lemma_step_diagnostic(s, DiagnosticView::UnresolvedFn(d, args)),
    }
}

pub proof fn lemma_step_rendered(s: Session, ty: TyView, v: Option<ConstValueView>)
    ensures
        step(s, rendered_value(s, ty, v).0),
        v matches Some(x) ==> step(s, rendered(s, ty, x).0),
{
    lemma_step_refl(s);
    match ty {
        TyView::FnDef(d, args) => {
            lemma_step_resolved_name(s, d, args);
        },
        _ => {},
    }
}

pub proof fn lemma_step_const_head(s: Session, ty: Json, k: ConstKindView)
    ensures
        step(s, const_head(s, ty, k).0),
{
    lemma_step_refl(s);
    match k {
        ConstKindView::Unevaluated(d, args, promoted) => {
            lemma_step_resolved_name(s, d, args);
        },
        _ => {},
    }
}

/// Lowering a type is a step.
pub proof fn lemma_step_ty(s: Session, t: TyView)
    ensures
        step(s, lower_ty(s, t).0),
    decreases t, 1nat,
{
    match s.ty_id(t) {
        Some(_) => lemma_step_refl(s),
        None => {
            lemma_step_ty_body(s, t);
            lemma_step_interned(ty_body(s, t).0, t, ty_body(s, t).1);
            lemma_step_trans(s, ty_body(s, t).0, lower_ty(s, t).0);
        },
    }
}

/// Lowering the parts of a type is a step.
pub proof fn lemma_step_ty_body(s: Session, t: TyView)
    ensures
        step(s, ty_body(s, t).0),
    decreases t, 0nat,
{
    lemma_step_refl(s);
    match t {
        TyView::Adt(d, args) => {
            let ai = AdtInstView { adt: d, substs: args };
            lemma_step_adt(s, ai);
            lemma_step_args(s.with_adt(ai), args, args.len());
            lemma_step_trans(s, s.with_adt(ai), ty_body(s, t).0);
        },
        TyView::Array(e, n) => {
            lemma_step_ty(s, *e);
            lemma_step_const(lower_ty(s, *e).0, *n);
            lemma_step_trans(s, lower_ty(s, *e).0, ty_body(s, t).0);
        },
        TyView::Slice(e) => {
            lemma_step_ty(s, *e);
        },
        TyView::RawPtr(e, _) => {
            lemma_step_ty(s, *e);
        },
        TyView::Ref(e, _) => {
            lemma_step_ty(s, *e);
        },
        TyView::FnDef(d, args) => {
            lemma_step_resolved_name(s, d, args);
        },
        TyView::FnPtr(sig) => {
            lemma_step_sig(s, *sig);
        },
        TyView::Dynamic(preds) => {
            let ti = trait_inst_of(preds);
            lemma_step_trait(s, ti);
            lemma_step_preds(s.with_trait(ti), preds, preds.len());
            lemma_step_trans(s, s.with_trait(ti), ty_body(s, t).0);
        },
        TyView::Closure(d, args, upvars) => {
            lemma_step_args(s, args, args.len());
            lemma_step_tys(lower_args(s, args, args.len()).0, upvars, upvars.len());
            lemma_step_trans(s, lower_args(s, args, args.len()).0, ty_body(s, t).0);
        },
        TyView::Tuple(tys) => {
            lemma_step_tys(s, tys, tys.len());
        },
        TyView::Projection(d, args) => {
            lemma_step_args(s, args, args.len());
        },
        TyView::UnnormalizedProjection(d, args) => {
            lemma_step_args(s, args, args.len());
        },
        _ => {},
    }
}

pub proof fn lemma_step_tys(s: Session, ts: Seq<TyView>, n: nat)
    ensures
        step(s, lower_tys(s, ts, n).0),
    decreases ts, n,
{
    if n == 0 || n > ts.len() {
        lemma_step_refl(s);
    } else {
        lemma_step_tys(s, ts, (n - 1) as nat);
        lemma_step_ty(lower_tys(s, ts, (n - 1) as nat).0, ts[n - 1]);
        lemma_step_trans(s, lower_tys(s, ts, (n - 1) as nat).0, lower_tys(s, ts, n).0);
    }
}

pub proof fn lemma_step_arg(s: Session, a: GenericArgView)
    ensures
        step(s, lower_arg(s, a).0),
    decreases a,
{
    match a {
        GenericArgView::Type(t) => lemma_step_ty(s, t),
        _ => lemma_step_refl(s),
    }
}

pub proof fn lemma_step_args(s: Session, args: Seq<GenericArgView>, n: nat)
    ensures
        step(s, lower_args(s, args, n).0),
    decreases args, n,
{
    if n == 0 || n > args.len() {
        lemma_step_refl(s);
    } else {
        lemma_step_args(s, args, (n - 1) as nat);
        lemma_step_arg(lower_args(s, args, (n - 1) as nat).0, args[n - 1]);
        lemma_step_trans(s, lower_args(s, args, (n - 1) as nat).0, lower_args(s, args, n).0);
    }
}

pub proof fn lemma_step_sig(s: Session, sig: FnSigView)
    ensures
        step(s, lower_sig(s, sig).0),
    decreases sig,
{
    lemma_step_tys(s, sig.inputs, sig.inputs.len());
    lemma_step_ty(lower_tys(s, sig.inputs, sig.inputs.len()).0, sig.output);
    lemma_step_trans(s, lower_tys(s, sig.inputs, sig.inputs.len()).0, lower_sig(s, sig).0);
}

pub proof fn lemma_step_trait_ref(s: Session, t: ExistentialTraitRefView)
    ensures
        step(s, lower_trait_ref(s, t).0),
    decreases t,
{
    lemma_step_args(s, t.substs, t.substs.len());
}

pub proof fn lemma_step_projection(s: Session, p: ExistentialProjectionView)
    ensures
        step(s, lower_projection(s, p).0),
    decreases p,
{
    lemma_step_args(s, p.substs, p.substs.len());
    lemma_step_ty(lower_args(s, p.substs, p.substs.len()).0, p.ty);
    lemma_step_trans(s, lower_args(s, p.substs, p.substs.len()).0, lower_projection(s, p).0);
}

pub proof fn lemma_step_pred(s: Session, p: ExistentialPredicateView)
    ensures
        step(s, lower_pred(s, p).0),
    decreases p,
{
    match p {
        ExistentialPredicateView::Trait(t) => lemma_step_trait_ref(s, t),
        ExistentialPredicateView::Projection(q) => lemma_step_projection(s, q),
        ExistentialPredicateView::AutoTrait(_) => lemma_step_refl(s),
    }
}

pub proof fn lemma_step_preds(s: Session, ps: Seq<ExistentialPredicateView>, n: nat)
    ensures
        step(s, lower_preds(s, ps, n).0),
    decreases ps, n,
{
    if n == 0 || n > ps.len() {
        lemma_step_refl(s);
    } else {
        lemma_step_preds(s, ps, (n - 1) as nat);
        lemma_step_pred(lower_preds(s, ps, (n - 1) as nat).0, ps[n - 1]);
        lemma_step_trans(s, lower_preds(s, ps, (n - 1) as nat).0, lower_preds(s, ps, n).0);
    }
}

pub proof fn lemma_step_const(s: Session, c: ConstView)
    ensures
        step(s, lower_const(s, c).0),
    decreases c,
{
    lemma_step_ty(s, c.ty);
    let s1 = lower_ty(s, c.ty).0;
    lemma_step_const_head(s1, lower_ty(s, c.ty).1, c.val);
    let s2 = const_head(s1, lower_ty(s, c.ty).1, c.val).0;
    lemma_step_rendered(s2, c.ty, crate::lowered::evaluated(s.tcx, c.val));
    lemma_step_trans(s, s1, s2);
    lemma_step_trans(s, s2, lower_const(s, c).0);
}

/// In a session that has grown, a type that was interned has the ID it
/// had.
pub proof fn lemma_position_extends<A>(a: Seq<A>, b: Seq<A>, x: A)
    requires
        starts_with(b, a),
        position(a, x) is Some,
    ensures
        position(b, x) == position(a, x),
{
    lemma_position(a, x);
    lemma_position(b, x);
    let i = position(a, x)->Some_0;
    assert(b[i] == x);
    match position(b, x) {
        Some(j) => {
            if j < i {
                assert(a[j] == b[j]);
            }
        },
        None => {},
    }
}

/// A session that holds nothing lists nothing twice.
pub proof fn law_fresh_session_is_well_formed(s: Session)
    requires
        s.keys.len() == 0,
        s.bodies.len() == 0,
        s.instances.len() == 0,
        s.traits.len() == 0,
        s.adts.len() == 0,
    ensures
        s.wf(),
{
}

/// Interning is idempotent. Lowering a type leaves it interned under the ID
/// that was returned; lowering it once more, at once or after any further
/// lowering of other types, returns the same ID and changes nothing.
pub proof fn law_interning_is_idempotent(s: Session, t: TyView)
    ensures
        lower_ty(s, t).0.ty_id(t) is Some,
        lower_ty(s, t).1 == Json::Num(lower_ty(s, t).0.ty_id(t)->Some_0),
        lower_ty(lower_ty(s, t).0, t) == lower_ty(s, t),
{
    match s.ty_id(t) {
        Some(_) => {},
        None => {
            lemma_step_interned(ty_body(s, t).0, t, ty_body(s, t).1);
        },
    }
}

/// The lowered form of a type is stored once. Where no type of a session
/// has two IDs, none has after a type has been lowered, so the type lowered
/// stands in the table exactly once.
pub proof fn law_type_is_stored_once(s: Session, t: TyView)
    requires
        s.wf(),
    ensures
        lower_ty(s, t).0.wf(),
        occurrences(lower_ty(s, t).0.keys, t) == 1,
{
    reveal(step);
    lemma_step_ty(s, t);
    law_interning_is_idempotent(s, t);
    let keys = lower_ty(s, t).0.keys;
    lemma_position(keys, t);
    lemma_count_one(keys, t, position(keys, t)->Some_0);
}

/// How often `x` occurs in `s`.
pub open spec fn occurrences<A>(s: Seq<A>, x: A) -> nat
    decreases s.len(),
{
    if s.len() == 0 {
        0
    } else if s.last() == x {
        occurrences(s.drop_last(), x) + 1
    } else {
        occurrences(s.drop_last(), x)
    }
}

/// In a list without repetition, an element that occurs does so once.
pub proof fn lemma_count_one<A>(s: Seq<A>, x: A, i: int)
    requires
        s.no_duplicates(),
        0 <= i < s.len(),
        s[i] == x,
    ensures
        occurrences(s, x) == 1,
    decreases s.len(),
{
    let front = s.drop_last();
    if i == s.len() - 1 {
        assert forall|j: int| 0 <= j < front.len() implies front[j] != x by {
            assert(front[j] == s[j]);
        }
        lemma_count_zero(front, x);
    } else {
        assert(front[i] == x);
        lemma_count_one(front, x, i);
        assert(s.last() != x);
    }
}

/// An element that is not in a list occurs in it no times.
pub proof fn lemma_count_zero<A>(s: Seq<A>, x: A)
    requires
        forall|j: int| 0 <= j < s.len() ==> s[j] != x,
    ensures
        occurrences(s, x) == 0,
    decreases s.len(),
{
    if s.len() > 0 {
        let front = s.drop_last();
        assert forall|j: int| 0 <= j < front.len() implies front[j] != x by {
            assert(front[j] == s[j]);
        }
        lemma_count_zero(front, x);
    }
}

/// IDs are stable, and are given in the order of first discovery. Whatever
/// type is lowered, every type that was interned before keeps its ID, and
/// the IDs given meanwhile are the next ones.
pub proof fn law_ids_are_stable(s: Session, t: TyView, earlier: TyView)
    requires
        s.ty_id(earlier) is Some,
    ensures
        lower_ty(s, t).0.ty_id(earlier) == s.ty_id(earlier),
        starts_with(lower_ty(s, t).0.keys, s.keys),
        starts_with(lower_ty(s, t).0.bodies, s.bodies),
{
    reveal(step);
    lemma_step_ty(s, t);
    lemma_position_extends(s.keys, lower_ty(s, t).0.keys, earlier);
}

/// The sets of what is used only grow, in the order of first use: whatever
/// type is lowered, what was recorded stays recorded, at its place.
pub proof fn law_used_sets_only_grow(s: Session, t: TyView)
    ensures
        starts_with(lower_ty(s, t).0.instances, s.instances),
        starts_with(lower_ty(s, t).0.traits, s.traits),
        starts_with(lower_ty(s, t).0.adts, s.adts),
        lower_ty(s, t).0.tcx == s.tcx,
{
    reveal(step);
    lemma_step_ty(s, t);
}

/// Listing the callees of a clone adapter is a step.
pub proof fn lemma_step_clone_callees(s: Session, d: DefIdView, parts: Seq<TyView>, n: nat)
    ensures
        step(s, clone_callees(s, d, parts, n).0),
        clone_callees(s, d, parts, n).0.keys == s.keys,
        clone_callees(s, d, parts, n).0.tcx == s.tcx,
    decreases n,
{
    if n == 0 || n > parts.len() {
        lemma_step_refl(s);
    } else {
        lemma_step_clone_callees(s, d, parts, (n - 1) as nat);
        let s1 = clone_callees(s, d, parts, (n - 1) as nat).0;
        match s.tcx.resolve(d, seq![GenericArgView::Type(parts[n - 1])]) {
            Some(inst) => {
                lemma_step_instance(s1, inst);
                lemma_step_trans(s, s1, s1.with_instance(inst));
            },
            None => {},
        }
    }
}

/// Lowering an instance is a step.
pub proof fn lemma_step_lower_instance(s: Session, i: InstanceView)
    ensures
        step(s, lower_instance(s, i).0),
{
    lemma_step_refl(s);
    lemma_step_args(s, i.substs, i.substs.len());
    let s1 = lower_args(s, i.substs, i.substs.len()).0;
    match i.def {
        InstanceDefView::FnPtrShim(d, ty) => {
            lemma_step_ty(s1, ty);
            lemma_step_trans(s, s1, lower_ty(s1, ty).0);
        },
        InstanceDefView::Virtual(d, slot, ti) => {
            lemma_step_trait(s, ti);
        },
        InstanceDefView::DropGlue(d, ty) => {
            match ty {
                Some(t) => {
                    lemma_step_ty(s1, t);
                    lemma_step_trans(s, s1, lower_ty(s1, t).0);
                },
                None => {},
            }
        },
        InstanceDefView::CloneShim(d, ty) => {
            let s0 = clone_start(s, ty);
            lemma_step_diagnostic(s, DiagnosticView::UnknownCloneShim(ty));
            let parts = clone_parts(ty);
            lemma_step_clone_callees(s0, d, parts, parts.len());
            let sc = clone_callees(s0, d, parts, parts.len()).0;
            lemma_step_trans(s, s0, sc);
            lemma_step_args(sc, i.substs, i.substs.len());
            let sa = lower_args(sc, i.substs, i.substs.len()).0;
            lemma_step_trans(s, sc, sa);
            lemma_step_ty(sa, ty);
            lemma_step_trans(s, sa, lower_ty(sa, ty).0);
        },
        _ => {},
    }
}

/// Every lowering of a type, a constant or an instance only appends: what
/// the session held, it holds at the same place afterwards; and where
/// nothing was listed twice, nothing is afterwards.
pub proof fn law_lowering_only_appends(s: Session, t: TyView, c: ConstView, i: InstanceView)
    ensures
        s.extends_to(lower_ty(s, t).0),
        s.extends_to(lower_const(s, c).0),
        s.extends_to(lower_instance(s, i).0),
        s.wf() ==> lower_ty(s, t).0.wf() && lower_const(s, c).0.wf() && lower_instance(s, i).0.wf(),
{
    reveal(step);
    lemma_step_ty(s, t);
    lemma_step_const(s, c);
    lemma_step_lower_instance(s, i);
}

/// Naming a call target only appends, and records its instance once: in a
/// session in which nothing is listed twice, naming the same target again,
/// by whichever way it is reached, records nothing more.
pub proof fn law_call_target_is_recorded_once(s: Session, d: DefIdView, args: Seq<GenericArgView>)
    requires
        s.tcx.resolve(d, args) is Some,
    ensures
        s.extends_to(resolved_name(s, d, args).0),
        s.wf() ==> resolved_name(s, d, args).0.wf(),
        resolved_name(s, d, args).0.instances.contains(s.tcx.resolve(d, args)->Some_0),
        resolved_name(resolved_name(s, d, args).0, d, args) == resolved_name(s, d, args),
{
    reveal(step);
    lemma_step_resolved_name(s, d, args);
    lemma_added(s.instances, s.tcx.resolve(d, args)->Some_0);
}

pub proof fn lemma_step_discr(s: Session, d: VariantDiscr)
    ensures
        step(s, lower_discr(s, d).0),
{
    match d {
        VariantDiscr::Relative(_) => lemma_step_refl(s),
        VariantDiscr::Explicit(def_id) => lemma_step_resolved_name(s, def_id@, Seq::<GenericArgView>::empty()),
    }
}

pub proof fn lemma_step_fields(fields: Seq<FieldDef>, s: Session, substs: Seq<GenericArgView>, n: nat)
    ensures
        step(s, each_lowered(fields, s, substs, n).0),
    decreases n,
{
    if n == 0 || n > fields.len() {
        lemma_step_refl(s);
    } else {
        lemma_step_fields(fields, s, substs, (n - 1) as nat);
        let s1 = each_lowered(fields, s, substs, (n - 1) as nat).0;
        lemma_step_ty(s1, subst_ty(fields[n - 1].ty@, substs));
        lemma_step_trans(s, s1, each_lowered(fields, s, substs, n).0);
    }
}

pub proof fn lemma_step_variant(v: VariantDef, s: Session, substs: Seq<GenericArgView>)
    ensures
        step(s, v.lowered(s, substs).0),
{
    lemma_step_discr(s, v.discr);
    let s1 = lower_discr(s, v.discr).0;
    lemma_step_fields(v.fields@, s1, substs, v.fields@.len());
    lemma_step_trans(s, s1, v.lowered(s, substs).0);
}

pub proof fn lemma_step_variants(variants: Seq<VariantDef>, s: Session, substs: Seq<GenericArgView>, n: nat)
    ensures
        step(s, each_lowered(variants, s, substs, n).0),
    decreases n,
{
    if n == 0 || n > variants.len() {
        lemma_step_refl(s);
    } else {
        lemma_step_variants(variants, s, substs, (n - 1) as nat);
        let s1 = each_lowered(variants, s, substs, (n - 1) as nat).0;
        lemma_step_variant(variants[n - 1], s1, substs);
        lemma_step_trans(s, s1, each_lowered(variants, s, substs, n).0);
    }
}

pub proof fn lemma_step_adt_def(s: Session, ai: AdtInstView, adt: AdtDef)
    ensures
        step(s, lower_adt(s, ai, adt).0),
{
    lemma_step_variants(adt.variants@, s, ai.substs, adt.variants@.len());
    let s1 = adt.variants.lowered(s, ai.substs).0;
    lemma_step_args(s1, ai.substs, ai.substs.len());
    lemma_step_trans(s, s1, lower_adt(s, ai, adt).0);
}

pub proof fn lemma_step_predicate(s: Session, p: Predicate)
    ensures
        step(s, lower_predicate(s, p).0),
{
    match p {
        Predicate::Trait(t) => {
            lemma_step_args(s, args_view(t.substs@), t.substs@.len());
        },
        Predicate::Projection(q) => {
            lemma_step_args(s, args_view(q.projection_ty.substs@), q.projection_ty.substs@.len());
            let s1 = lower_args(s, args_view(q.projection_ty.substs@), q.projection_ty.substs@.len()).0;
            lemma_step_ty(s1, q.ty@);
            lemma_step_trans(s, s1, lower_predicate(s, p).0);
        },
        Predicate::Other => lemma_step_refl(s),
    }
}

pub proof fn lemma_step_predicates(s: Session, ps: Seq<Predicate>, n: nat)
    ensures
        step(s, lower_predicates(s, ps, n).0),
    decreases n,
{
    if n == 0 || n > ps.len() {
        lemma_step_refl(s);
    } else {
        lemma_step_predicates(s, ps, (n - 1) as nat);
        let s1 = lower_predicates(s, ps, (n - 1) as nat).0;
        lemma_step_predicate(s1, ps[n - 1]);
        lemma_step_trans(s, s1, lower_predicates(s, ps, n).0);
    }
}

pub proof fn lemma_step_gathered(s: Session, g: GenericPredicates)
    ensures
        step(s, gathered_predicates(s, g).0),
    decreases g,
{
    lemma_step_predicates(s, g.predicates@, g.predicates@.len());
    match g.parent {
        Some(parent) => {
            let s1 = lower_predicates(s, g.predicates@, g.predicates@.len()).0;
            lemma_step_gathered(s1, *parent);
            lemma_step_trans(s, s1, gathered_predicates(s, g).0);
        },
        None => {},
    }
}

pub proof fn lemma_step_assoc_item(s: Session, item: AssocItem)
    ensures
        step(s, lower_assoc_item(s, item).0),
{
    lemma_step_gathered(s, item.predicates);
    let s1 = lower_generic_predicates(s, item.predicates).0;
    lemma_step_refl(s1);
    match item.ty {
        Some(t) => {
            lemma_step_ty(s1, t@);
        },
        None => {},
    }
    match item.sig {
        Some(sig) => {
            lemma_step_sig(s1, sig@);
        },
        None => {},
    }
    lemma_step_trans(s, s1, lower_assoc_item(s, item).0);
}

/// Lowering the definition of a data type, an associated item or the
/// predicates of a definition only appends, as every lowering does.
pub proof fn law_definitions_only_append(s: Session, ai: AdtInstView, adt: AdtDef, item: AssocItem)
    ensures
        s.extends_to(lower_adt(s, ai, adt).0),
        s.extends_to(lower_assoc_item(s, item).0),
        s.extends_to(lower_generic_predicates(s, item.predicates).0),
        s.wf() ==> lower_adt(s, ai, adt).0.wf() && lower_assoc_item(s, item).0.wf(),
{
    reveal(step);
    lemma_step_adt_def(s, ai, adt);
    lemma_step_assoc_item(s, item);
    lemma_step_gathered(s, item.predicates);
}

} // verus!
