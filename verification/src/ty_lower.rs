//! Lowering of types and of what types are made of. A type is interned: it
//! is lowered in full once, and referred to by its ID from then on.
use vstd::prelude::*;
use crate::copy::{copy_args, copy_projection, copy_trait_ref, copy_ty};
use crate::json::{
    fields_new, json_array, json_kind, json_empty_array, json_null, json_number, json_object, json_of,
    json_str, json_string, jsons_of, put, Json,
};
use crate::constant::{do_const_eval, render_value};
use crate::resolve::{get_fn_def_name, get_promoted_name};
use crate::lowered::{
    args_readable, arg_readable, const_readable, lower_arg, lower_args, lower_const, lower_pred, lower_preds,
    lower_projection, lower_sig, lower_trait_ref, lower_ty, lower_tys, pred_readable, preds_readable,
    projections_of, sig_readable, trait_inst_of, ty_body, ty_readable, tys_readable,
};
use crate::names::{adt_inst_id_str, def_id_str, trait_inst_id_str};
use crate::session::MirState;
use crate::types::{
    AdtInst, Const, ConstKind, ExistentialPredicate, ExistentialProjection, ExistentialTraitRef, FnSig,
    GenericArg, TraitInst, Ty,
};
use crate::types::{args_view, preds_view, projections_view, tys_view};

verus! {

impl TraitInst {
    /// The trait instance of a trait object with the given predicates.
    pub fn from_dynamic_predicates(preds: &Vec<ExistentialPredicate>) -> (ti: TraitInst)
        ensures
            ti@ == trait_inst_of(preds_view(preds@)),
    {
        let trait_ref: Option<ExistentialTraitRef> = if preds.len() > 0 {
            match &preds[0] {
                ExistentialPredicate::Trait(t) => Some(copy_trait_ref(t)),
                _ => None,
            }
        } else {
            None
        };
        let mut projs: Vec<ExistentialProjection> = Vec::new();
        let mut i: usize = 0;
        while i < preds.len()
            invariant
                i <= preds.len(),
                projections_view(projs@) == projections_of(preds_view(preds@), i as nat),
            decreases preds.len() - i,
        {
            match &preds[i] {
                ExistentialPredicate::Projection(p) => {
                    let ghost before = projections_view(projs@);
                    projs.push(copy_projection(p));
                    assert(projections_view(projs@) =~= before.push(p@));
                },
                _ => {},
            }
            i += 1;
        }
        TraitInst { trait_ref, projs }
    }
}

/// Whether a type has no parts to lower.
pub open spec fn is_simple(t: Ty) -> bool {
    match t {
        Ty::Bool | Ty::Char | Ty::Int(_) | Ty::Uint(_) | Ty::Float(_) | Ty::Foreign | Ty::Str
        | Ty::Generator | Ty::GeneratorWitness | Ty::Never | Ty::Opaque | Ty::Param(_) | Ty::Bound
        | Ty::Placeholder | Ty::Infer | Ty::Error => true,
        _ => false,
    }
}

fn simple_body(t: &Ty, mir: &MirState) -> (j: serde_json::Value)
    requires
        is_simple(*t),
    ensures
        mir@ == ty_body(mir@, t@).0,
        json_of(j) == ty_body(mir@, t@).1,
{
    match t {
        Ty::Bool => json_kind("Bool"),
        Ty::Char => json_kind("Char"),
        Ty::Int(i) => {
            let mut m = fields_new();
            put(&mut m, "kind", json_str("Int"));
            put(&mut m, "intkind", i.to_json());
            json_object(m)
        },
        Ty::Uint(u) => {
            let mut m = fields_new();
            put(&mut m, "kind", json_str("Uint"));
            put(&mut m, "uintkind", u.to_json());
            json_object(m)
        },
        Ty::Float(f) => {
            let mut m = fields_new();
            put(&mut m, "kind", json_str("Float"));
            put(&mut m, "size", f.to_json());
            json_object(m)
        },
        Ty::Foreign => json_kind("Foreign"),
        Ty::Str => json_kind("Str"),
        Ty::Generator => json_kind("Generator"),
        Ty::GeneratorWitness => json_kind("GeneratorWitness"),
        Ty::Never => json_kind("Never"),
        Ty::Opaque => json_kind("Opaque"),
        Ty::Param(i) => {
            let mut m = fields_new();
            put(&mut m, "kind", json_str("Param"));
            put(&mut m, "param", json_number(*i as u64));
            json_object(m)
        },
        Ty::Bound => json_kind("Bound"),
        Ty::Placeholder => json_kind("Placeholder"),
        Ty::Infer => json_kind("Infer"),
        _ => json_kind("Error"),
    }
}

fn pointer_body(t: &Ty, mir: &mut MirState) -> (j: serde_json::Value)
    requires
        *t is Slice || *t is RawPtr || *t is Ref,
        ty_readable(old(mir)@.tcx, t@),
    ensures
        final(mir)@ == ty_body(old(mir)@, t@).0,
        json_of(j) == ty_body(old(mir)@, t@).1,
        final(mir).tcx == old(mir).tcx,
    decreases t, 0nat,
{
    match t {
        Ty::Slice(e) => {
            let mut m = fields_new();
            put(&mut m, "kind", json_str("Slice"));
            put(&mut m, "ty", e.to_json(mir));
            json_object(m)
        },
        Ty::RawPtr(e, mutbl) => {
            let mut m = fields_new();
            put(&mut m, "kind", json_str("RawPtr"));
            put(&mut m, "ty", e.to_json(mir));
            put(&mut m, "mutability", mutbl.to_json());
            json_object(m)
        },
        Ty::Ref(e, mutbl) => {
            let mut m = fields_new();
            put(&mut m, "kind", json_str("Ref"));
            put(&mut m, "ty", e.to_json(mir));
            put(&mut m, "mutability", mutbl.to_json());
            json_object(m)
        },
        _ => json_null(),
    }
}

fn array_body(t: &Ty, mir: &mut MirState) -> (j: serde_json::Value)
    requires
        *t is Array,
        ty_readable(old(mir)@.tcx, t@),
    ensures
        final(mir)@ == ty_body(old(mir)@, t@).0,
        json_of(j) == ty_body(old(mir)@, t@).1,
        final(mir).tcx == old(mir).tcx,
    decreases t, 0nat,
{
    match t {
        Ty::Array(e, n) => {
            let mut m = fields_new();
            put(&mut m, "kind", json_str("Array"));
            put(&mut m, "ty", e.to_json(mir));
            put(&mut m, "size", n.to_json(mir));
            json_object(m)
        },
        _ => json_null(),
    }
}

fn adt_body(t: &Ty, mir: &mut MirState) -> (j: serde_json::Value)
    requires
        *t is Adt,
        ty_readable(old(mir)@.tcx, t@),
    ensures
        final(mir)@ == ty_body(old(mir)@, t@).0,
        json_of(j) == ty_body(old(mir)@, t@).1,
        final(mir).tcx == old(mir).tcx,
    decreases t, 0nat,
{
    match t {
        Ty::Adt(d, args) => {
            let ai = AdtInst { adt: d.clone(), substs: copy_args(args) };
            let name = adt_inst_id_str(&ai);
            mir.used.insert_type(ai);
            let mut m = fields_new();
            put(&mut m, "kind", json_str("Adt"));
            put(&mut m, "name", json_string(name));
            put(&mut m, "orig_def_id", json_string(def_id_str(d)));
            put(&mut m, "substs", json_array(args_to_json(args, mir)));
            json_object(m)
        },
        _ => json_null(),
    }
}

fn fn_def_body(t: &Ty, mir: &mut MirState) -> (j: serde_json::Value)
    requires
        *t is FnDef,
    ensures
        final(mir)@ == ty_body(old(mir)@, t@).0,
        json_of(j) == ty_body(old(mir)@, t@).1,
        final(mir).tcx == old(mir).tcx,
{
    match t {
        Ty::FnDef(d, args) => {
            let name = get_fn_def_name(mir, d, args);
            let mut m = fields_new();
            put(&mut m, "kind", json_str("FnDef"));
            put(&mut m, "defid", json_string(name));
            put(&mut m, "substs", json_empty_array());
            json_object(m)
        },
        _ => json_null(),
    }
}

fn fn_ptr_body(t: &Ty, mir: &mut MirState) -> (j: serde_json::Value)
    requires
        *t is FnPtr,
        ty_readable(old(mir)@.tcx, t@),
    ensures
        final(mir)@ == ty_body(old(mir)@, t@).0,
        json_of(j) == ty_body(old(mir)@, t@).1,
        final(mir).tcx == old(mir).tcx,
    decreases t, 0nat,
{
    match t {
        Ty::FnPtr(sig) => {
            let mut m = fields_new();
            put(&mut m, "kind", json_str("FnPtr"));
            put(&mut m, "signature", sig.to_json(mir));
            json_object(m)
        },
        _ => json_null(),
    }
}

fn dynamic_body(t: &Ty, mir: &mut MirState) -> (j: serde_json::Value)
    requires
        *t is Dynamic,
        ty_readable(old(mir)@.tcx, t@),
    ensures
        final(mir)@ == ty_body(old(mir)@, t@).0,
        json_of(j) == ty_body(old(mir)@, t@).1,
        final(mir).tcx == old(mir).tcx,
    decreases t, 0nat,
{
    match t {
        Ty::Dynamic(preds) => {
            let ti = TraitInst::from_dynamic_predicates(preds);
            let name = trait_inst_id_str(&ti);
            mir.used.insert_trait(ti);
            let mut m = fields_new();
            put(&mut m, "kind", json_str("Dynamic"));
            put(&mut m, "trait_id", json_string(name));
            put(&mut m, "predicates", json_array(preds_to_json(preds, mir)));
            json_object(m)
        },
        _ => json_null(),
    }
}

fn closure_body(t: &Ty, mir: &mut MirState) -> (j: serde_json::Value)
    requires
        *t is Closure,
        ty_readable(old(mir)@.tcx, t@),
    ensures
        final(mir)@ == ty_body(old(mir)@, t@).0,
        json_of(j) == ty_body(old(mir)@, t@).1,
        final(mir).tcx == old(mir).tcx,
    decreases t, 0nat,
{
    match t {
        Ty::Closure(d, args, upvars) => {
            let mut m = fields_new();
            put(&mut m, "kind", json_str("Closure"));
            put(&mut m, "defid", json_string(def_id_str(d)));
            put(&mut m, "closuresubsts", json_array(args_to_json(args, mir)));
            put(&mut m, "upvar_tys", json_array(tys_to_json(upvars, mir)));
            json_object(m)
        },
        _ => json_null(),
    }
}

fn tuple_body(t: &Ty, mir: &mut MirState) -> (j: serde_json::Value)
    requires
        *t is Tuple,
        ty_readable(old(mir)@.tcx, t@),
    ensures
        final(mir)@ == ty_body(old(mir)@, t@).0,
        json_of(j) == ty_body(old(mir)@, t@).1,
        final(mir).tcx == old(mir).tcx,
    decreases t, 0nat,
{
    match t {
        Ty::Tuple(tys) => {
            let mut m = fields_new();
            put(&mut m, "kind", json_str("Tuple"));
            put(&mut m, "tys", json_array(tys_to_json(tys, mir)));
            json_object(m)
        },
        _ => json_null(),
    }
}

fn projection_body(t: &Ty, mir: &mut MirState) -> (j: serde_json::Value)
    requires
        *t is Projection || *t is UnnormalizedProjection,
        ty_readable(old(mir)@.tcx, t@),
    ensures
        final(mir)@ == ty_body(old(mir)@, t@).0,
        json_of(j) == ty_body(old(mir)@, t@).1,
        final(mir).tcx == old(mir).tcx,
    decreases t, 0nat,
{
    match t {
        Ty::Projection(d, args) => {
            let mut m = fields_new();
            put(&mut m, "kind", json_str("Projection"));
            put(&mut m, "substs", json_array(args_to_json(args, mir)));
            put(&mut m, "defid", json_string(def_id_str(d)));
            json_object(m)
        },
        Ty::UnnormalizedProjection(d, args) => {
            let mut m = fields_new();
            put(&mut m, "kind", json_str("UnnormalizedProjection"));
            put(&mut m, "substs", json_array(args_to_json(args, mir)));
            put(&mut m, "defid", json_string(def_id_str(d)));
            json_object(m)
        },
        _ => json_null(),
    }
}

impl Ty {
    /// Lowers a reference to this type: interns the type, with everything
    /// it is made of, and returns its ID.
    pub fn to_json(&self, mir: &mut MirState) -> (j: serde_json::Value)
        requires
            ty_readable(old(mir)@.tcx, self@),
        ensures
            final(mir)@ == lower_ty(old(mir)@, self@).0,
            json_of(j) == lower_ty(old(mir)@, self@).1,
            final(mir).tcx == old(mir).tcx,
        decreases self, 2nat,
    {
        match mir.tys.get(self) {
            Some(id) => json_number(id as u64),
            None => {
                let body = self.body(mir);
                let id: usize = mir.tys.insert(copy_ty(self), body);
                json_number(id as u64)
            },
        }
    }

    /// The lowered form of this type; its parts are interned on the way.
    pub fn body(&self, mir: &mut MirState) -> (j: serde_json::Value)
        requires
            ty_readable(old(mir)@.tcx, self@),
        ensures
            final(mir)@ == ty_body(old(mir)@, self@).0,
            json_of(j) == ty_body(old(mir)@, self@).1,
            final(mir).tcx == old(mir).tcx,
        decreases self, 1nat,
    {
        match self {
            Ty::Adt(_, _) => adt_body(self, mir),
            Ty::Array(_, _) => array_body(self, mir),
            Ty::Slice(_) => pointer_body(self, mir),
            Ty::RawPtr(_, _) => pointer_body(self, mir),
            Ty::Ref(_, _) => pointer_body(self, mir),
            Ty::FnDef(_, _) => fn_def_body(self, mir),
            Ty::FnPtr(_) => fn_ptr_body(self, mir),
            Ty::Dynamic(_) => dynamic_body(self, mir),
            Ty::Closure(_, _, _) => closure_body(self, mir),
            Ty::Tuple(_) => tuple_body(self, mir),
            Ty::Projection(_, _) => projection_body(self, mir),
            Ty::UnnormalizedProjection(_, _) => projection_body(self, mir),
            _ => simple_body(self, mir),
        }
    }
}

/// Lowers the types of a list, one after the other.
pub fn tys_to_json(tys: &Vec<Ty>, mir: &mut MirState) -> (items: Vec<serde_json::Value>)
    requires
        tys_readable(old(mir)@.tcx, tys_view(tys@)),
    ensures
        final(mir)@ == lower_tys(old(mir)@, tys_view(tys@), tys.len() as nat).0,
        jsons_of(items@) == lower_tys(old(mir)@, tys_view(tys@), tys.len() as nat).1,
        final(mir).tcx == old(mir).tcx,
    decreases tys, 0nat,
{
    let mut items: Vec<serde_json::Value> = Vec::new();
    let mut i: usize = 0;
    assert(jsons_of(items@) =~= Seq::<Json>::empty());
    while i < tys.len()
        invariant
            i <= tys.len(),
            tys_readable(old(mir)@.tcx, tys_view(tys@)),
            mir.tcx == old(mir).tcx,
            mir@ == lower_tys(old(mir)@, tys_view(tys@), i as nat).0,
            jsons_of(items@) == lower_tys(old(mir)@, tys_view(tys@), i as nat).1,
        decreases tys.len() - i,
    {
        let ghost before = jsons_of(items@);
        assert(tys_view(tys@)[i as int] == tys[i as int]@);
        let j = tys[i].to_json(mir);
        items.push(j);
        assert(jsons_of(items@) =~= before.push(json_of(j)));
        i += 1;
    }
    items
}

impl GenericArg {
    /// Lowers a generic argument: a type as a type, a lifetime or a
    /// constant as a marker.
    pub fn to_json(&self, mir: &mut MirState) -> (j: serde_json::Value)
        requires
            arg_readable(old(mir)@.tcx, self@),
        ensures
            final(mir)@ == lower_arg(old(mir)@, self@).0,
            json_of(j) == lower_arg(old(mir)@, self@).1,
            final(mir).tcx == old(mir).tcx,
        decreases self, 0nat,
    {
        match self {
            GenericArg::Type(t) => t.to_json(mir),
            GenericArg::Lifetime => json_str("nonty::Lifetime"),
            GenericArg::Const(_) => json_str("nonty::Const"),
        }
    }
}

/// Lowers the generic arguments of a list, one after the other.
pub fn args_to_json(args: &Vec<GenericArg>, mir: &mut MirState) -> (items: Vec<serde_json::Value>)
    requires
        args_readable(old(mir)@.tcx, args_view(args@)),
    ensures
        final(mir)@ == lower_args(old(mir)@, args_view(args@), args.len() as nat).0,
        jsons_of(items@) == lower_args(old(mir)@, args_view(args@), args.len() as nat).1,
        final(mir).tcx == old(mir).tcx,
    decreases args, 0nat,
{
    let mut items: Vec<serde_json::Value> = Vec::new();
    let mut i: usize = 0;
    assert(jsons_of(items@) =~= Seq::<Json>::empty());
    while i < args.len()
        invariant
            i <= args.len(),
            args_readable(old(mir)@.tcx, args_view(args@)),
            mir.tcx == old(mir).tcx,
            mir@ == lower_args(old(mir)@, args_view(args@), i as nat).0,
            jsons_of(items@) == lower_args(old(mir)@, args_view(args@), i as nat).1,
        decreases args.len() - i,
    {
        let ghost before = jsons_of(items@);
        assert(args_view(args@)[i as int] == args[i as int]@);
        let j = args[i].to_json(mir);
        items.push(j);
        assert(jsons_of(items@) =~= before.push(json_of(j)));
        i += 1;
    }
    items
}

impl FnSig {
    /// Lowers a function signature.
    pub fn to_json(&self, mir: &mut MirState) -> (j: serde_json::Value)
        requires
            sig_readable(old(mir)@.tcx, self@),
        ensures
            final(mir)@ == lower_sig(old(mir)@, self@).0,
            json_of(j) == lower_sig(old(mir)@, self@).1,
            final(mir).tcx == old(mir).tcx,
        decreases self, 0nat,
    {
        let mut m = fields_new();
        put(&mut m, "inputs", json_array(tys_to_json(&self.inputs, mir)));
        put(&mut m, "output", self.output.to_json(mir));
        put(&mut m, "abi", self.abi.to_json());
        json_object(m)
    }
}

impl ExistentialTraitRef {
    /// Lowers the principal trait of a trait object.
    pub fn to_json(&self, mir: &mut MirState) -> (j: serde_json::Value)
        requires
            args_readable(old(mir)@.tcx, self@.substs),
        ensures
            final(mir)@ == lower_trait_ref(old(mir)@, self@).0,
            json_of(j) == lower_trait_ref(old(mir)@, self@).1,
            final(mir).tcx == old(mir).tcx,
        decreases self, 0nat,
    {
        let mut m = fields_new();
        put(&mut m, "kind", json_str("Trait"));
        put(&mut m, "trait", json_string(def_id_str(&self.def_id)));
        put(&mut m, "substs", json_array(args_to_json(&self.substs, mir)));
        json_object(m)
    }
}

impl ExistentialProjection {
    /// Lowers an associated-type binding of a trait object.
    pub fn to_json(&self, mir: &mut MirState) -> (j: serde_json::Value)
        requires
            args_readable(old(mir)@.tcx, self@.substs),
            ty_readable(old(mir)@.tcx, self@.ty),
        ensures
            final(mir)@ == lower_projection(old(mir)@, self@).0,
            json_of(j) == lower_projection(old(mir)@, self@).1,
            final(mir).tcx == old(mir).tcx,
        decreases self, 0nat,
    {
        let mut m = fields_new();
        put(&mut m, "kind", json_str("Projection"));
        put(&mut m, "proj", json_string(def_id_str(&self.item_def_id)));
        put(&mut m, "substs", json_array(args_to_json(&self.substs, mir)));
        put(&mut m, "rhs_ty", self.ty.to_json(mir));
        json_object(m)
    }
}

impl ExistentialPredicate {
    /// Lowers a predicate of a trait object.
    pub fn to_json(&self, mir: &mut MirState) -> (j: serde_json::Value)
        requires
            pred_readable(old(mir)@.tcx, self@),
        ensures
            final(mir)@ == lower_pred(old(mir)@, self@).0,
            json_of(j) == lower_pred(old(mir)@, self@).1,
            final(mir).tcx == old(mir).tcx,
        decreases self, 1nat,
    {
        match self {
            ExistentialPredicate::Trait(t) => t.to_json(mir),
            ExistentialPredicate::Projection(p) => p.to_json(mir),
            ExistentialPredicate::AutoTrait(d) => {
                let mut m = fields_new();
                put(&mut m, "kind", json_str("AutoTrait"));
                put(&mut m, "trait", json_string(def_id_str(d)));
                json_object(m)
            },
        }
    }
}

/// Lowers the predicates of a trait object, one after the other.
pub fn preds_to_json(preds: &Vec<ExistentialPredicate>, mir: &mut MirState) -> (items: Vec<serde_json::Value>)
    requires
        preds_readable(old(mir)@.tcx, preds_view(preds@)),
    ensures
        final(mir)@ == lower_preds(old(mir)@, preds_view(preds@), preds.len() as nat).0,
        jsons_of(items@) == lower_preds(old(mir)@, preds_view(preds@), preds.len() as nat).1,
        final(mir).tcx == old(mir).tcx,
    decreases preds, 0nat,
{
    let mut items: Vec<serde_json::Value> = Vec::new();
    let mut i: usize = 0;
    assert(jsons_of(items@) =~= Seq::<Json>::empty());
    while i < preds.len()
        invariant
            i <= preds.len(),
            preds_readable(old(mir)@.tcx, preds_view(preds@)),
            mir.tcx == old(mir).tcx,
            mir@ == lower_preds(old(mir)@, preds_view(preds@), i as nat).0,
            jsons_of(items@) == lower_preds(old(mir)@, preds_view(preds@), i as nat).1,
        decreases preds.len() - i,
    {
        let ghost before = jsons_of(items@);
        assert(preds_view(preds@)[i as int] == preds[i as int]@);
        let j = preds[i].to_json(mir);
        items.push(j);
        assert(jsons_of(items@) =~= before.push(json_of(j)));
        i += 1;
    }
    items
}

impl Const {
    /// Lowers a constant: its type, for an unevaluated constant the name of
    /// what computes it, and its literal where it has one.
    pub fn to_json(&self, mir: &mut MirState) -> (j: serde_json::Value)
        requires
            const_readable(old(mir)@.tcx, self@),
        ensures
            final(mir)@ == lower_const(old(mir)@, self@).0,
            json_of(j) == lower_const(old(mir)@, self@).1,
            final(mir).tcx == old(mir).tcx,
        decreases self, 0nat,
    {
        let mut m = fields_new();
        put(&mut m, "kind", json_str("Const"));
        put(&mut m, "ty", self.ty.to_json(mir));
        match &self.val {
            ConstKind::Unevaluated(d, args, promoted) => {
                let name = get_promoted_name(mir, d, args, *promoted);
                let mut init = fields_new();
                put(&mut init, "def_id", json_string(name));
                put(&mut init, "substs", json_empty_array());
                put(&mut m, "initializer", json_object(init));
            },
            ConstKind::Value(_) => {},
        }
        let rendered: Option<serde_json::Value> = match &self.val {
            ConstKind::Unevaluated(d, args, promoted) => {
                match do_const_eval(&mir.tcx, d, args, *promoted) {
                    Some(v) => {
                        let v = v.clone();
                        render_value(mir, &self.ty, &v)
                    },
                    None => None,
                }
            },
            ConstKind::Value(v) => render_value(mir, &self.ty, v),
        };
        match rendered {
            Some(r) => {
                put(&mut m, "rendered", r);
            },
            None => {},
        }
        json_object(m)
    }
}

} // verus!
