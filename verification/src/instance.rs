//! Lowering of function instances.
use vstd::prelude::*;
use crate::copy::copy_ty;
use crate::json::{
    fields_new, json_array, json_null, json_number, json_object, json_of, json_str, json_string, jsons_of, put,
    Json,
};
use crate::lowered::{args_readable, lower_args, lower_ty, of_kind, ty_readable};
use crate::names::{def_id_str, def_name, inst_id_str, instance_name, trait_inst_id_str, trait_name};
use crate::session::{DiagnosticView, MirState, Session, TyCtxtView};
use crate::ty_lower::args_to_json;
use crate::types::{
    DefId, DefIdView, GenericArg, GenericArgView, Instance, InstanceDef, InstanceDefView, InstanceView, Ty,
    TyView,
};
use crate::types::{args_view, tys_view};
use crate::vtable::{adjust_method_index, has_principal, present_before};

verus! {

/// The first type among the first `n` generic arguments.
pub open spec fn first_type(args: Seq<GenericArgView>, n: nat) -> Option<TyView>
    decreases n,
{
    if n == 0 || n > args.len() {
        None
    } else {
        match first_type(args, (n - 1) as nat) {
            Some(t) => Some(t),
            None => match args[n - 1] {
                GenericArgView::Type(t) => Some(t),
                _ => None,
            },
        }
    }
}

/// The types whose clones make up the clone of `ty`: the element type of
/// an array, the members of a tuple, the captures of a closure; nothing for
/// any other type.
pub open spec fn clone_parts(ty: TyView) -> Seq<TyView> {
    match ty {
        TyView::Array(e, _) => seq![*e],
        TyView::Tuple(tys) => tys,
        TyView::Closure(_, _, upvars) => upvars,
        _ => Seq::<TyView>::empty(),
    }
}

/// Whether a clone adapter has parts for a type.
pub open spec fn has_clone_parts(ty: TyView) -> bool {
    ty is Array || ty is Tuple || ty is Closure
}

/// The session in which a clone adapter for `ty` starts: where the type has
/// no parts, that is noted.
pub open spec fn clone_start(s: Session, ty: TyView) -> Session {
    if has_clone_parts(ty) {
        s
    } else {
        s.with_diagnostic(DiagnosticView::UnknownCloneShim(ty))
    }
}

/// The functions that a clone adapter calls, one for each of the first `n`
/// parts: the instance that `def_id` resolves to at that part, by name, or
/// null where the host could not resolve it. Each instance is recorded as
/// used.
pub open spec fn clone_callees(s: Session, def_id: DefIdView, parts: Seq<TyView>, n: nat) -> (Session, Seq<Json>)
    decreases n,
{
    if n == 0 || n > parts.len() {
        (s, Seq::<Json>::empty())
    } else {
        let (s1, names) = clone_callees(s, def_id, parts, (n - 1) as nat);
        match s.tcx.resolve(def_id, seq![GenericArgView::Type(parts[n - 1])]) {
            Some(inst) => (s1.with_instance(inst), names.push(Json::Str(instance_name(inst)))),
            None => (s1, names.push(Json::Null)),
        }
    }
}

/// The members of the lowered form of an instance that is a definition at
/// its arguments.
pub open spec fn plain_instance(s: Session, kind: Seq<char>, d: DefIdView, substs: Seq<GenericArgView>) -> (
    Session,
    Map<Seq<char>, Json>,
) {
    let (s1, items) = lower_args(s, substs, substs.len());
    (s1, of_kind(kind).insert("def_id"@, Json::Str(def_name(d))).insert("substs"@, Json::Arr(items)))
}

/// An optional type, lowered: null where there is none.
pub open spec fn lower_opt_ty(s: Session, t: Option<TyView>) -> (Session, Json) {
    match t {
        Some(t) => lower_ty(s, t),
        None => (s, Json::Null),
    }
}

/// The slot of the lowered vtable for a dynamic dispatch through slot
/// `slot` of the host's vtable: that of the trait object that is the first
/// type among the arguments.
pub open spec fn dense_slot(tcx: TyCtxtView, substs: Seq<GenericArgView>, slot: usize) -> nat {
    present_before(tcx.vtable_methods(first_type(substs, substs.len())->Some_0), slot as nat)
}

/// An instance, lowered.
pub open spec fn lower_instance(s: Session, i: InstanceView) -> (Session, Json) {
    match i.def {
        InstanceDefView::Item(d) => {
            let (s1, m) = plain_instance(s, "Item"@, d, i.substs);
            (s1, Json::Obj(m))
        },
        InstanceDefView::Intrinsic(d) => {
            let (s1, m) = plain_instance(s, "Intrinsic"@, d, i.substs);
            (s1, Json::Obj(m))
        },
        InstanceDefView::VtableShim(d) => {
            let (s1, m) = plain_instance(s, "VtableShim"@, d, i.substs);
            (s1, Json::Obj(m))
        },
        InstanceDefView::ReifyShim(d) => {
            let (s1, m) = plain_instance(s, "ReifyShim"@, d, i.substs);
            (s1, Json::Obj(m))
        },
        InstanceDefView::FnPtrShim(d, ty) => {
            let (s1, m) = plain_instance(s, "FnPtrShim"@, d, i.substs);
            let (s2, lowered) = lower_ty(s1, ty);
            (s2, Json::Obj(m.insert("ty"@, lowered)))
        },
        InstanceDefView::Virtual(d, slot, ti) => (
            s.with_trait(ti),
            Json::Obj(
                of_kind("Virtual"@).insert("trait_id"@, Json::Str(trait_name(ti))).insert(
                    "item_id"@,
                    Json::Str(def_name(d)),
                ).insert("index"@, Json::Num(dense_slot(s.tcx, i.substs, slot) as int)),
            ),
        ),
        InstanceDefView::ClosureOnceShim { call_once } => {
            let (s1, items) = lower_args(s, i.substs, i.substs.len());
            (
                s1,
                Json::Obj(
                    of_kind("ClosureOnceShim"@).insert("call_once"@, Json::Str(def_name(call_once))).insert(
                        "substs"@,
                        Json::Arr(items),
                    ),
                ),
            )
        },
        InstanceDefView::DropGlue(d, ty) => {
            let (s1, m) = plain_instance(s, "DropGlue"@, d, i.substs);
            let (s2, lowered) = lower_opt_ty(s1, ty);
            (s2, Json::Obj(m.insert("ty"@, lowered)))
        },
        InstanceDefView::CloneShim(d, ty) => {
            let (s1, callees) = clone_callees(clone_start(s, ty), d, clone_parts(ty), clone_parts(ty).len());
            let (s2, m) = plain_instance(s1, "CloneShim"@, d, i.substs);
            let (s3, lowered) = lower_ty(s2, ty);
            (s3, Json::Obj(m.insert("ty"@, lowered).insert("callees"@, Json::Arr(callees))))
        },
    }
}

/// Whether an instance can be lowered: the constants inside the types that
/// lowering reads can be read, and a dynamic dispatch has a trait object
/// with a principal trait as its first type argument.
pub open spec fn instance_lowerable(tcx: TyCtxtView, i: InstanceView) -> bool {
    match i.def {
        InstanceDefView::Virtual(_, _, _) => first_type(i.substs, i.substs.len()) matches Some(t)
            && has_principal(t),
        InstanceDefView::FnPtrShim(_, ty) => args_readable(tcx, i.substs) && ty_readable(tcx, ty),
        InstanceDefView::DropGlue(_, Some(ty)) => args_readable(tcx, i.substs) && ty_readable(tcx, ty),
        InstanceDefView::CloneShim(_, ty) => args_readable(tcx, i.substs) && ty_readable(tcx, ty),
        _ => args_readable(tcx, i.substs),
    }
}

/// The first type among generic arguments.
pub fn first_type_of(args: &Vec<GenericArg>) -> (r: Option<&Ty>)
    ensures
        match r {
            Some(t) => first_type(args_view(args@), args.len() as nat) == Some(t@),
            None => first_type(args_view(args@), args.len() as nat) is None,
        },
{
    let mut i: usize = args.len();
    let mut found: Option<&Ty> = None;
    while i > 0
        invariant
            i <= args.len(),
            match found {
                Some(t) => first_type(args_view(args@), args.len() as nat) == first_type_from(
                    args_view(args@),
                    i as nat,
                    Some(t@),
                ),
                None => first_type(args_view(args@), args.len() as nat) == first_type_from(
                    args_view(args@),
                    i as nat,
                    None,
                ),
            },
        decreases i,
    {
        i -= 1;
        assert(args_view(args@)[i as int] == args[i as int]@);
        match &args[i] {
            GenericArg::Type(t) => {
                found = Some(t);
            },
            _ => {},
        }
    }
    found
}

/// The first type among the first `n` arguments, or `later` where there is
/// none.
pub open spec fn first_type_from(args: Seq<GenericArgView>, n: nat, later: Option<TyView>) -> Option<TyView> {
    match first_type(args, n) {
        Some(t) => Some(t),
        None => later,
    }
}

fn plain_fields(mir: &mut MirState, kind: &str, d: &DefId, substs: &Vec<GenericArg>) -> (m: serde_json::Map<
    String,
    serde_json::Value,
>)
    requires
        args_readable(old(mir)@.tcx, args_view(substs@)),
    ensures
        final(mir)@ == plain_instance(old(mir)@, kind@, d@, args_view(substs@)).0,
        crate::json::fields_of(m) == plain_instance(old(mir)@, kind@, d@, args_view(substs@)).1,
        final(mir).tcx == old(mir).tcx,
{
    let mut m = fields_new();
    put(&mut m, "kind", json_str(kind));
    put(&mut m, "def_id", json_string(def_id_str(d)));
    put(&mut m, "substs", json_array(args_to_json(substs, mir)));
    m
}

/// The types whose clones make up the clone of `ty`.
pub fn clone_parts_of(ty: &Ty) -> (parts: Vec<Ty>)
    ensures
        tys_view(parts@) == clone_parts(ty@),
{
    match ty {
        Ty::Array(e, _) => {
            let mut parts: Vec<Ty> = Vec::new();
            parts.push(copy_ty(e));
            assert(tys_view(parts@) =~= clone_parts(ty@));
            parts
        },
        Ty::Tuple(tys) => crate::copy::copy_tys(tys),
        Ty::Closure(_, _, upvars) => crate::copy::copy_tys(upvars),
        _ => {
            let parts: Vec<Ty> = Vec::new();
            assert(tys_view(parts@) =~= clone_parts(ty@));
            parts
        },
    }
}

fn callees_json(mir: &mut MirState, d: &DefId, parts: Vec<Ty>) -> (items: Vec<serde_json::Value>)
    ensures
        final(mir)@ == clone_callees(old(mir)@, d@, tys_view(parts@), parts.len() as nat).0,
        jsons_of(items@) == clone_callees(old(mir)@, d@, tys_view(parts@), parts.len() as nat).1,
        final(mir).tcx == old(mir).tcx,
{
    let ghost all = tys_view(parts@);
    let mut names: Vec<serde_json::Value> = Vec::new();
    assert(jsons_of(names@) =~= Seq::<Json>::empty());
    let mut i: usize = 0;
    let n: usize = parts.len();
    while i < n
        invariant
            i <= n,
            n == parts.len(),
            tys_view(parts@) == all,
            mir.tcx == old(mir).tcx,
            mir@.tcx == old(mir)@.tcx,
            mir@ == clone_callees(old(mir)@, d@, all, i as nat).0,
            jsons_of(names@) == clone_callees(old(mir)@, d@, all, i as nat).1,
        decreases n - i,
    {
        let ghost before = jsons_of(names@);
        let mut substs: Vec<GenericArg> = Vec::new();
        substs.push(GenericArg::Type(copy_ty(&parts[i])));
        assert(args_view(substs@) =~= seq![GenericArgView::Type(all[i as int])]);
        let name: serde_json::Value = match mir.tcx.resolve(d, &substs) {
            Some(inst) => {
                let name = json_string(inst_id_str(inst));
                let owned = inst.clone();
                mir.used.insert_instance(owned);
                name
            },
            None => json_null(),
        };
        names.push(name);
        assert(jsons_of(names@) =~= before.push(json_of(name)));
        i += 1;
    }
    names
}

impl Instance {
    /// Lowers an instance. A clone adapter records the functions it calls
    /// as used; a dynamic dispatch records its trait.
    pub fn to_json(&self, mir: &mut MirState) -> (j: serde_json::Value)
        requires
            instance_lowerable(old(mir)@.tcx, self@),
        ensures
            final(mir)@ == lower_instance(old(mir)@, self@).0,
            json_of(j) == lower_instance(old(mir)@, self@).1,
            final(mir).tcx == old(mir).tcx,
    {
        match &self.def {
            InstanceDef::Item(d) => json_object(plain_fields(mir, "Item", d, &self.substs)),
            InstanceDef::Intrinsic(d) => json_object(plain_fields(mir, "Intrinsic", d, &self.substs)),
            InstanceDef::VtableShim(d) => json_object(plain_fields(mir, "VtableShim", d, &self.substs)),
            InstanceDef::ReifyShim(d) => json_object(plain_fields(mir, "ReifyShim", d, &self.substs)),
            InstanceDef::FnPtrShim(d, ty) => {
                let mut m = plain_fields(mir, "FnPtrShim", d, &self.substs);
                put(&mut m, "ty", ty.to_json(mir));
                json_object(m)
            },
            InstanceDef::Virtual(d, slot, ti) => {
                let trait_name = trait_inst_id_str(ti);
                mir.used.insert_trait(ti.clone());
                let mut m = fields_new();
                put(&mut m, "kind", json_str("Virtual"));
                put(&mut m, "trait_id", json_string(trait_name));
                put(&mut m, "item_id", json_string(def_id_str(d)));
                let index: usize = match first_type_of(&self.substs) {
                    Some(self_ty) => adjust_method_index(&mir.tcx, self_ty, *slot),
                    None => 0,
                };
                put(&mut m, "index", json_number(index as u64));
                json_object(m)
            },
            InstanceDef::ClosureOnceShim { call_once } => {
                let mut m = fields_new();
                put(&mut m, "kind", json_str("ClosureOnceShim"));
                put(&mut m, "call_once", json_string(def_id_str(call_once)));
                put(&mut m, "substs", json_array(args_to_json(&self.substs, mir)));
                json_object(m)
            },
            InstanceDef::DropGlue(d, ty) => {
                let mut m = plain_fields(mir, "DropGlue", d, &self.substs);
                let lowered: serde_json::Value = match ty {
                    Some(t) => t.to_json(mir),
                    None => json_null(),
                };
                put(&mut m, "ty", lowered);
                json_object(m)
            },
            InstanceDef::CloneShim(d, ty) => {
                let known: bool = match ty {
                    Ty::Array(_, _) => true,
                    Ty::Tuple(_) => true,
                    Ty::Closure(_, _, _) => true,
                    _ => false,
                };
                if !known {
                    mir.note_unknown_clone_shim(ty);
                }
                let callees = callees_json(mir, d, clone_parts_of(ty));
                let mut m = plain_fields(mir, "CloneShim", d, &self.substs);
                put(&mut m, "ty", ty.to_json(mir));
                put(&mut m, "callees", json_array(callees));
                json_object(m)
            },
        }
    }
}

} // verus!
