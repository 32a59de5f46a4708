//! Lowering of the definition of a data type at one instantiation: its
//! variants and their fields.
use vstd::prelude::*;
use crate::json::{
    fields_new, json_array, json_kind, json_number, json_object, json_of, json_str, json_string, jsons_of,
    empty_array, kind_only, no_fields, put, Json,
};
use crate::json::json_empty_array;
use crate::resolve::get_fn_def_name;
use crate::lowered::{args_readable, lower_args, lower_ty, of_kind, resolved_name, ty_readable};
use crate::names::{adt_inst_id_str, adt_name, def_id_str, def_name};
use crate::readable::{args_are_readable, ty_is_readable};
use crate::session::{MirState, Session, TyCtxt, TyCtxtView};
use crate::subst::{subst, subst_ty};
use crate::ty_lower::args_to_json;
use crate::types::{AdtInst, AdtInstView, DefId, GenericArg, GenericArgView, Ty};
use crate::types::args_view;

verus! {

/// How the constructor of a variant is written.
#[derive(Clone, Copy, Debug, PartialEq, Eq, Structural)]
pub enum CtorKind {
    /// Like a function: `V(..)`.
    Fn,
    /// Like a constant: `V`.
    Const,
    /// With braces: `V { .. }`.
    Fictive,
}

#[derive(Clone, Copy, Debug, PartialEq, Eq, Structural)]
pub enum AdtKind {
    Struct,
    Union,
    Enum,
}

/// The discriminant of a variant.
#[derive(Debug)]
pub enum VariantDiscr {
    /// Given by a constant expression of its own.
    Explicit(DefId),
    /// The given distance past the last explicit discriminant, or past zero.
    Relative(u32),
}

/// A field: its definition and its type as written, which may mention the
/// type parameters of the data type.
#[derive(Debug)]
pub struct FieldDef {
    pub did: DefId,
    pub ty: Ty,
}

#[derive(Debug)]
pub struct VariantDef {
    pub def_id: DefId,
    pub discr: VariantDiscr,
    pub fields: Vec<FieldDef>,
    pub ctor_kind: CtorKind,
}

/// The definition of a data type.
#[derive(Debug)]
pub struct AdtDef {
    pub did: DefId,
    pub kind: AdtKind,
    pub variants: Vec<VariantDef>,
}

/// What an aggregate value is built as.
#[derive(Debug)]
pub enum AggregateKind {
    Array(Ty),
    Tuple,
    /// A value of a data type: the type's definition, the index of the
    /// variant, and the arguments of the instantiation.
    Adt(AdtDef, usize, Vec<GenericArg>),
    Closure(DefId, Vec<GenericArg>),
    Generator(DefId, Vec<GenericArg>),
}

pub open spec fn ctor_kind_name(k: CtorKind) -> Seq<char> {
    match k {
        CtorKind::Fn => "Fn"@,
        CtorKind::Const => "Const"@,
        CtorKind::Fictive => "Fictive"@,
    }
}

pub open spec fn adt_kind_name(k: AdtKind) -> Seq<char> {
    match k {
        AdtKind::Struct => "Struct"@,
        AdtKind::Union => "Union"@,
        AdtKind::Enum => "Enum"@,
    }
}

impl CtorKind {
    pub fn name(&self) -> (s: &'static str)
        ensures
            s@ == ctor_kind_name(*self),
    {
        match self {
            CtorKind::Fn => "Fn",
            CtorKind::Const => "Const",
            CtorKind::Fictive => "Fictive",
        }
    }

    pub fn to_json(&self) -> (j: serde_json::Value)
        ensures
            json_of(j) == kind_only(ctor_kind_name(*self)),
    {
        json_kind(self.name())
    }
}

impl AdtKind {
    pub fn name(&self) -> (s: &'static str)
        ensures
            s@ == adt_kind_name(*self),
    {
        match self {
            AdtKind::Struct => "Struct",
            AdtKind::Union => "Union",
            AdtKind::Enum => "Enum",
        }
    }
}

/// A discriminant, lowered. An explicit discriminant goes by the name of
/// the function that computes it, which is recorded as used.
pub open spec fn lower_discr(s: Session, d: VariantDiscr) -> (Session, Json) {
    match d {
        VariantDiscr::Relative(i) => (s, Json::Obj(of_kind("Relative"@).insert("index"@, Json::Num(i as int)))),
        VariantDiscr::Explicit(def_id) => {
            let (s1, name) = resolved_name(s, def_id@, Seq::<GenericArgView>::empty());
            (s1, Json::Obj(of_kind("Explicit"@).insert("name"@, Json::Str(name))))
        },
    }
}

impl VariantDiscr {
    pub fn to_json(&self, mir: &mut MirState) -> (j: serde_json::Value)
        ensures
            final(mir)@ == lower_discr(old(mir)@, *self).0,
            json_of(j) == lower_discr(old(mir)@, *self).1,
            final(mir).tcx == old(mir).tcx,
    {
        match self {
            VariantDiscr::Relative(i) => {
                let mut m = fields_new();
                put(&mut m, "kind", json_str("Relative"));
                put(&mut m, "index", json_number(*i as u64));
                json_object(m)
            },
            VariantDiscr::Explicit(def_id) => {
                let substs: Vec<GenericArg> = Vec::new();
                assert(args_view(substs@) =~= Seq::<GenericArgView>::empty());
                let mut m = fields_new();
                put(&mut m, "kind", json_str("Explicit"));
                put(&mut m, "name", json_string(get_fn_def_name(mir, def_id, &substs)));
                json_object(m)
            },
        }
    }
}

/// What is lowered with respect to one instantiation of the data type it
/// belongs to.
pub trait ToJsonAg {
    /// Whether the constants that lowering reads can be read.
    spec fn lowerable(&self, tcx: TyCtxtView, substs: Seq<GenericArgView>) -> bool;

    /// The session afterwards and the lowered form.
    spec fn lowered(&self, s: Session, substs: Seq<GenericArgView>) -> (Session, Json);

    /// Tests whether `self` can be lowered at the arguments `substs`.
    fn is_lowerable(&self, tcx: &TyCtxt, substs: &Vec<GenericArg>) -> (b: bool)
        ensures
            b == self.lowerable(tcx@, args_view(substs@)),
    ;

    /// Lowers `self` at the arguments `substs`.
    fn tojson(&self, mir: &mut MirState, substs: &Vec<GenericArg>) -> (j: serde_json::Value)
        requires
            self.lowerable(old(mir)@.tcx, args_view(substs@)),
        ensures
            final(mir)@ == self.lowered(old(mir)@, args_view(substs@)).0,
            json_of(j) == self.lowered(old(mir)@, args_view(substs@)).1,
            final(mir).tcx == old(mir).tcx,
    ;
}

impl ToJsonAg for FieldDef {
    open spec fn lowerable(&self, tcx: TyCtxtView, substs: Seq<GenericArgView>) -> bool {
        ty_readable(tcx, subst_ty(self.ty@, substs))
    }

    /// A field is its name and its type at the instantiation.
    open spec fn lowered(&self, s: Session, substs: Seq<GenericArgView>) -> (Session, Json) {
        let (s1, ty) = lower_ty(s, subst_ty(self.ty@, substs));
        (
            s1,
            Json::Obj(
                no_fields().insert("name"@, Json::Str(def_name(self.did@))).insert("ty"@, ty).insert(
                    "substs"@,
                    empty_array(),
                ),
            ),
        )
    }

    fn is_lowerable(&self, tcx: &TyCtxt, substs: &Vec<GenericArg>) -> (b: bool) {
        let ty = subst(&self.ty, substs);
        ty_is_readable(tcx, &ty)
    }

    fn tojson(&self, mir: &mut MirState, substs: &Vec<GenericArg>) -> (j: serde_json::Value) {
        let ty = subst(&self.ty, substs);
        let mut m = fields_new();
        put(&mut m, "name", json_string(def_id_str(&self.did)));
        put(&mut m, "ty", ty.to_json(mir));
        put(&mut m, "substs", json_empty_array());
        json_object(m)
    }
}

/// Whether each of the items can be lowered.
pub open spec fn each_lowerable<T: ToJsonAg>(items: Seq<T>, tcx: TyCtxtView, substs: Seq<GenericArgView>) -> bool {
    forall|i: int| 0 <= i < items.len() ==> (#[trigger] items[i]).lowerable(tcx, substs)
}

/// The first `n` items, lowered one after the other.
pub open spec fn each_lowered<T: ToJsonAg>(items: Seq<T>, s: Session, substs: Seq<GenericArgView>, n: nat) -> (
    Session,
    Seq<Json>,
)
    decreases n,
{
    if n == 0 || n > items.len() {
        (s, Seq::<Json>::empty())
    } else {
        let (s1, done) = each_lowered(items, s, substs, (n - 1) as nat);
        let (s2, item) = items[n - 1].lowered(s1, substs);
        (s2, done.push(item))
    }
}

impl<T: ToJsonAg> ToJsonAg for Vec<T> {
    open spec fn lowerable(&self, tcx: TyCtxtView, substs: Seq<GenericArgView>) -> bool {
        each_lowerable(self@, tcx, substs)
    }

    /// A list is the array of its items, lowered in order.
    open spec fn lowered(&self, s: Session, substs: Seq<GenericArgView>) -> (Session, Json) {
        let (s1, items) = each_lowered(self@, s, substs, self@.len());
        (s1, Json::Arr(items))
    }

    fn is_lowerable(&self, tcx: &TyCtxt, substs: &Vec<GenericArg>) -> (b: bool) {
        let mut i: usize = 0;
        while i < self.len()
            invariant
                i <= self.len(),
                forall|j: int| 0 <= j < i ==> (#[trigger] self@[j]).lowerable(tcx@, args_view(substs@)),
            decreases self.len() - i,
        {
            if !self[i].is_lowerable(tcx, substs) {
                return false;
            }
            i += 1;
        }
        true
    }

    fn tojson(&self, mir: &mut MirState, substs: &Vec<GenericArg>) -> (j: serde_json::Value) {
        let mut items: Vec<serde_json::Value> = Vec::new();
        assert(jsons_of(items@) =~= Seq::<Json>::empty());
        let mut i: usize = 0;
        while i < self.len()
            invariant
                i <= self.len(),
                each_lowerable(self@, old(mir)@.tcx, args_view(substs@)),
                mir.tcx == old(mir).tcx,
                mir@ == each_lowered(self@, old(mir)@, args_view(substs@), i as nat).0,
                jsons_of(items@) == each_lowered(self@, old(mir)@, args_view(substs@), i as nat).1,
            decreases self.len() - i,
        {
            let ghost before = jsons_of(items@);
            let j = self[i].tojson(mir, substs);
            items.push(j);
            assert(jsons_of(items@) =~= before.push(json_of(j)));
            i += 1;
        }
        json_array(items)
    }
}

impl ToJsonAg for VariantDef {
    open spec fn lowerable(&self, tcx: TyCtxtView, substs: Seq<GenericArgView>) -> bool {
        self.fields.lowerable(tcx, substs)
    }

    /// A variant is its name, its discriminant, its fields, and the way its
    /// constructor is written.
    open spec fn lowered(&self, s: Session, substs: Seq<GenericArgView>) -> (Session, Json) {
        let (s1, discr) = lower_discr(s, self.discr);
        let (s2, fields) = self.fields.lowered(s1, substs);
        (
            s2,
            Json::Obj(
                no_fields().insert("name"@, Json::Str(def_name(self.def_id@))).insert("discr"@, discr).insert(
                    "fields"@,
                    fields,
                ).insert("ctor_kind"@, kind_only(ctor_kind_name(self.ctor_kind))),
            ),
        )
    }

    fn is_lowerable(&self, tcx: &TyCtxt, substs: &Vec<GenericArg>) -> (b: bool) {
        self.fields.is_lowerable(tcx, substs)
    }

    fn tojson(&self, mir: &mut MirState, substs: &Vec<GenericArg>) -> (j: serde_json::Value) {
        let mut m = fields_new();
        put(&mut m, "name", json_string(def_id_str(&self.def_id)));
        put(&mut m, "discr", self.discr.to_json(mir));
        put(&mut m, "fields", self.fields.tojson(mir, substs));
        put(&mut m, "ctor_kind", self.ctor_kind.to_json());
        json_object(m)
    }
}

/// Whether the definition `adt` can be lowered at the instantiation `ai`.
pub open spec fn adt_lowerable(tcx: TyCtxtView, ai: AdtInstView, adt: AdtDef) -> bool {
    adt.variants.lowerable(tcx, ai.substs) && args_readable(tcx, ai.substs)
}

/// The definition `adt` of a data type, lowered at the instantiation `ai`:
/// the name of the instantiation, the kind of data type, the variants, and
/// the definition and arguments that the instantiation was made from.
pub open spec fn lower_adt(s: Session, ai: AdtInstView, adt: AdtDef) -> (Session, Json) {
    let (s1, variants) = adt.variants.lowered(s, ai.substs);
    let (s2, items) = lower_args(s1, ai.substs, ai.substs.len());
    (
        s2,
        Json::Obj(
            no_fields().insert("name"@, Json::Str(adt_name(ai))).insert(
                "kind"@,
                Json::Str(adt_kind_name(adt.kind)),
            ).insert("variants"@, variants).insert("orig_def_id"@, Json::Str(def_name(ai.adt))).insert(
                "orig_substs"@,
                Json::Arr(items),
            ),
        ),
    )
}

impl AdtInst {
    /// Tests whether the definition `adt` can be lowered at this
    /// instantiation.
    pub fn is_lowerable(&self, tcx: &TyCtxt, adt: &AdtDef) -> (b: bool)
        ensures
            b == adt_lowerable(tcx@, self@, *adt),
    {
        adt.variants.is_lowerable(tcx, &self.substs) && args_are_readable(tcx, &self.substs)
    }

    /// Lowers the definition `adt` of this instantiation's data type.
    pub fn to_json(&self, mir: &mut MirState, adt: &AdtDef) -> (j: serde_json::Value)
        requires
            adt_lowerable(old(mir)@.tcx, self@, *adt),
        ensures
            final(mir)@ == lower_adt(old(mir)@, self@, *adt).0,
            json_of(j) == lower_adt(old(mir)@, self@, *adt).1,
            final(mir).tcx == old(mir).tcx,
    {
        let mut m = fields_new();
        put(&mut m, "name", json_string(adt_inst_id_str(self)));
        put(&mut m, "kind", json_str(adt.kind.name()));
        put(&mut m, "variants", adt.variants.tojson(mir, &self.substs));
        put(&mut m, "orig_def_id", json_string(def_id_str(&self.adt)));
        put(&mut m, "orig_substs", json_array(args_to_json(&self.substs, mir)));
        json_object(m)
    }
}

/// Whether an aggregate is a value of a data type.
pub fn is_adt_ak(ak: &AggregateKind) -> (b: bool)
    ensures
        b == (*ak is Adt),
{
    match ak {
        AggregateKind::Adt(_, _, _) => true,
        _ => false,
    }
}

/// The instantiation that an aggregate of a data type is a value of.
pub open spec fn aggregate_inst(ak: AggregateKind) -> AdtInstView {
    AdtInstView { adt: ak->Adt_0.did@, substs: args_view(ak->Adt_2@) }
}

/// An aggregate of a data type, lowered: the data type at its
/// instantiation, the index of the variant, and the operands.
pub open spec fn lower_adt_aggregate(s: Session, ak: AggregateKind, ops: Seq<Json>) -> (Session, Json) {
    let (s1, adt) = lower_adt(s, aggregate_inst(ak), ak->Adt_0);
    (
        s1,
        Json::Obj(
            no_fields().insert("adt"@, adt).insert("variant"@, Json::Num(ak->Adt_1 as int)).insert(
                "ops"@,
                Json::Arr(ops),
            ),
        ),
    )
}

/// Lowers an aggregate of a data type, given its operands in lowered form.
/// There is no result for an aggregate of any other kind, and then nothing
/// changes.
pub fn handle_adt_ag(mir: &mut MirState, ak: &AggregateKind, opv: Vec<serde_json::Value>) -> (j: Option<
    serde_json::Value,
>)
    requires
        *ak is Adt ==> adt_lowerable(old(mir)@.tcx, aggregate_inst(*ak), ak->Adt_0),
    ensures
        match j {
            Some(j) => {
                &&& *ak is Adt
                &&& final(mir)@ == lower_adt_aggregate(old(mir)@, *ak, jsons_of(opv@)).0
                &&& json_of(j) == lower_adt_aggregate(old(mir)@, *ak, jsons_of(opv@)).1
            },
            None => !(*ak is Adt) && final(mir)@ == old(mir)@,
        },
        final(mir).tcx == old(mir).tcx,
{
    match ak {
        AggregateKind::Adt(adt, variant, substs) => {
            let ai = AdtInst { adt: adt.did.clone(), substs: crate::copy::copy_args(substs) };
            assert(ai@ == aggregate_inst(*ak));
            let mut m = fields_new();
            put(&mut m, "adt", ai.to_json(mir, adt));
            put(&mut m, "variant", json_number(*variant as u64));
            put(&mut m, "ops", json_array(opv));
            Some(json_object(m))
        },
        _ => None,
    }
}

/// Whether an aggregate of a data type can be lowered.
pub fn aggregate_is_lowerable(tcx: &TyCtxt, ak: &AggregateKind) -> (b: bool)
    ensures
        b == (*ak is Adt ==> adt_lowerable(tcx@, aggregate_inst(*ak), ak->Adt_0)),
{
    match ak {
        AggregateKind::Adt(adt, _, substs) => {
            adt.variants.is_lowerable(tcx, substs) && args_are_readable(tcx, substs)
        },
        _ => true,
    }
}

} // verus!
