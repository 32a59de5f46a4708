//! Lowering of the items of traits and impls, with their generic parameters
//! and the predicates that hold of them.
use vstd::prelude::*;
use crate::json::{
    fields_new, json_array, json_object, json_of, json_str, json_string, jsons_of, no_fields, put, Json,
};
use crate::lowered::{
    args_readable, lower_args, lower_sig, lower_ty, sig_readable, ty_readable,
};
use crate::names::{def_id_str, def_name};
use crate::session::{first_from, MirState, Session, TyCtxt, TyCtxtView};
use crate::ty_lower::args_to_json;
use crate::types::{DefId, DefIdView, FnSig, GenericArg, Ty};
use crate::types::args_view;

verus! {

#[derive(Clone, Copy, Debug, PartialEq, Eq, Structural)]
pub enum AssocKind {
    Const,
    Method,
    OpaqueTy,
    Type,
}

/// Whether an item can still be overridden, and if so whether it has a
/// value of its own.
#[derive(Clone, Copy, Debug, PartialEq, Eq, Structural)]
pub enum Defaultness {
    Default { has_value: bool },
    Final,
}

/// Where an associated item is declared.
#[derive(Debug)]
pub enum AssocItemContainer {
    TraitContainer(DefId),
    ImplContainer(DefId),
}

pub enum AssocItemContainerView {
    TraitContainer(DefIdView),
    ImplContainer(DefIdView),
}

impl View for AssocItemContainer {
    type V = AssocItemContainerView;

    open spec fn view(&self) -> AssocItemContainerView {
        match self {
            AssocItemContainer::TraitContainer(d) => AssocItemContainerView::TraitContainer(d@),
            AssocItemContainer::ImplContainer(d) => AssocItemContainerView::ImplContainer(d@),
        }
    }
}

/// A trait at given arguments.
#[derive(Debug)]
pub struct TraitRef {
    pub def_id: DefId,
    pub substs: Vec<GenericArg>,
}

/// An associated type of a trait at given arguments.
#[derive(Debug)]
pub struct ProjectionTy {
    pub substs: Vec<GenericArg>,
    pub item_def_id: DefId,
}

/// The statement that an associated type is `ty`.
#[derive(Debug)]
pub struct ProjectionPredicate {
    pub projection_ty: ProjectionTy,
    pub ty: Ty,
}

/// A statement of a `where` clause. Kinds other than a trait bound and an
/// associated-type binding are not told apart.
#[derive(Debug)]
pub enum Predicate {
    Trait(TraitRef),
    Projection(ProjectionPredicate),
    Other,
}

/// The predicates of a definition, and those of the definition around it.
#[derive(Debug)]
pub struct GenericPredicates {
    pub parent: Option<Box<GenericPredicates>>,
    pub predicates: Vec<Predicate>,
}

#[derive(Debug)]
pub struct GenericParamDef {
    pub name: String,
    pub def_id: DefId,
}

/// The generic parameters of a definition, and those of the definition
/// around it.
#[derive(Debug)]
pub struct Generics {
    pub parent: Option<Box<Generics>>,
    pub params: Vec<GenericParamDef>,
}

/// An item of a trait or of an impl, with what the host knows of it: its
/// generic parameters and predicates, its type where it is a constant or an
/// associated type that has one, its signature where it is a method.
#[derive(Debug)]
pub struct AssocItem {
    pub def_id: DefId,
    pub ident: String,
    pub kind: AssocKind,
    pub defaultness: Defaultness,
    pub container: AssocItemContainer,
    pub generics: Generics,
    pub predicates: GenericPredicates,
    pub ty: Option<Ty>,
    pub sig: Option<FnSig>,
}

/// What identifies an associated item.
pub struct AssocItemView {
    pub def_id: DefIdView,
    pub ident: Seq<char>,
    pub kind: AssocKind,
    pub container: AssocItemContainerView,
}

impl View for AssocItem {
    type V = AssocItemView;

    open spec fn view(&self) -> AssocItemView {
        AssocItemView { def_id: self.def_id@, ident: self.ident@, kind: self.kind, container: self.container@ }
    }
}

/// A trait at given arguments, lowered.
pub open spec fn lower_trait(s: Session, t: TraitRef) -> (Session, Json) {
    let (s1, items) = lower_args(s, args_view(t.substs@), t.substs@.len());
    (
        s1,
        Json::Obj(no_fields().insert("trait"@, Json::Str(def_name(t.def_id@))).insert("substs"@, Json::Arr(items))),
    )
}

/// An associated type at given arguments, lowered.
pub open spec fn lower_projection_ty(s: Session, p: ProjectionTy) -> (Session, Json) {
    let (s1, items) = lower_args(s, args_view(p.substs@), p.substs@.len());
    (
        s1,
        Json::Obj(
            no_fields().insert("substs"@, Json::Arr(items)).insert(
                "item_def_id"@,
                Json::Str(def_name(p.item_def_id@)),
            ),
        ),
    )
}

/// An associated-type binding, lowered.
pub open spec fn lower_projection_predicate(s: Session, p: ProjectionPredicate) -> (Session, Json) {
    let (s1, projection) = lower_projection_ty(s, p.projection_ty);
    let (s2, ty) = lower_ty(s1, p.ty@);
    (s2, Json::Obj(no_fields().insert("projection_ty"@, projection).insert("ty"@, ty)))
}

/// A predicate, lowered. A predicate of any other kind than the two that
/// are told apart is the marker `unknown_pred`.
pub open spec fn lower_predicate(s: Session, p: Predicate) -> (Session, Json) {
    match p {
        Predicate::Trait(t) => {
            let (s1, bound) = lower_trait(s, t);
            (s1, Json::Obj(no_fields().insert("trait_pred"@, bound)))
        },
        Predicate::Projection(q) => {
            let (s1, binding) = lower_projection_predicate(s, q);
            (s1, Json::Obj(no_fields().insert("trait_proj"@, binding)))
        },
        Predicate::Other => (s, Json::Str("unknown_pred"@)),
    }
}

pub open spec fn predicate_readable(tcx: TyCtxtView, p: Predicate) -> bool {
    match p {
        Predicate::Trait(t) => args_readable(tcx, args_view(t.substs@)),
        Predicate::Projection(q) => args_readable(tcx, args_view(q.projection_ty.substs@)) && ty_readable(
            tcx,
            q.ty@,
        ),
        Predicate::Other => true,
    }
}

/// The first `n` predicates of a list, lowered one after the other.
pub open spec fn lower_predicates(s: Session, ps: Seq<Predicate>, n: nat) -> (Session, Seq<Json>)
    decreases n,
{
    if n == 0 || n > ps.len() {
        (s, Seq::<Json>::empty())
    } else {
        let (s1, items) = lower_predicates(s, ps, (n - 1) as nat);
        let (s2, item) = lower_predicate(s1, ps[n - 1]);
        (s2, items.push(item))
    }
}

/// The predicates of a definition, lowered, followed by those of the
/// definitions around it, from the inside out.
pub open spec fn gathered_predicates(s: Session, g: GenericPredicates) -> (Session, Seq<Json>)
    decreases g,
{
    let (s1, own) = lower_predicates(s, g.predicates@, g.predicates@.len());
    match g.parent {
        Some(parent) => {
            let (s2, outer) = gathered_predicates(s1, *parent);
            (s2, own + outer)
        },
        None => (s1, own),
    }
}

pub open spec fn predicates_readable(tcx: TyCtxtView, g: GenericPredicates) -> bool
    decreases g,
{
    &&& forall|i: int| 0 <= i < g.predicates@.len() ==> predicate_readable(tcx, #[trigger] g.predicates@[i])
    &&& match g.parent {
        Some(parent) => predicates_readable(tcx, *parent),
        None => true,
    }
}

/// The predicates of a definition and of the definitions around it,
/// lowered.
pub open spec fn lower_generic_predicates(s: Session, g: GenericPredicates) -> (Session, Json) {
    let (s1, items) = gathered_predicates(s, g);
    (s1, Json::Obj(no_fields().insert("predicates"@, Json::Arr(items))))
}

/// A generic parameter, lowered.
pub open spec fn lower_param(p: GenericParamDef) -> Json {
    Json::Obj(
        no_fields().insert("param_def"@, Json::Str(p.name@)).insert("def_id"@, Json::Str(def_name(p.def_id@))),
    )
}

/// The generic parameters of the definitions around a definition, from the
/// outside in, and then its own, each lowered.
pub open spec fn gathered_params(g: Generics) -> Seq<Json>
    decreases g,
{
    match g.parent {
        Some(parent) => gathered_params(*parent) + g.params@.map_values(|p: GenericParamDef| lower_param(p)),
        None => g.params@.map_values(|p: GenericParamDef| lower_param(p)),
    }
}

/// The generic parameters of a definition, lowered.
pub open spec fn lower_generics(g: Generics) -> Json {
    Json::Obj(no_fields().insert("params"@, Json::Arr(gathered_params(g))))
}

impl TraitRef {
    pub fn to_json(&self, mir: &mut MirState) -> (j: serde_json::Value)
        requires
            args_readable(old(mir)@.tcx, args_view(self.substs@)),
        ensures
            final(mir)@ == lower_trait(old(mir)@, *self).0,
            json_of(j) == lower_trait(old(mir)@, *self).1,
            final(mir).tcx == old(mir).tcx,
    {
        let mut m = fields_new();
        put(&mut m, "trait", json_string(def_id_str(&self.def_id)));
        put(&mut m, "substs", json_array(args_to_json(&self.substs, mir)));
        json_object(m)
    }
}

impl ProjectionTy {
    pub fn to_json(&self, mir: &mut MirState) -> (j: serde_json::Value)
        requires
            args_readable(old(mir)@.tcx, args_view(self.substs@)),
        ensures
            final(mir)@ == lower_projection_ty(old(mir)@, *self).0,
            json_of(j) == lower_projection_ty(old(mir)@, *self).1,
            final(mir).tcx == old(mir).tcx,
    {
        let mut m = fields_new();
        put(&mut m, "substs", json_array(args_to_json(&self.substs, mir)));
        put(&mut m, "item_def_id", json_string(def_id_str(&self.item_def_id)));
        json_object(m)
    }
}

impl ProjectionPredicate {
    pub fn to_json(&self, mir: &mut MirState) -> (j: serde_json::Value)
        requires
            args_readable(old(mir)@.tcx, args_view(self.projection_ty.substs@)),
            ty_readable(old(mir)@.tcx, self.ty@),
        ensures
            final(mir)@ == lower_projection_predicate(old(mir)@, *self).0,
            json_of(j) == lower_projection_predicate(old(mir)@, *self).1,
            final(mir).tcx == old(mir).tcx,
    {
        let mut m = fields_new();
        put(&mut m, "projection_ty", self.projection_ty.to_json(mir));
        put(&mut m, "ty", self.ty.to_json(mir));
        json_object(m)
    }
}

impl Predicate {
    pub fn to_json(&self, mir: &mut MirState) -> (j: serde_json::Value)
        requires
            predicate_readable(old(mir)@.tcx, *self),
        ensures
            final(mir)@ == lower_predicate(old(mir)@, *self).0,
            json_of(j) == lower_predicate(old(mir)@, *self).1,
            final(mir).tcx == old(mir).tcx,
    {
        match self {
            Predicate::Trait(t) => {
                let mut m = fields_new();
                put(&mut m, "trait_pred", t.to_json(mir));
                json_object(m)
            },
            Predicate::Projection(p) => {
                let mut m = fields_new();
                put(&mut m, "trait_proj", p.to_json(mir));
                json_object(m)
            },
            Predicate::Other => json_str("unknown_pred"),
        }
    }
}

fn gather_preds(mir: &mut MirState, preds: &GenericPredicates, dest: &mut Vec<serde_json::Value>)
    requires
        predicates_readable(old(mir)@.tcx, *preds),
    ensures
        final(mir)@ == gathered_predicates(old(mir)@, *preds).0,
        jsons_of(final(dest)@) == jsons_of(old(dest)@) + gathered_predicates(old(mir)@, *preds).1,
        final(mir).tcx == old(mir).tcx,
    decreases preds,
{
    let ghost start = jsons_of(dest@);
    let mut i: usize = 0;
    assert(jsons_of(dest@) =~= start + Seq::<Json>::empty());
    while i < preds.predicates.len()
        invariant
            i <= preds.predicates.len(),
            predicates_readable(old(mir)@.tcx, *preds),
            mir.tcx == old(mir).tcx,
            mir@ == lower_predicates(old(mir)@, preds.predicates@, i as nat).0,
            jsons_of(dest@) == start + lower_predicates(old(mir)@, preds.predicates@, i as nat).1,
        decreases preds.predicates.len() - i,
    {
        let ghost before = jsons_of(dest@);
        let j = preds.predicates[i].to_json(mir);
        dest.push(j);
        assert(jsons_of(dest@) =~= before.push(json_of(j)));
        assert(before.push(json_of(j)) =~= start + lower_predicates(
            old(mir)@,
            preds.predicates@,
            (i + 1) as nat,
        ).1);
        i += 1;
    }
    match &preds.parent {
        Some(parent) => {
            gather_preds(mir, parent, dest);
            assert(jsons_of(dest@) =~= start + gathered_predicates(old(mir)@, *preds).1);
        },
        None => {},
    }
}

impl GenericPredicates {
    pub fn to_json(&self, mir: &mut MirState) -> (j: serde_json::Value)
        requires
            predicates_readable(old(mir)@.tcx, *self),
        ensures
            final(mir)@ == lower_generic_predicates(old(mir)@, *self).0,
            json_of(j) == lower_generic_predicates(old(mir)@, *self).1,
            final(mir).tcx == old(mir).tcx,
    {
        let mut json_preds: Vec<serde_json::Value> = Vec::new();
        assert(jsons_of(json_preds@) =~= Seq::<Json>::empty());
        gather_preds(mir, self, &mut json_preds);
        assert(jsons_of(json_preds@) =~= gathered_predicates(old(mir)@, *self).1);
        let mut m = fields_new();
        put(&mut m, "predicates", json_array(json_preds));
        json_object(m)
    }
}

impl GenericParamDef {
    pub fn to_json(&self) -> (j: serde_json::Value)
        ensures
            json_of(j) == lower_param(*self),
    {
        let mut m = fields_new();
        put(&mut m, "param_def", json_string(self.name.clone()));
        put(&mut m, "def_id", json_string(def_id_str(&self.def_id)));
        json_object(m)
    }
}

fn gather_params(generics: &Generics, dest: &mut Vec<serde_json::Value>)
    ensures
        jsons_of(final(dest)@) == jsons_of(old(dest)@) + gathered_params(*generics),
    decreases generics,
{
    let ghost start = jsons_of(dest@);
    match &generics.parent {
        Some(parent) => {
            gather_params(parent, dest);
        },
        None => {
            assert(jsons_of(dest@) =~= start + Seq::<Json>::empty());
        },
    }
    let ghost outer = jsons_of(dest@);
    let ghost own = generics.params@.map_values(|p: GenericParamDef| lower_param(p));
    let mut i: usize = 0;
    assert(jsons_of(dest@) =~= outer + own.take(0));
    while i < generics.params.len()
        invariant
            i <= generics.params.len(),
            own == generics.params@.map_values(|p: GenericParamDef| lower_param(p)),
            jsons_of(dest@) == outer + own.take(i as int),
        decreases generics.params.len() - i,
    {
        let ghost before = jsons_of(dest@);
        let j = generics.params[i].to_json();
        dest.push(j);
        assert(jsons_of(dest@) =~= before.push(json_of(j)));
        assert(before.push(json_of(j)) =~= outer + own.take(i + 1));
        i += 1;
    }
    assert(own.take(generics.params.len() as int) =~= own);
    assert(jsons_of(dest@) =~= start + gathered_params(*generics));
}

impl Generics {
    pub fn to_json(&self) -> (j: serde_json::Value)
        ensures
            json_of(j) == lower_generics(*self),
    {
        let mut json_params: Vec<serde_json::Value> = Vec::new();
        assert(jsons_of(json_params@) =~= Seq::<Json>::empty());
        gather_params(self, &mut json_params);
        assert(jsons_of(json_params@) =~= gathered_params(*self));
        let mut m = fields_new();
        put(&mut m, "params", json_array(json_params));
        json_object(m)
    }
}

/// The item of the trait that an item of an impl implements: the item of
/// the impl's trait that has the same name and the same kind. There is none
/// for an item of a trait, for an item of an impl of no trait, and where
/// the trait has no such item.
pub open spec fn trait_item_of(tcx: TyCtxtView, item: AssocItemView) -> Option<AssocItemView> {
    match item.container {
        AssocItemContainerView::ImplContainer(impl_did) => match tcx.impl_trait_ref(impl_did) {
            Some(trait_did) => match tcx.associated_items(trait_did) {
                Some(items) => first_from(
                    items,
                    |i: AssocItemView| i.ident == item.ident && i.kind == item.kind,
                    0,
                ),
                None => None,
            },
            None => None,
        },
        AssocItemContainerView::TraitContainer(_) => None,
    }
}

/// The item of the trait that an item of an impl implements.
pub fn trait_item_for_impl_item<'a>(tcx: &'a TyCtxt, item: &AssocItem) -> (r: Option<&'a AssocItem>)
    ensures
        match r {
            Some(t) => trait_item_of(tcx@, item@) == Some(t@),
            None => trait_item_of(tcx@, item@) is None,
        },
{
    match &item.container {
        AssocItemContainer::ImplContainer(impl_did) => {
            match tcx.impl_trait_ref(impl_did) {
                Some(trait_did) => {
                    match tcx.associated_items(trait_did) {
                        Some(items) => {
                            let ghost views = items@.map_values(|i: AssocItem| i@);
                            let ghost p = |i: AssocItemView| i.ident == item@.ident && i.kind == item@.kind;
                            let mut i: usize = 0;
                            while i < items.len()
                                invariant
                                    i <= items.len(),
                                    views == items@.map_values(|i: AssocItem| i@),
                                    item.container == AssocItemContainer::ImplContainer(*impl_did),
                                    tcx@.impl_trait_ref(impl_did@) == Some(trait_did@),
                                    tcx@.associated_items(trait_did@) == Some(views),
                                    p == (|i: AssocItemView| i.ident == item@.ident && i.kind == item@.kind),
                                    first_from(views, p, 0) == first_from(views, p, i as int),
                                decreases items.len() - i,
                            {
                                let t = &items[i];
                                assert(views[i as int] == t@);
                                if t.ident == item.ident && t.kind == item.kind {
                                    return Some(t);
                                }
                                i += 1;
                            }
                            None
                        },
                        None => None,
                    }
                },
                None => None,
            }
        },
        AssocItemContainer::TraitContainer(_) => None,
    }
}

/// Whether an associated type has a value of its own.
pub open spec fn has_value(d: Defaultness) -> bool {
    d != (Defaultness::Default { has_value: false })
}

/// The members of a lowered item that depend on its kind, added to `m`.
pub open spec fn kind_members(s: Session, m: Map<Seq<char>, Json>, item: AssocItem) -> (
    Session,
    Map<Seq<char>, Json>,
) {
    match item.kind {
        AssocKind::Const => match item.ty {
            Some(t) => {
                let (s1, ty) = lower_ty(s, t@);
                (s1, m.insert("kind"@, Json::Str("Const"@)).insert("type"@, ty))
            },
            None => (s, m.insert("kind"@, Json::Str("Const"@))),
        },
        AssocKind::Method => match item.sig {
            Some(sig) => {
                let (s1, signature) = lower_sig(s, sig@);
                (s1, m.insert("kind"@, Json::Str("Method"@)).insert("signature"@, signature))
            },
            None => (s, m.insert("kind"@, Json::Str("Method"@))),
        },
        AssocKind::Type => match item.ty {
            Some(t) => if has_value(item.defaultness) {
                let (s1, ty) = lower_ty(s, t@);
                (s1, m.insert("kind"@, Json::Str("Type"@)).insert("type"@, ty))
            } else {
                (s, m.insert("kind"@, Json::Str("Type"@)))
            },
            None => (s, m.insert("kind"@, Json::Str("Type"@))),
        },
        AssocKind::OpaqueTy => (s, m.insert("kind"@, Json::Str("Existential"@))),
    }
}

/// `m` with the member `implements`, where the item implements an item of
/// a trait.
pub open spec fn with_implements(m: Map<Seq<char>, Json>, t: Option<AssocItemView>) -> Json {
    match t {
        Some(t) => Json::Obj(m.insert("implements"@, Json::Str(def_name(t.def_id)))),
        None => Json::Obj(m),
    }
}

/// An associated item, lowered: its name, its generic parameters, its
/// predicates, what its kind adds, and the item that it implements.
pub open spec fn lower_assoc_item(s: Session, item: AssocItem) -> (Session, Json) {
    let (s1, predicates) = lower_generic_predicates(s, item.predicates);
    let head = no_fields().insert("name"@, Json::Str(def_name(item.def_id@))).insert(
        "generics"@,
        lower_generics(item.generics),
    ).insert("predicates"@, predicates);
    let (s2, members) = kind_members(s1, head, item);
    (s2, with_implements(members, trait_item_of(s.tcx, item@)))
}

pub open spec fn assoc_item_readable(tcx: TyCtxtView, item: AssocItem) -> bool {
    &&& predicates_readable(tcx, item.predicates)
    &&& item.ty matches Some(t) ==> ty_readable(tcx, t@)
    &&& item.sig matches Some(sig) ==> sig_readable(tcx, sig@)
}

/// Lowers an associated item.
pub fn assoc_item_json(ms: &mut MirState, item: &AssocItem) -> (j: serde_json::Value)
    requires
        assoc_item_readable(old(ms)@.tcx, *item),
    ensures
        final(ms)@ == lower_assoc_item(old(ms)@, *item).0,
        json_of(j) == lower_assoc_item(old(ms)@, *item).1,
        final(ms).tcx == old(ms).tcx,
{
    let mut map = fields_new();
    put(&mut map, "name", json_string(def_id_str(&item.def_id)));
    put(&mut map, "generics", item.generics.to_json());
    put(&mut map, "predicates", item.predicates.to_json(ms));
    match item.kind {
        AssocKind::Const => {
            put(&mut map, "kind", json_str("Const"));
            match &item.ty {
                Some(t) => {
                    put(&mut map, "type", t.to_json(ms));
                },
                None => {},
            }
        },
        AssocKind::Method => {
            put(&mut map, "kind", json_str("Method"));
            match &item.sig {
                Some(sig) => {
                    put(&mut map, "signature", sig.to_json(ms));
                },
                None => {},
            }
        },
        AssocKind::Type => {
            put(&mut map, "kind", json_str("Type"));
            match &item.ty {
                Some(t) => {
                    let with_type: bool = match item.defaultness {
                        Defaultness::Default { has_value } => has_value,
                        Defaultness::Final => true,
                    };
                    if with_type {
                        put(&mut map, "type", t.to_json(ms));
                    }
                },
                None => {},
            }
        },
        AssocKind::OpaqueTy => {
            put(&mut map, "kind", json_str("Existential"));
        },
    }
    match trait_item_for_impl_item(&ms.tcx, item) {
        Some(trait_item) => {
            put(&mut map, "implements", json_string(def_id_str(&trait_item.def_id)));
        },
        None => {},
    }
    json_object(map)
}

/// The type of a definition, lowered; nothing where the host gave no type,
/// and then the session is unchanged.
pub open spec fn lower_def_type(s: Session, d: DefIdView) -> (Session, Option<Json>) {
    match s.tcx.type_of(d) {
        Some(t) => {
            let (s1, ty) = lower_ty(s, t);
            (s1, Some(ty))
        },
        None => (s, None),
    }
}

/// Lowers the type of a definition, if the host gave one.
pub fn defid_ty(d: &DefId, mir: &mut MirState) -> (j: Option<serde_json::Value>)
    requires
        old(mir)@.tcx.type_of(d@) matches Some(t) ==> ty_readable(old(mir)@.tcx, t),
    ensures
        final(mir)@ == lower_def_type(old(mir)@, d@).0,
        match j {
            Some(j) => lower_def_type(old(mir)@, d@).1 == Some(json_of(j)),
            None => lower_def_type(old(mir)@, d@).1 is None,
        },
        final(mir).tcx == old(mir).tcx,
{
    match mir.tcx.type_of(d) {
        Some(t) => {
            let ty = crate::copy::copy_ty(t);
            Some(ty.to_json(mir))
        },
        None => None,
    }
}

} // verus!
