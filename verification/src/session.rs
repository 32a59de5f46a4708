//! The state of one lowering session: what the host compiler has answered
//! (which instance a call resolves to, which vtable slots hold a method, what
//! a constant evaluates to), the interning table of types, and the sets of
//! instances, traits and data types that the output refers to.
use vstd::prelude::*;
use crate::json::{json_of, Json};
use crate::same::{same_adt_inst, same_args, same_def, same_instance, same_trait_inst, same_ty};
use crate::types::{
    AdtInst, AdtInstView, ConstValue, ConstValueView, DefId, DefIdView, GenericArg, GenericArgView, Instance,
    InstanceView, TraitInst, TraitInstView, Ty, TyView,
};
use crate::types::{adt_insts_view, args_view, instances_view, trait_insts_view};
use crate::assoc::{AssocItem, AssocItemView};
use crate::copy::{copy_args, copy_ty};

verus! {

/// The host's answer to one resolution: the call target `def_id` at
/// `substs` is the instance `instance`.
#[derive(Debug)]
pub struct Resolution {
    pub def_id: DefId,
    pub substs: Vec<GenericArg>,
    pub instance: Instance,
}

pub struct ResolutionView {
    pub def_id: DefIdView,
    pub substs: Seq<GenericArgView>,
    pub instance: InstanceView,
}

impl View for Resolution {
    type V = ResolutionView;

    open spec fn view(&self) -> ResolutionView {
        ResolutionView { def_id: self.def_id@, substs: args_view(self.substs@), instance: self.instance@ }
    }
}

/// The host's method table for one trait-object type: for each slot, in
/// the host's order, whether the slot holds a method.
#[derive(Debug)]
pub struct VtableMethods {
    pub self_ty: Ty,
    pub present: Vec<bool>,
}

pub struct VtableMethodsView {
    pub self_ty: TyView,
    pub present: Seq<bool>,
}

impl View for VtableMethods {
    type V = VtableMethodsView;

    open spec fn view(&self) -> VtableMethodsView {
        VtableMethodsView { self_ty: self.self_ty@, present: self.present@ }
    }
}

/// The host's answer to one constant evaluation.
#[derive(Debug)]
pub struct ConstEval {
    pub def_id: DefId,
    pub substs: Vec<GenericArg>,
    pub promoted: Option<u32>,
    pub value: ConstValue,
}

pub struct ConstEvalView {
    pub def_id: DefIdView,
    pub substs: Seq<GenericArgView>,
    pub promoted: Option<u32>,
    pub value: ConstValueView,
}

impl View for ConstEval {
    type V = ConstEvalView;

    open spec fn view(&self) -> ConstEvalView {
        ConstEvalView {
            def_id: self.def_id@,
            substs: args_view(self.substs@),
            promoted: self.promoted,
            value: self.value@,
        }
    }
}

/// The host's answer to which trait an impl implements.
#[derive(Debug)]
pub struct ImplTrait {
    pub impl_did: DefId,
    pub trait_did: DefId,
}

pub struct ImplTraitView {
    pub impl_did: DefIdView,
    pub trait_did: DefIdView,
}

impl View for ImplTrait {
    type V = ImplTraitView;

    open spec fn view(&self) -> ImplTraitView {
        ImplTraitView { impl_did: self.impl_did@, trait_did: self.trait_did@ }
    }
}

/// The associated items that the host lists for a trait.
#[derive(Debug)]
pub struct TraitItems {
    pub trait_did: DefId,
    pub items: Vec<AssocItem>,
}

pub struct TraitItemsView {
    pub trait_did: DefIdView,
    pub items: Seq<AssocItemView>,
}

impl View for TraitItems {
    type V = TraitItemsView;

    open spec fn view(&self) -> TraitItemsView {
        TraitItemsView { trait_did: self.trait_did@, items: self.items@.map_values(|i: AssocItem| i@) }
    }
}

/// The host's answer to what the type of a definition is.
#[derive(Debug)]
pub struct DefType {
    pub def_id: DefId,
    pub ty: Ty,
}

pub struct DefTypeView {
    pub def_id: DefIdView,
    pub ty: TyView,
}

impl View for DefType {
    type V = DefTypeView;

    open spec fn view(&self) -> DefTypeView {
        DefTypeView { def_id: self.def_id@, ty: self.ty@ }
    }
}

/// What the host compiler has answered. Where several entries answer the
/// same question, the first one counts.
#[derive(Debug)]
pub struct TyCtxt {
    pub resolutions: Vec<Resolution>,
    pub vtables: Vec<VtableMethods>,
    pub const_evals: Vec<ConstEval>,
    pub impl_traits: Vec<ImplTrait>,
    pub trait_items: Vec<TraitItems>,
    pub types: Vec<DefType>,
}

pub struct TyCtxtView {
    pub resolutions: Seq<ResolutionView>,
    pub vtables: Seq<VtableMethodsView>,
    pub const_evals: Seq<ConstEvalView>,
    pub impl_traits: Seq<ImplTraitView>,
    pub trait_items: Seq<TraitItemsView>,
    pub types: Seq<DefTypeView>,
}

impl View for TyCtxt {
    type V = TyCtxtView;

    open spec fn view(&self) -> TyCtxtView {
        TyCtxtView {
            resolutions: self.resolutions@.map_values(|r: Resolution| r@),
            vtables: self.vtables@.map_values(|v: VtableMethods| v@),
            const_evals: self.const_evals@.map_values(|c: ConstEval| c@),
            impl_traits: self.impl_traits@.map_values(|i: ImplTrait| i@),
            trait_items: self.trait_items@.map_values(|t: TraitItems| t@),
            types: self.types@.map_values(|t: DefType| t@),
        }
    }
}

/// The first element of `s`, from index `from` on, that satisfies `p`.
pub open spec fn first_from<A>(s: Seq<A>, p: spec_fn(A) -> bool, from: int) -> Option<A>
    decreases s.len() - from,
{
    if from < 0 || from >= s.len() {
        None
    } else if p(s[from]) {
        Some(s[from])
    } else {
        first_from(s, p, from + 1)
    }
}

impl TyCtxtView {
    /// The instance that the call target `def_id` at `substs` resolves to,
    /// if the host resolved it.
    pub open spec fn resolve(self, def_id: DefIdView, substs: Seq<GenericArgView>) -> Option<InstanceView> {
        match first_from(
            self.resolutions,
            |r: ResolutionView| r.def_id == def_id && r.substs == substs,
            0,
        ) {
            Some(r) => Some(r.instance),
            None => None,
        }
    }

    /// The method table of a trait-object type; empty where the host gave
    /// none.
    pub open spec fn vtable_methods(self, self_ty: TyView) -> Seq<bool> {
        match first_from(self.vtables, |v: VtableMethodsView| v.self_ty == self_ty, 0) {
            Some(v) => v.present,
            None => Seq::<bool>::empty(),
        }
    }

    /// The trait that the impl `impl_did` implements, if the host named
    /// one.
    pub open spec fn impl_trait_ref(self, impl_did: DefIdView) -> Option<DefIdView> {
        match first_from(self.impl_traits, |i: ImplTraitView| i.impl_did == impl_did, 0) {
            Some(i) => Some(i.trait_did),
            None => None,
        }
    }

    /// The associated items of the trait `trait_did`, if the host listed
    /// them.
    pub open spec fn associated_items(self, trait_did: DefIdView) -> Option<Seq<AssocItemView>> {
        match first_from(self.trait_items, |t: TraitItemsView| t.trait_did == trait_did, 0) {
            Some(t) => Some(t.items),
            None => None,
        }
    }

    /// The type of the definition `def_id`, if the host gave one.
    pub open spec fn type_of(self, def_id: DefIdView) -> Option<TyView> {
        match first_from(self.types, |t: DefTypeView| t.def_id == def_id, 0) {
            Some(t) => Some(t.ty),
            None => None,
        }
    }

    /// The value of the constant `def_id` at `substs`, or of its promoted
    /// constant `promoted`, if the host evaluated it.
    pub open spec fn const_eval(
        self,
        def_id: DefIdView,
        substs: Seq<GenericArgView>,
        promoted: Option<u32>,
    ) -> Option<ConstValueView> {
        match first_from(
            self.const_evals,
            |c: ConstEvalView| c.def_id == def_id && c.substs == substs && c.promoted == promoted,
            0,
        ) {
            Some(c) => Some(c.value),
            None => None,
        }
    }
}

impl TyCtxt {
    /// A host that has answered nothing.
    pub fn new() -> (tcx: TyCtxt)
        ensures
            tcx@.resolutions.len() == 0,
            tcx@.vtables.len() == 0,
            tcx@.const_evals.len() == 0,
            tcx@.impl_traits.len() == 0,
            tcx@.trait_items.len() == 0,
            tcx@.types.len() == 0,
    {
        TyCtxt {
            resolutions: Vec::new(),
            vtables: Vec::new(),
            const_evals: Vec::new(),
            impl_traits: Vec::new(),
            trait_items: Vec::new(),
            types: Vec::new(),
        }
    }

    /// The trait that an impl implements, if the host named one.
    pub fn impl_trait_ref(&self, impl_did: &DefId) -> (r: Option<&DefId>)
        ensures
            match r {
                Some(d) => self@.impl_trait_ref(impl_did@) == Some(d@),
                None => self@.impl_trait_ref(impl_did@) is None,
            },
    {
        let ghost p = |i: ImplTraitView| i.impl_did == impl_did@;
        let mut i: usize = 0;
        while i < self.impl_traits.len()
            invariant
                i <= self.impl_traits.len(),
                p == (|i: ImplTraitView| i.impl_did == impl_did@),
                first_from(self@.impl_traits, p, 0) == first_from(self@.impl_traits, p, i as int),
            decreases self.impl_traits.len() - i,
        {
            let e = &self.impl_traits[i];
            assert(self@.impl_traits[i as int] == e@);
            if same_def(&e.impl_did, impl_did) {
                return Some(&e.trait_did);
            }
            i += 1;
        }
        None
    }

    /// The associated items of a trait, if the host listed them.
    pub fn associated_items(&self, trait_did: &DefId) -> (r: Option<&Vec<AssocItem>>)
        ensures
            match r {
                Some(items) => self@.associated_items(trait_did@) == Some(
                    items@.map_values(|i: AssocItem| i@),
                ),
                None => self@.associated_items(trait_did@) is None,
            },
    {
        let ghost p = |t: TraitItemsView| t.trait_did == trait_did@;
        let mut i: usize = 0;
        while i < self.trait_items.len()
            invariant
                i <= self.trait_items.len(),
                p == (|t: TraitItemsView| t.trait_did == trait_did@),
                first_from(self@.trait_items, p, 0) == first_from(self@.trait_items, p, i as int),
            decreases self.trait_items.len() - i,
        {
            let e = &self.trait_items[i];
            assert(self@.trait_items[i as int] == e@);
            if same_def(&e.trait_did, trait_did) {
                return Some(&e.items);
            }
            i += 1;
        }
        None
    }

    /// The type of a definition, if the host gave one.
    pub fn type_of(&self, def_id: &DefId) -> (r: Option<&Ty>)
        ensures
            match r {
                Some(t) => self@.type_of(def_id@) == Some(t@),
                None => self@.type_of(def_id@) is None,
            },
    {
        let ghost p = |t: DefTypeView| t.def_id == def_id@;
        let mut i: usize = 0;
        while i < self.types.len()
            invariant
                i <= self.types.len(),
                p == (|t: DefTypeView| t.def_id == def_id@),
                first_from(self@.types, p, 0) == first_from(self@.types, p, i as int),
            decreases self.types.len() - i,
        {
            let e = &self.types[i];
            assert(self@.types[i as int] == e@);
            if same_def(&e.def_id, def_id) {
                return Some(&e.ty);
            }
            i += 1;
        }
        None
    }

    /// The instance that a call target resolves to, if the host resolved it.
    pub fn resolve(&self, def_id: &DefId, substs: &Vec<GenericArg>) -> (r: Option<&Instance>)
        ensures
            match r {
                Some(i) => self@.resolve(def_id@, args_view(substs@)) == Some(i@),
                None => self@.resolve(def_id@, args_view(substs@)) is None,
            },
    {
        let ghost p = |r: ResolutionView| r.def_id == def_id@ && r.substs == args_view(substs@);
        let mut i: usize = 0;
        while i < self.resolutions.len()
            invariant
                i <= self.resolutions.len(),
                p == (|r: ResolutionView| r.def_id == def_id@ && r.substs == args_view(substs@)),
                first_from(self@.resolutions, p, 0) == first_from(self@.resolutions, p, i as int),
            decreases self.resolutions.len() - i,
        {
            let r = &self.resolutions[i];
            assert(self@.resolutions[i as int] == r@);
            if same_def(&r.def_id, def_id) && same_args(&r.substs, substs) {
                return Some(&r.instance);
            }
            i += 1;
        }
        None
    }

    /// The method table of a trait-object type, if the host gave one.
    pub fn vtable_methods(&self, self_ty: &Ty) -> (r: Option<&Vec<bool>>)
        ensures
            match r {
                Some(v) => self@.vtable_methods(self_ty@) == v@,
                None => self@.vtable_methods(self_ty@) == Seq::<bool>::empty(),
            },
    {
        let ghost p = |v: VtableMethodsView| v.self_ty == self_ty@;
        let mut i: usize = 0;
        while i < self.vtables.len()
            invariant
                i <= self.vtables.len(),
                p == (|v: VtableMethodsView| v.self_ty == self_ty@),
                first_from(self@.vtables, p, 0) == first_from(self@.vtables, p, i as int),
            decreases self.vtables.len() - i,
        {
            let v = &self.vtables[i];
            assert(self@.vtables[i as int] == v@);
            if same_ty(&v.self_ty, self_ty) {
                return Some(&v.present);
            }
            i += 1;
        }
        None
    }

    /// The value of a constant, if the host evaluated it.
    pub fn const_eval(&self, def_id: &DefId, substs: &Vec<GenericArg>, promoted: Option<u32>) -> (r: Option<
        &ConstValue,
    >)
        ensures
            match r {
                Some(v) => self@.const_eval(def_id@, args_view(substs@), promoted) == Some(v@),
                None => self@.const_eval(def_id@, args_view(substs@), promoted) is None,
            },
    {
        let ghost p = |c: ConstEvalView|
            c.def_id == def_id@ && c.substs == args_view(substs@) && c.promoted == promoted;
        let mut i: usize = 0;
        while i < self.const_evals.len()
            invariant
                i <= self.const_evals.len(),
                p == (|c: ConstEvalView|
                    c.def_id == def_id@ && c.substs == args_view(substs@) && c.promoted == promoted),
                first_from(self@.const_evals, p, 0) == first_from(self@.const_evals, p, i as int),
            decreases self.const_evals.len() - i,
        {
            let c = &self.const_evals[i];
            assert(self@.const_evals[i as int] == c@);
            let same_promoted: bool = match (c.promoted, promoted) {
                (Some(x), Some(y)) => x == y,
                (None, None) => true,
                _ => false,
            };
            if same_def(&c.def_id, def_id) && same_args(&c.substs, substs) && same_promoted {
                return Some(&c.value);
            }
            i += 1;
        }
        None
    }
}

/// The index of the first element of `s` equal to `x`.
pub open spec fn position<A>(s: Seq<A>, x: A) -> Option<int>
    decreases s.len(),
{
    if s.len() == 0 {
        None
    } else {
        match position(s.drop_last(), x) {
            Some(i) => Some(i),
            None => if s.last() == x {
                Some(s.len() - 1)
            } else {
                None
            },
        }
    }
}

/// `s` with `x` at its end, unless `x` is in `s` already.
pub open spec fn added<A>(s: Seq<A>, x: A) -> Seq<A> {
    if s.contains(x) {
        s
    } else {
        s.push(x)
    }
}

/// What `position` finds: the least index that holds `x`, or nothing where
/// no index holds it.
pub proof fn lemma_position<A>(s: Seq<A>, x: A)
    ensures
        match position(s, x) {
            Some(i) => 0 <= i < s.len() && s[i] == x && forall|j: int| 0 <= j < i ==> s[j] != x,
            None => forall|j: int| 0 <= j < s.len() ==> s[j] != x,
        },
    decreases s.len(),
{
    if s.len() > 0 {
        let t = s.drop_last();
        lemma_position(t, x);
        assert forall|j: int| 0 <= j < t.len() implies #[trigger] t[j] == s[j] by {}
        match position(t, x) {
            Some(i) => {
                assert(t[i] == s[i]);
                assert forall|j: int| 0 <= j < i implies s[j] != x by {
                    assert(t[j] == s[j]);
                }
            },
            None => {
                assert forall|j: int| 0 <= j < s.len() - 1 implies s[j] != x by {
                    assert(t[j] == s[j]);
                }
            },
        }
    }
}

/// Whichever index is the least to hold `x` is what `position` finds.
pub proof fn lemma_position_is<A>(s: Seq<A>, x: A, i: int)
    requires
        0 <= i < s.len(),
        s[i] == x,
        forall|j: int| 0 <= j < i ==> s[j] != x,
    ensures
        position(s, x) == Some(i),
{
    lemma_position(s, x);
}

/// Something that went wrong without stopping the lowering.
#[derive(Debug)]
pub enum Diagnostic {
    /// The host could not resolve this call target; it goes by the bare
    /// name of its definition.
    UnresolvedFn(DefId, Vec<GenericArg>),
    /// A clone adapter was asked for a type that is neither an array, a
    /// tuple nor a closure; no callee is listed for it.
    UnknownCloneShim(Ty),
}

pub enum DiagnosticView {
    UnresolvedFn(DefIdView, Seq<GenericArgView>),
    UnknownCloneShim(TyView),
}

impl View for Diagnostic {
    type V = DiagnosticView;

    open spec fn view(&self) -> DiagnosticView {
        match self {
            Diagnostic::UnresolvedFn(d, args) => DiagnosticView::UnresolvedFn(d@, args_view(args@)),
            Diagnostic::UnknownCloneShim(t) => DiagnosticView::UnknownCloneShim(t@),
        }
    }
}

/// The views of a list of diagnostics.
pub open spec fn diagnostics_view(v: Seq<Diagnostic>) -> Seq<DiagnosticView> {
    v.map_values(|d: Diagnostic| d@)
}

/// The mutable part of a session, and the host's answers, as mathematical
/// values.
pub struct Session {
    pub tcx: TyCtxtView,
    /// The interned types, by ID.
    pub keys: Seq<TyView>,
    /// The lowered form of each interned type, by ID.
    pub bodies: Seq<Json>,
    /// The instances referred to so far, in order of first use.
    pub instances: Seq<InstanceView>,
    /// The trait instances referred to so far, in order of first use.
    pub traits: Seq<TraitInstView>,
    /// The data-type instantiations referred to so far, in order of first
    /// use.
    pub adts: Seq<AdtInstView>,
    /// What went wrong so far, in order.
    pub diagnostics: Seq<DiagnosticView>,
}

impl Session {
    /// The ID under which a type is interned.
    pub open spec fn ty_id(self, t: TyView) -> Option<int> {
        position(self.keys, t)
    }

    /// The session after `t` has been given the next ID and the lowered
    /// form `body`; unchanged where `t` is interned already.
    pub open spec fn interned(self, t: TyView, body: Json) -> Session {
        if self.ty_id(t) is Some {
            self
        } else {
            Session { keys: self.keys.push(t), bodies: self.bodies.push(body), ..self }
        }
    }

    /// The ID of `t` after `self.interned(t, _)`.
    pub open spec fn id_after(self, t: TyView) -> int {
        match self.ty_id(t) {
            Some(id) => id,
            None => self.keys.len() as int,
        }
    }

    pub open spec fn with_instance(self, i: InstanceView) -> Session {
        Session { instances: added(self.instances, i), ..self }
    }

    pub open spec fn with_trait(self, t: TraitInstView) -> Session {
        Session { traits: added(self.traits, t), ..self }
    }

    pub open spec fn with_adt(self, a: AdtInstView) -> Session {
        Session { adts: added(self.adts, a), ..self }
    }

    pub open spec fn with_diagnostic(self, d: DiagnosticView) -> Session {
        Session { diagnostics: self.diagnostics.push(d), ..self }
    }
}

/// One entry of the interning table.
pub struct TyEntry {
    pub ty: Ty,
    pub body: serde_json::Value,
}

/// The interning table: each type that has been lowered, with its lowered
/// form. The ID of a type is its index.
pub struct TyIntern {
    pub entries: Vec<TyEntry>,
}

impl TyIntern {
    pub open spec fn keys(&self) -> Seq<TyView> {
        self.entries@.map_values(|e: TyEntry| e.ty@)
    }

    pub open spec fn bodies(&self) -> Seq<Json> {
        self.entries@.map_values(|e: TyEntry| json_of(e.body))
    }

    pub fn new() -> (t: TyIntern)
        ensures
            t.keys().len() == 0,
            t.bodies().len() == 0,
    {
        TyIntern { entries: Vec::new() }
    }

    /// The ID of a type, if it is interned.
    pub fn get(&self, ty: &Ty) -> (r: Option<usize>)
        ensures
            match r {
                Some(id) => position(self.keys(), ty@) == Some(id as int),
                None => position(self.keys(), ty@) is None,
            },
    {
        let mut i: usize = 0;
        while i < self.entries.len()
            invariant
                i <= self.entries.len(),
                forall|j: int| 0 <= j < i ==> self.keys()[j] != ty@,
            decreases self.entries.len() - i,
        {
            if same_ty(&self.entries[i].ty, ty) {
                proof {
                    lemma_position_is(self.keys(), ty@, i as int);
                }
                return Some(i);
            }
            i += 1;
        }
        proof {
            lemma_position(self.keys(), ty@);
        }
        None
    }

    /// Gives a type the next ID and stores its lowered form; where the type
    /// is interned already, returns its ID and changes nothing.
    pub fn insert(&mut self, ty: Ty, body: serde_json::Value) -> (id: usize)
        ensures
            position(old(self).keys(), ty@) is Some ==> {
                &&& final(self).keys() == old(self).keys()
                &&& final(self).bodies() == old(self).bodies()
                &&& position(old(self).keys(), ty@) == Some(id as int)
            },
            position(old(self).keys(), ty@) is None ==> {
                &&& final(self).keys() == old(self).keys().push(ty@)
                &&& final(self).bodies() == old(self).bodies().push(json_of(body))
                &&& id == old(self).keys().len()
            },
    {
        match self.get(&ty) {
            Some(id) => id,
            None => {
                let id: usize = self.entries.len();
                self.entries.push(TyEntry { ty, body });
                assert(self.keys() =~= old(self).keys().push(ty@));
                assert(self.bodies() =~= old(self).bodies().push(json_of(body)));
                id
            },
        }
    }
}

/// The instances, trait instances and data-type instantiations that the
/// lowered output refers to, each once, in order of first use.
#[derive(Debug)]
pub struct Used {
    pub instances: Vec<Instance>,
    pub traits: Vec<TraitInst>,
    pub types: Vec<AdtInst>,
}

impl Used {
    pub fn new() -> (u: Used)
        ensures
            u.instances@.len() == 0,
            u.traits@.len() == 0,
            u.types@.len() == 0,
    {
        Used { instances: Vec::new(), traits: Vec::new(), types: Vec::new() }
    }

    /// Records an instance, unless it is recorded already.
    pub fn insert_instance(&mut self, inst: Instance)
        ensures
            instances_view(final(self).instances@) == added(instances_view(old(self).instances@), inst@),
            final(self).traits == old(self).traits,
            final(self).types == old(self).types,
    {
        let mut i: usize = 0;
        while i < self.instances.len()
            invariant
                i <= self.instances.len(),
                *self == *old(self),
                forall|j: int| 0 <= j < i ==> instances_view(self.instances@)[j] != inst@,
            decreases self.instances.len() - i,
        {
            if same_instance(&self.instances[i], &inst) {
                assert(instances_view(self.instances@)[i as int] == inst@);
                return ;
            }
            i += 1;
        }
        self.instances.push(inst);
        assert(instances_view(self.instances@) =~= instances_view(old(self).instances@).push(inst@));
    }

    /// Records a trait instance, unless it is recorded already.
    pub fn insert_trait(&mut self, ti: TraitInst)
        ensures
            trait_insts_view(final(self).traits@) == added(trait_insts_view(old(self).traits@), ti@),
            final(self).instances == old(self).instances,
            final(self).types == old(self).types,
    {
        let mut i: usize = 0;
        while i < self.traits.len()
            invariant
                i <= self.traits.len(),
                *self == *old(self),
                forall|j: int| 0 <= j < i ==> trait_insts_view(self.traits@)[j] != ti@,
            decreases self.traits.len() - i,
        {
            if same_trait_inst(&self.traits[i], &ti) {
                assert(trait_insts_view(self.traits@)[i as int] == ti@);
                return ;
            }
            i += 1;
        }
        self.traits.push(ti);
        assert(trait_insts_view(self.traits@) =~= trait_insts_view(old(self).traits@).push(ti@));
    }

    /// Records an instantiation of a data type, unless it is recorded
    /// already.
    pub fn insert_type(&mut self, ai: AdtInst)
        ensures
            adt_insts_view(final(self).types@) == added(adt_insts_view(old(self).types@), ai@),
            final(self).instances == old(self).instances,
            final(self).traits == old(self).traits,
    {
        let mut i: usize = 0;
        while i < self.types.len()
            invariant
                i <= self.types.len(),
                *self == *old(self),
                forall|j: int| 0 <= j < i ==> adt_insts_view(self.types@)[j] != ai@,
            decreases self.types.len() - i,
        {
            if same_adt_inst(&self.types[i], &ai) {
                assert(adt_insts_view(self.types@)[i as int] == ai@);
                return ;
            }
            i += 1;
        }
        self.types.push(ai);
        assert(adt_insts_view(self.types@) =~= adt_insts_view(old(self).types@).push(ai@));
    }
}

/// One lowering session.
pub struct MirState {
    pub tcx: TyCtxt,
    pub tys: TyIntern,
    pub used: Used,
    pub diagnostics: Vec<Diagnostic>,
}

impl View for MirState {
    type V = Session;

    open spec fn view(&self) -> Session {
        Session {
            tcx: self.tcx@,
            keys: self.tys.keys(),
            bodies: self.tys.bodies(),
            instances: instances_view(self.used.instances@),
            traits: trait_insts_view(self.used.traits@),
            adts: adt_insts_view(self.used.types@),
            diagnostics: diagnostics_view(self.diagnostics@),
        }
    }
}

impl MirState {
    /// A session over the given host answers, with nothing interned and
    /// nothing referred to.
    pub fn new(tcx: TyCtxt) -> (mir: MirState)
        ensures
            mir@.tcx == tcx@,
            mir@.keys.len() == 0,
            mir@.bodies.len() == 0,
            mir@.instances.len() == 0,
            mir@.traits.len() == 0,
            mir@.adts.len() == 0,
            mir@.diagnostics.len() == 0,
    {
        MirState { tcx, tys: TyIntern::new(), used: Used::new(), diagnostics: Vec::new() }
    }

    /// Notes that a call target could not be resolved.
    pub fn note_unresolved(&mut self, def_id: &DefId, substs: &Vec<GenericArg>)
        ensures
            final(self)@ == old(self)@.with_diagnostic(
                DiagnosticView::UnresolvedFn(def_id@, args_view(substs@)),
            ),
            final(self).tcx == old(self).tcx,
            final(self).tys == old(self).tys,
            final(self).used == old(self).used,
    {
        let d = Diagnostic::UnresolvedFn(def_id.clone(), copy_args(substs));
        self.diagnostics.push(d);
        assert(diagnostics_view(self.diagnostics@) =~= diagnostics_view(old(self).diagnostics@).push(d@));
    }

    /// Notes that a clone adapter was asked for a type it has no parts for.
    pub fn note_unknown_clone_shim(&mut self, ty: &Ty)
        ensures
            final(self)@ == old(self)@.with_diagnostic(DiagnosticView::UnknownCloneShim(ty@)),
            final(self).tcx == old(self).tcx,
            final(self).tys == old(self).tys,
            final(self).used == old(self).used,
    {
        let d = Diagnostic::UnknownCloneShim(copy_ty(ty));
        self.diagnostics.push(d);
        assert(diagnostics_view(self.diagnostics@) =~= diagnostics_view(old(self).diagnostics@).push(d@));
    }
}

} // verus!
