//! The program items that are lowered: definitions, types, generic arguments,
//! constants, function instances, trait objects and data-type instantiations.
//!
//! Every item is taken as already normalized: lifetimes are erased and
//! projections that can be resolved are resolved. Each type here has a view, a
//! value built from sequences and integers only; two items are the same item
//! exactly when their views are equal, and every contract of this crate speaks
//! of views.
use vstd::prelude::*;

verus! {

/// A definition of the program: the crate that owns it, that crate's
/// disambiguator, and the path of the definition inside the crate.
#[derive(Debug)]
pub struct DefId {
    pub krate: String,
    pub disambiguator: String,
    pub path: String,
}

pub struct DefIdView {
    pub krate: Seq<char>,
    pub disambiguator: Seq<char>,
    pub path: Seq<char>,
}

impl View for DefId {
    type V = DefIdView;

    open spec fn view(&self) -> DefIdView {
        DefIdView { krate: self.krate@, disambiguator: self.disambiguator@, path: self.path@ }
    }
}

#[derive(Clone, Copy, Debug, PartialEq, Eq, Structural)]
pub enum IntTy {
    Isize,
    I8,
    I16,
    I32,
    I64,
    I128,
}

#[derive(Clone, Copy, Debug, PartialEq, Eq, Structural)]
pub enum UintTy {
    Usize,
    U8,
    U16,
    U32,
    U64,
    U128,
}

#[derive(Clone, Copy, Debug, PartialEq, Eq, Structural)]
pub enum FloatTy {
    F32,
    F64,
}

#[derive(Clone, Copy, Debug, PartialEq, Eq, Structural)]
pub enum Mutability {
    Mut,
    Not,
}

/// The calling convention of a function signature.
#[derive(Clone, Copy, Debug, PartialEq, Eq, Structural)]
pub enum Abi {
    Rust,
    C,
    Cdecl,
    Stdcall,
    Fastcall,
    Vectorcall,
    Thiscall,
    Aapcs,
    Win64,
    SysV64,
    PtxKernel,
    Msp430Interrupt,
    X86Interrupt,
    AmdGpuKernel,
    EfiApi,
    RustIntrinsic,
    RustCall,
    PlatformIntrinsic,
    Unadjusted,
}

/// A type. Kinds that have no lowered form of their own (`Foreign`,
/// `Generator`, `GeneratorWitness`, `Opaque`, `Bound`, `Placeholder`, `Infer`)
/// carry nothing.
#[derive(Debug)]
pub enum Ty {
    Bool,
    Char,
    Int(IntTy),
    Uint(UintTy),
    Float(FloatTy),
    /// A data type, by its definition and the arguments of the instantiation.
    Adt(DefId, Vec<GenericArg>),
    Foreign,
    Str,
    /// Element type and length.
    Array(Box<Ty>, Box<Const>),
    Slice(Box<Ty>),
    RawPtr(Box<Ty>, Mutability),
    Ref(Box<Ty>, Mutability),
    /// The type of a function item.
    FnDef(DefId, Vec<GenericArg>),
    FnPtr(Box<FnSig>),
    /// A trait object, by its existential predicates.
    Dynamic(Vec<ExistentialPredicate>),
    /// A closure: its definition, its arguments, and the types it captures.
    Closure(DefId, Vec<GenericArg>, Vec<Ty>),
    Generator,
    GeneratorWitness,
    Never,
    Tuple(Vec<Ty>),
    Projection(DefId, Vec<GenericArg>),
    UnnormalizedProjection(DefId, Vec<GenericArg>),
    Opaque,
    /// A type parameter, by its index.
    Param(u32),
    Bound,
    Placeholder,
    Infer,
    Error,
}

/// One argument of an instantiation.
#[derive(Debug)]
pub enum GenericArg {
    Type(Ty),
    Lifetime,
    Const(Const),
}

#[derive(Debug)]
pub struct FnSig {
    pub inputs: Vec<Ty>,
    pub output: Ty,
    pub c_variadic: bool,
    pub is_unsafe: bool,
    pub abi: Abi,
}

/// The principal trait of a trait object, without its `Self` type.
#[derive(Debug)]
pub struct ExistentialTraitRef {
    pub def_id: DefId,
    pub substs: Vec<GenericArg>,
}

/// An associated type of a trait object, fixed to `ty`.
#[derive(Debug)]
pub struct ExistentialProjection {
    pub item_def_id: DefId,
    pub substs: Vec<GenericArg>,
    pub ty: Ty,
}

#[derive(Debug)]
pub enum ExistentialPredicate {
    Trait(ExistentialTraitRef),
    Projection(ExistentialProjection),
    AutoTrait(DefId),
}

/// A compile-time constant: its type and what is known of its value.
#[derive(Debug)]
pub struct Const {
    pub ty: Ty,
    pub val: ConstKind,
}

#[derive(Debug)]
pub enum ConstKind {
    /// Not yet evaluated: the definition that computes it, the arguments, and
    /// the index of the promoted constant inside that definition, if any.
    Unevaluated(DefId, Vec<GenericArg>, Option<u32>),
    Value(ConstValue),
}

/// An evaluated constant.
#[derive(Debug)]
pub enum ConstValue {
    /// `size` bytes with the bit pattern `data`. For a constant of a
    /// floating-point type, `float_text` is the decimal text of the number
    /// that `data` encodes.
    Scalar { size: u8, data: u128, float_text: Option<String> },
    /// A pointer; `static_def` is the static item it points to, if it points
    /// to one.
    Ptr { static_def: Option<DefId> },
    /// The byte range `start..end` of an allocation that holds `bytes` and
    /// `relocations` pointers.
    Slice { bytes: Vec<u8>, relocations: usize, start: usize, end: usize },
    /// A value held in memory in some other form.
    ByRef,
}

/// The trait of a trait object: no trait at all, or a principal trait with
/// its associated-type bindings in their canonical order.
#[derive(Debug)]
pub struct TraitInst {
    pub trait_ref: Option<ExistentialTraitRef>,
    pub projs: Vec<ExistentialProjection>,
}

/// One instantiation of a data type.
#[derive(Debug)]
pub struct AdtInst {
    pub adt: DefId,
    pub substs: Vec<GenericArg>,
}

/// What an instance is: an item of the program, or one of the adapters that
/// the compiler makes for it.
#[derive(Debug)]
pub enum InstanceDef {
    Item(DefId),
    Intrinsic(DefId),
    VtableShim(DefId),
    ReifyShim(DefId),
    /// Adapter for a call through a function pointer of the given type.
    FnPtrShim(DefId, Ty),
    /// Dynamic dispatch of a trait method: the method, its slot in the
    /// vtable as the compiler counts, and the trait that owns the method,
    /// instantiated.
    Virtual(DefId, usize, TraitInst),
    ClosureOnceShim { call_once: DefId },
    /// Drop glue for the given type, if there is anything to drop.
    DropGlue(DefId, Option<Ty>),
    /// Clone adapter for the given array, tuple or closure type.
    CloneShim(DefId, Ty),
}

/// A function of the program at given generic arguments.
#[derive(Debug)]
pub struct Instance {
    pub def: InstanceDef,
    pub substs: Vec<GenericArg>,
}

pub struct TraitInstView {
    pub trait_ref: Option<ExistentialTraitRefView>,
    pub projs: Seq<ExistentialProjectionView>,
}

pub struct AdtInstView {
    pub adt: DefIdView,
    pub substs: Seq<GenericArgView>,
}

pub enum InstanceDefView {
    Item(DefIdView),
    Intrinsic(DefIdView),
    VtableShim(DefIdView),
    ReifyShim(DefIdView),
    FnPtrShim(DefIdView, TyView),
    Virtual(DefIdView, usize, TraitInstView),
    ClosureOnceShim { call_once: DefIdView },
    DropGlue(DefIdView, Option<TyView>),
    CloneShim(DefIdView, TyView),
}

pub struct InstanceView {
    pub def: InstanceDefView,
    pub substs: Seq<GenericArgView>,
}

pub enum TyView {
    Bool,
    Char,
    Int(IntTy),
    Uint(UintTy),
    Float(FloatTy),
    Adt(DefIdView, Seq<GenericArgView>),
    Foreign,
    Str,
    Array(Box<TyView>, Box<ConstView>),
    Slice(Box<TyView>),
    RawPtr(Box<TyView>, Mutability),
    Ref(Box<TyView>, Mutability),
    FnDef(DefIdView, Seq<GenericArgView>),
    FnPtr(Box<FnSigView>),
    Dynamic(Seq<ExistentialPredicateView>),
    Closure(DefIdView, Seq<GenericArgView>, Seq<TyView>),
    Generator,
    GeneratorWitness,
    Never,
    Tuple(Seq<TyView>),
    Projection(DefIdView, Seq<GenericArgView>),
    UnnormalizedProjection(DefIdView, Seq<GenericArgView>),
    Opaque,
    Param(u32),
    Bound,
    Placeholder,
    Infer,
    Error,
}

pub enum GenericArgView {
    Type(TyView),
    Lifetime,
    Const(ConstView),
}

pub struct FnSigView {
    pub inputs: Seq<TyView>,
    pub output: TyView,
    pub c_variadic: bool,
    pub is_unsafe: bool,
    pub abi: Abi,
}

pub struct ExistentialTraitRefView {
    pub def_id: DefIdView,
    pub substs: Seq<GenericArgView>,
}

pub struct ExistentialProjectionView {
    pub item_def_id: DefIdView,
    pub substs: Seq<GenericArgView>,
    pub ty: TyView,
}

pub enum ExistentialPredicateView {
    Trait(ExistentialTraitRefView),
    Projection(ExistentialProjectionView),
    AutoTrait(DefIdView),
}

pub struct ConstView {
    pub ty: TyView,
    pub val: ConstKindView,
}

pub enum ConstKindView {
    Unevaluated(DefIdView, Seq<GenericArgView>, Option<u32>),
    Value(ConstValueView),
}

pub enum ConstValueView {
    Scalar { size: u8, data: u128, float_text: Option<Seq<char>> },
    Ptr { static_def: Option<DefIdView> },
    Slice { bytes: Seq<u8>, relocations: usize, start: usize, end: usize },
    ByRef,
}

/// The view of a type.
pub open spec fn ty_view(t: Ty) -> TyView
    decreases t,
{
    match t {
        Ty::Bool => TyView::Bool,
        Ty::Char => TyView::Char,
        Ty::Int(i) => TyView::Int(i),
        Ty::Uint(u) => TyView::Uint(u),
        Ty::Float(f) => TyView::Float(f),
        Ty::Adt(d, args) => TyView::Adt(d@, args_view(args@)),
        Ty::Foreign => TyView::Foreign,
        Ty::Str => TyView::Str,
        Ty::Array(e, n) => TyView::Array(Box::new(ty_view(*e)), Box::new(const_view(*n))),
        Ty::Slice(e) => TyView::Slice(Box::new(ty_view(*e))),
        Ty::RawPtr(e, m) => TyView::RawPtr(Box::new(ty_view(*e)), m),
        Ty::Ref(e, m) => TyView::Ref(Box::new(ty_view(*e)), m),
        Ty::FnDef(d, args) => TyView::FnDef(d@, args_view(args@)),
        Ty::FnPtr(sig) => TyView::FnPtr(Box::new(sig_view(*sig))),
        Ty::Dynamic(preds) => TyView::Dynamic(preds_view(preds@)),
        Ty::Closure(d, args, upvars) => TyView::Closure(d@, args_view(args@), tys_view(upvars@)),
        Ty::Generator => TyView::Generator,
        Ty::GeneratorWitness => TyView::GeneratorWitness,
        Ty::Never => TyView::Never,
        Ty::Tuple(tys) => TyView::Tuple(tys_view(tys@)),
        Ty::Projection(d, args) => TyView::Projection(d@, args_view(args@)),
        Ty::UnnormalizedProjection(d, args) => TyView::UnnormalizedProjection(d@, args_view(args@)),
        Ty::Opaque => TyView::Opaque,
        Ty::Param(i) => TyView::Param(i),
        Ty::Bound => TyView::Bound,
        Ty::Placeholder => TyView::Placeholder,
        Ty::Infer => TyView::Infer,
        Ty::Error => TyView::Error,
    }
}

/// The views of a list of types.
pub open spec fn tys_view(v: Seq<Ty>) -> Seq<TyView>
    decreases v,
{
    Seq::new(v.len(), |i: int| if 0 <= i < v.len() { ty_view(v[i]) } else { TyView::Error })
}

/// The view of a generic argument.
pub open spec fn arg_view(a: GenericArg) -> GenericArgView
    decreases a,
{
    match a {
        GenericArg::Type(t) => GenericArgView::Type(ty_view(t)),
        GenericArg::Lifetime => GenericArgView::Lifetime,
        GenericArg::Const(c) => GenericArgView::Const(const_view(c)),
    }
}

/// The views of a list of generic arguments.
pub open spec fn args_view(v: Seq<GenericArg>) -> Seq<GenericArgView>
    decreases v,
{
    Seq::new(v.len(), |i: int| if 0 <= i < v.len() { arg_view(v[i]) } else { GenericArgView::Lifetime })
}

/// The view of a function signature.
pub open spec fn sig_view(s: FnSig) -> FnSigView
    decreases s,
{
    FnSigView {
        inputs: tys_view(s.inputs@),
        output: ty_view(s.output),
        c_variadic: s.c_variadic,
        is_unsafe: s.is_unsafe,
        abi: s.abi,
    }
}

/// The view of a principal trait.
pub open spec fn trait_ref_view(t: ExistentialTraitRef) -> ExistentialTraitRefView
    decreases t,
{
    ExistentialTraitRefView { def_id: t.def_id@, substs: args_view(t.substs@) }
}

/// The view of an associated-type binding.
pub open spec fn projection_view(p: ExistentialProjection) -> ExistentialProjectionView
    decreases p,
{
    ExistentialProjectionView {
        item_def_id: p.item_def_id@,
        substs: args_view(p.substs@),
        ty: ty_view(p.ty),
    }
}

/// The view of an existential predicate.
pub open spec fn pred_view(p: ExistentialPredicate) -> ExistentialPredicateView
    decreases p,
{
    match p {
        ExistentialPredicate::Trait(t) => ExistentialPredicateView::Trait(trait_ref_view(t)),
        ExistentialPredicate::Projection(q) => ExistentialPredicateView::Projection(projection_view(q)),
        ExistentialPredicate::AutoTrait(d) => ExistentialPredicateView::AutoTrait(d@),
    }
}

/// The views of a list of existential predicates.
pub open spec fn preds_view(v: Seq<ExistentialPredicate>) -> Seq<ExistentialPredicateView>
    decreases v,
{
    Seq::new(
        v.len(),
        |i: int|
            if 0 <= i < v.len() {
                pred_view(v[i])
            } else {
                ExistentialPredicateView::AutoTrait(
                    DefIdView { krate: seq![], disambiguator: seq![], path: seq![] },
                )
            },
    )
}

/// The views of a list of associated-type bindings.
pub open spec fn projections_view(v: Seq<ExistentialProjection>) -> Seq<ExistentialProjectionView> {
    v.map_values(|p: ExistentialProjection| projection_view(p))
}

/// The view of a constant.
pub open spec fn const_view(c: Const) -> ConstView
    decreases c,
{
    ConstView { ty: ty_view(c.ty), val: const_kind_view(c.val) }
}

/// The view of what is known of a constant's value.
pub open spec fn const_kind_view(k: ConstKind) -> ConstKindView
    decreases k,
{
    match k {
        ConstKind::Unevaluated(d, args, promoted) => ConstKindView::Unevaluated(
            d@,
            args_view(args@),
            promoted,
        ),
        ConstKind::Value(v) => ConstKindView::Value(v@),
    }
}

pub open spec fn opt_def_view(d: Option<DefId>) -> Option<DefIdView> {
    match d {
        Some(d) => Some(d@),
        None => None,
    }
}

pub open spec fn opt_text_view(s: Option<String>) -> Option<Seq<char>> {
    match s {
        Some(s) => Some(s@),
        None => None,
    }
}

impl View for ConstValue {
    type V = ConstValueView;

    open spec fn view(&self) -> ConstValueView {
        match self {
            ConstValue::Scalar { size, data, float_text } => ConstValueView::Scalar {
                size: *size,
                data: *data,
                float_text: opt_text_view(*float_text),
            },
            ConstValue::Ptr { static_def } => ConstValueView::Ptr { static_def: opt_def_view(*static_def) },
            ConstValue::Slice { bytes, relocations, start, end } => ConstValueView::Slice {
                bytes: bytes@,
                relocations: *relocations,
                start: *start,
                end: *end,
            },
            ConstValue::ByRef => ConstValueView::ByRef,
        }
    }
}

impl View for Ty {
    type V = TyView;

    open spec fn view(&self) -> TyView {
        ty_view(*self)
    }
}

impl View for GenericArg {
    type V = GenericArgView;

    open spec fn view(&self) -> GenericArgView {
        arg_view(*self)
    }
}

impl View for FnSig {
    type V = FnSigView;

    open spec fn view(&self) -> FnSigView {
        sig_view(*self)
    }
}

impl View for ExistentialTraitRef {
    type V = ExistentialTraitRefView;

    open spec fn view(&self) -> ExistentialTraitRefView {
        trait_ref_view(*self)
    }
}

impl View for ExistentialProjection {
    type V = ExistentialProjectionView;

    open spec fn view(&self) -> ExistentialProjectionView {
        projection_view(*self)
    }
}

impl View for ExistentialPredicate {
    type V = ExistentialPredicateView;

    open spec fn view(&self) -> ExistentialPredicateView {
        pred_view(*self)
    }
}

impl View for Const {
    type V = ConstView;

    open spec fn view(&self) -> ConstView {
        const_view(*self)
    }
}

impl View for ConstKind {
    type V = ConstKindView;

    open spec fn view(&self) -> ConstKindView {
        const_kind_view(*self)
    }
}

pub open spec fn opt_ty_view(t: Option<Ty>) -> Option<TyView> {
    match t {
        Some(t) => Some(t@),
        None => None,
    }
}

pub open spec fn opt_trait_ref_view(t: Option<ExistentialTraitRef>) -> Option<ExistentialTraitRefView> {
    match t {
        Some(t) => Some(t@),
        None => None,
    }
}

impl View for TraitInst {
    type V = TraitInstView;

    open spec fn view(&self) -> TraitInstView {
        TraitInstView {
            trait_ref: opt_trait_ref_view(self.trait_ref),
            projs: projections_view(self.projs@),
        }
    }
}

impl View for AdtInst {
    type V = AdtInstView;

    open spec fn view(&self) -> AdtInstView {
        AdtInstView { adt: self.adt@, substs: args_view(self.substs@) }
    }
}

impl View for InstanceDef {
    type V = InstanceDefView;

    open spec fn view(&self) -> InstanceDefView {
        match self {
            InstanceDef::Item(d) => InstanceDefView::Item(d@),
            InstanceDef::Intrinsic(d) => InstanceDefView::Intrinsic(d@),
            InstanceDef::VtableShim(d) => InstanceDefView::VtableShim(d@),
            InstanceDef::ReifyShim(d) => InstanceDefView::ReifyShim(d@),
            InstanceDef::FnPtrShim(d, t) => InstanceDefView::FnPtrShim(d@, t@),
            InstanceDef::Virtual(d, i, ti) => InstanceDefView::Virtual(d@, *i, ti@),
            InstanceDef::ClosureOnceShim { call_once } => InstanceDefView::ClosureOnceShim {
                call_once: call_once@,
            },
            InstanceDef::DropGlue(d, t) => InstanceDefView::DropGlue(d@, opt_ty_view(*t)),
            InstanceDef::CloneShim(d, t) => InstanceDefView::CloneShim(d@, t@),
        }
    }
}

impl View for Instance {
    type V = InstanceView;

    open spec fn view(&self) -> InstanceView {
        InstanceView { def: self.def@, substs: args_view(self.substs@) }
    }
}

/// The views of a list of instances.
pub open spec fn instances_view(v: Seq<Instance>) -> Seq<InstanceView> {
    v.map_values(|i: Instance| i@)
}

/// The views of a list of trait instances.
pub open spec fn trait_insts_view(v: Seq<TraitInst>) -> Seq<TraitInstView> {
    v.map_values(|t: TraitInst| t@)
}

/// The views of a list of data-type instantiations.
pub open spec fn adt_insts_view(v: Seq<AdtInst>) -> Seq<AdtInstView> {
    v.map_values(|a: AdtInst| a@)
}

} // verus!
