//! What lowering produces, as mathematical functions from a session and an
//! item to the session afterwards and the JSON that stands for the item.
//!
//! Lowering a type interns it: a type that is interned already is only its
//! ID; a new type has its parts lowered first, in the order in which they are
//! written in its lowered form, and then takes the next ID. Function items,
//! trait objects and data types met on the way are recorded in the session.
use vstd::prelude::*;
use crate::json::{empty_array, kind_only, no_fields, Json};
use crate::names::{adt_name, def_name, instance_name, promoted_name, trait_name};
use crate::session::{DiagnosticView, Session, TyCtxtView};
use crate::text::{dec_digits, dec_int};
use crate::types::{
    Abi, AdtInstView, ConstKindView, ConstValueView, ConstView, DefIdView, ExistentialPredicateView,
    ExistentialProjectionView, ExistentialTraitRefView, FloatTy, FnSigView, GenericArgView, IntTy, Mutability,
    TraitInstView, TyView, UintTy,
};

verus! {

pub open spec fn int_name(t: IntTy) -> Seq<char> {
    match t {
        IntTy::Isize => "Isize"@,
        IntTy::I8 => "I8"@,
        IntTy::I16 => "I16"@,
        IntTy::I32 => "I32"@,
        IntTy::I64 => "I64"@,
        IntTy::I128 => "I128"@,
    }
}

pub open spec fn uint_name(t: UintTy) -> Seq<char> {
    match t {
        UintTy::Usize => "Usize"@,
        UintTy::U8 => "U8"@,
        UintTy::U16 => "U16"@,
        UintTy::U32 => "U32"@,
        UintTy::U64 => "U64"@,
        UintTy::U128 => "U128"@,
    }
}

pub open spec fn float_name(t: FloatTy) -> Seq<char> {
    match t {
        FloatTy::F32 => "F32"@,
        FloatTy::F64 => "F64"@,
    }
}

pub open spec fn mutability_name(m: Mutability) -> Seq<char> {
    match m {
        Mutability::Mut => "Mut"@,
        Mutability::Not => "Not"@,
    }
}

pub open spec fn abi_name(a: Abi) -> Seq<char> {
    match a {
        Abi::Rust => "Rust"@,
        Abi::C => "C"@,
        Abi::Cdecl => "Cdecl"@,
        Abi::Stdcall => "Stdcall"@,
        Abi::Fastcall => "Fastcall"@,
        Abi::Vectorcall => "Vectorcall"@,
        Abi::Thiscall => "Thiscall"@,
        Abi::Aapcs => "Aapcs"@,
        Abi::Win64 => "Win64"@,
        Abi::SysV64 => "SysV64"@,
        Abi::PtxKernel => "PtxKernel"@,
        Abi::Msp430Interrupt => "Msp430Interrupt"@,
        Abi::X86Interrupt => "X86Interrupt"@,
        Abi::AmdGpuKernel => "AmdGpuKernel"@,
        Abi::EfiApi => "EfiApi"@,
        Abi::RustIntrinsic => "RustIntrinsic"@,
        Abi::RustCall => "RustCall"@,
        Abi::PlatformIntrinsic => "PlatformIntrinsic"@,
        Abi::Unadjusted => "Unadjusted"@,
    }
}

/// The name under which a call target is known, and the session after the
/// instance it resolves to has been recorded. A target that the host could
/// not resolve goes by the bare name of its definition; the failure is noted
/// and nothing else changes.
pub open spec fn resolved_name(s: Session, def_id: DefIdView, substs: Seq<GenericArgView>) -> (Session, Seq<char>) {
    match s.tcx.resolve(def_id, substs) {
        Some(inst) => (s.with_instance(inst), instance_name(inst)),
        None => (s.with_diagnostic(DiagnosticView::UnresolvedFn(def_id, substs)), def_name(def_id)),
    }
}

/// The same for a promoted constant of the call target.
pub open spec fn resolved_promoted_name(
    s: Session,
    def_id: DefIdView,
    substs: Seq<GenericArgView>,
    promoted: Option<u32>,
) -> (Session, Seq<char>) {
    let (s1, parent) = resolved_name(s, def_id, substs);
    (s1, promoted_name(parent, promoted))
}

/// The associated-type bindings among the first `n` predicates, in their
/// order.
pub open spec fn projections_of(preds: Seq<ExistentialPredicateView>, n: nat) -> Seq<ExistentialProjectionView>
    decreases n,
{
    if n == 0 || n > preds.len() {
        Seq::<ExistentialProjectionView>::empty()
    } else if preds[n - 1] is Projection {
        projections_of(preds, (n - 1) as nat).push(preds[n - 1]->Projection_0)
    } else {
        projections_of(preds, (n - 1) as nat)
    }
}

/// The trait instance of a trait object: its principal trait, if its first
/// predicate names one, and its associated-type bindings in their order.
pub open spec fn trait_inst_of(preds: Seq<ExistentialPredicateView>) -> TraitInstView {
    TraitInstView {
        trait_ref: if preds.len() > 0 && preds[0] is Trait {
            Some(preds[0]->Trait_0)
        } else {
            None
        },
        projs: projections_of(preds, preds.len()),
    }
}

/// 256 to the power `n`.
pub open spec fn pow256(n: nat) -> nat
    decreases n,
{
    if n == 0 {
        1
    } else {
        256 * pow256((n - 1) as nat)
    }
}

/// A 128-bit pattern read as a signed integer.
pub open spec fn as_signed(data: u128) -> int {
    if data >= 0x8000_0000_0000_0000_0000_0000_0000_0000u128 {
        data - 0x1_0000_0000_0000_0000_0000_0000_0000_0000int
    } else {
        data as int
    }
}

/// The value of a signed integer of `size` bytes with the bit pattern
/// `data`: for a size below 16 whose sign bit is set, the low `size` bytes
/// read in two's complement; otherwise the whole pattern read as a signed
/// 128-bit integer.
pub open spec fn signed_value(size: u8, data: u128) -> int {
    if 1 <= size < 16 && (data as nat) % pow256(size as nat) >= pow256(size as nat) / 2 {
        (data as nat) % pow256(size as nat) - pow256(size as nat)
    } else {
        as_signed(data)
    }
}

/// The literal for a scalar: a kind, the size in bytes, and the value as
/// decimal text.
pub open spec fn scalar_literal(kind: Seq<char>, size: u8, val: Seq<char>) -> Json {
    Json::Obj(
        no_fields().insert("kind"@, Json::Str(kind)).insert("size"@, Json::Num(size as int)).insert(
            "val"@,
            Json::Str(val),
        ),
    )
}

/// Whether a type is `&str`.
pub open spec fn is_str_ref(t: TyView) -> bool {
    t matches TyView::Ref(e, m) && *e == TyView::Str && m == Mutability::Not
}

/// The bytes of a string literal, each as a JSON number.
pub open spec fn bytes_json(bytes: Seq<u8>) -> Seq<Json> {
    bytes.map_values(|b: u8| Json::Num(b as int))
}

/// The literal that stands for an evaluated constant of the given type, if
/// it has one, and the session afterwards (a function item is recorded as
/// used).
pub open spec fn rendered(s: Session, ty: TyView, v: ConstValueView) -> (Session, Option<Json>) {
    match ty {
        TyView::Int(i) => match v {
            ConstValueView::Scalar { size, data, .. } => (
                s,
                Some(
                    scalar_literal(
                        if i == IntTy::Isize {
                            "isize"@
                        } else {
                            "int"@
                        },
                        size,
                        dec_int(signed_value(size, data)),
                    ),
                ),
            ),
            _ => (s, None),
        },
        TyView::Bool => match v {
            ConstValueView::Scalar { size, data, .. } => (
                s,
                Some(scalar_literal("bool"@, size, dec_digits(data as nat))),
            ),
            _ => (s, None),
        },
        TyView::Char => match v {
            ConstValueView::Scalar { size, data, .. } => (
                s,
                Some(scalar_literal("char"@, size, dec_digits(data as nat))),
            ),
            _ => (s, None),
        },
        TyView::Uint(u) => match v {
            ConstValueView::Scalar { size, data, .. } => (
                s,
                Some(
                    scalar_literal(
                        if u == UintTy::Usize {
                            "usize"@
                        } else {
                            "uint"@
                        },
                        size,
                        dec_digits(data as nat),
                    ),
                ),
            ),
            _ => (s, None),
        },
        TyView::Float(_) => match v {
            ConstValueView::Scalar { size, float_text: Some(text), .. } => (
                s,
                Some(scalar_literal("float"@, size, text)),
            ),
            _ => (s, None),
        },
        TyView::RawPtr(_, _) => match v {
            ConstValueView::Scalar { data, .. } => (
                s,
                Some(
                    Json::Obj(
                        no_fields().insert("kind"@, Json::Str("raw_ptr"@)).insert(
                            "val"@,
                            Json::Str(dec_digits(data as nat)),
                        ),
                    ),
                ),
            ),
            _ => (s, None),
        },
        TyView::FnDef(d, args) => {
            let (s1, name) = resolved_name(s, d, args);
            (
                s1,
                Some(
                    Json::Obj(
                        no_fields().insert("kind"@, Json::Str("fndef"@)).insert("def_id"@, Json::Str(name)).insert(
                            "substs"@,
                            empty_array(),
                        ),
                    ),
                ),
            )
        },
        _ => if is_str_ref(ty) {
            match v {
                ConstValueView::Slice { bytes, start, end, .. } => (
                    s,
                    Some(
                        Json::Obj(
                            no_fields().insert("kind"@, Json::Str("str"@)).insert(
                                "val"@,
                                Json::Arr(bytes_json(bytes.subrange(start as int, end as int))),
                            ),
                        ),
                    ),
                ),
                _ => (s, None),
            }
        } else {
            match v {
                ConstValueView::Scalar { size, .. } => if size == 0 {
                    (s, Some(kind_only("zst"@)))
                } else {
                    (s, None)
                },
                _ => (s, None),
            }
        },
    }
}

/// What a constant evaluates to: its value where it has one, else what the
/// host evaluated it to, if it did.
pub open spec fn evaluated(tcx: TyCtxtView, k: ConstKindView) -> Option<ConstValueView> {
    match k {
        ConstKindView::Unevaluated(d, args, promoted) => tcx.const_eval(d, args, promoted),
        ConstKindView::Value(v) => Some(v),
    }
}

/// The literal of a constant of the given type whose evaluation gave `v`:
/// a pointer to a static item is a reference to that item; a scalar or a
/// byte range is rendered by its type; anything else has no literal.
pub open spec fn rendered_value(s: Session, ty: TyView, v: Option<ConstValueView>) -> (Session, Option<Json>) {
    match v {
        Some(ConstValueView::Ptr { static_def }) => match static_def {
            Some(d) => (
                s,
                Some(
                    Json::Obj(
                        no_fields().insert("kind"@, Json::Str("static_ref"@)).insert(
                            "def_id"@,
                            Json::Str(def_name(d)),
                        ),
                    ),
                ),
            ),
            None => (s, None),
        },
        Some(ConstValueView::ByRef) => (s, None),
        Some(v) => rendered(s, ty, v),
        None => (s, None),
    }
}

/// Whether the bytes of a constant can be read as they stand: for a string
/// literal, the allocation holds no pointers and the range lies inside it.
pub open spec fn value_readable(ty: TyView, v: Option<ConstValueView>) -> bool {
    match v {
        Some(ConstValueView::Slice { bytes, relocations, start, end }) => is_str_ref(ty) ==> relocations == 0
            && start <= end <= bytes.len(),
        _ => true,
    }
}

/// Whether every string-literal constant that lowering a type reads can be
/// read.
pub open spec fn ty_readable(tcx: TyCtxtView, t: TyView) -> bool
    decreases t,
{
    match t {
        TyView::Adt(_, args) => args_readable(tcx, args),
        TyView::Array(e, n) => ty_readable(tcx, *e) && const_readable(tcx, *n),
        TyView::Slice(e) => ty_readable(tcx, *e),
        TyView::RawPtr(e, _) => ty_readable(tcx, *e),
        TyView::Ref(e, _) => ty_readable(tcx, *e),
        TyView::FnPtr(sig) => sig_readable(tcx, *sig),
        TyView::Dynamic(preds) => preds_readable(tcx, preds),
        TyView::Closure(_, args, upvars) => args_readable(tcx, args) && tys_readable(tcx, upvars),
        TyView::Tuple(tys) => tys_readable(tcx, tys),
        TyView::Projection(_, args) => args_readable(tcx, args),
        TyView::UnnormalizedProjection(_, args) => args_readable(tcx, args),
        _ => true,
    }
}

pub open spec fn tys_readable(tcx: TyCtxtView, ts: Seq<TyView>) -> bool
    decreases ts,
{
    forall|i: int| 0 <= i < ts.len() ==> ty_readable(tcx, #[trigger] ts[i])
}

pub open spec fn arg_readable(tcx: TyCtxtView, a: GenericArgView) -> bool
    decreases a,
{
    match a {
        GenericArgView::Type(t) => ty_readable(tcx, t),
        _ => true,
    }
}

pub open spec fn args_readable(tcx: TyCtxtView, args: Seq<GenericArgView>) -> bool
    decreases args,
{
    forall|i: int| 0 <= i < args.len() ==> arg_readable(tcx, #[trigger] args[i])
}

pub open spec fn sig_readable(tcx: TyCtxtView, sig: FnSigView) -> bool
    decreases sig,
{
    tys_readable(tcx, sig.inputs) && ty_readable(tcx, sig.output)
}

pub open spec fn pred_readable(tcx: TyCtxtView, p: ExistentialPredicateView) -> bool
    decreases p,
{
    match p {
        ExistentialPredicateView::Trait(t) => args_readable(tcx, t.substs),
        ExistentialPredicateView::Projection(q) => args_readable(tcx, q.substs) && ty_readable(tcx, q.ty),
        ExistentialPredicateView::AutoTrait(_) => true,
    }
}

pub open spec fn preds_readable(tcx: TyCtxtView, ps: Seq<ExistentialPredicateView>) -> bool
    decreases ps,
{
    forall|i: int| 0 <= i < ps.len() ==> pred_readable(tcx, #[trigger] ps[i])
}

pub open spec fn const_readable(tcx: TyCtxtView, c: ConstView) -> bool
    decreases c,
{
    ty_readable(tcx, c.ty) && value_readable(c.ty, evaluated(tcx, c.val))
}

/// An object with the member `kind`, holding the name of a kind, to which
/// further members are added.
pub open spec fn of_kind(kind: Seq<char>) -> Map<Seq<char>, Json> {
    no_fields().insert("kind"@, Json::Str(kind))
}

/// A type, lowered: its ID, and the session in which it is interned.
pub open spec fn lower_ty(s: Session, t: TyView) -> (Session, Json)
    decreases t, 1nat,
{
    match s.ty_id(t) {
        Some(id) => (s, Json::Num(id)),
        None => {
            let (s1, body) = ty_body(s, t);
            (s1.interned(t, body), Json::Num(s1.id_after(t)))
        },
    }
}

/// The lowered form of a type, and the session after its parts have been
/// lowered.
pub open spec fn ty_body(s: Session, t: TyView) -> (Session, Json)
    decreases t, 0nat,
{
    match t {
        TyView::Bool => (s, kind_only("Bool"@)),
        TyView::Char => (s, kind_only("Char"@)),
        TyView::Int(i) => (s, Json::Obj(of_kind("Int"@).insert("intkind"@, kind_only(int_name(i))))),
        TyView::Uint(u) => (s, Json::Obj(of_kind("Uint"@).insert("uintkind"@, kind_only(uint_name(u))))),
        TyView::Float(f) => (s, Json::Obj(of_kind("Float"@).insert("size"@, kind_only(float_name(f))))),
        TyView::Adt(d, args) => {
            let ai = AdtInstView { adt: d, substs: args };
            let (s1, items) = lower_args(s.with_adt(ai), args, args.len());
            (
                s1,
                Json::Obj(
                    of_kind("Adt"@).insert("name"@, Json::Str(adt_name(ai))).insert(
                        "orig_def_id"@,
                        Json::Str(def_name(d)),
                    ).insert("substs"@, Json::Arr(items)),
                ),
            )
        },
        TyView::Foreign => (s, kind_only("Foreign"@)),
        TyView::Str => (s, kind_only("Str"@)),
        TyView::Array(e, n) => {
            let (s1, elem) = lower_ty(s, *e);
            let (s2, size) = lower_const(s1, *n);
            (s2, Json::Obj(of_kind("Array"@).insert("ty"@, elem).insert("size"@, size)))
        },
        TyView::Slice(e) => {
            let (s1, elem) = lower_ty(s, *e);
            (s1, Json::Obj(of_kind("Slice"@).insert("ty"@, elem)))
        },
        TyView::RawPtr(e, m) => {
            let (s1, pointee) = lower_ty(s, *e);
            (
                s1,
                Json::Obj(
                    of_kind("RawPtr"@).insert("ty"@, pointee).insert("mutability"@, kind_only(mutability_name(m))),
                ),
            )
        },
        TyView::Ref(e, m) => {
            let (s1, pointee) = lower_ty(s, *e);
            (
                s1,
                Json::Obj(
                    of_kind("Ref"@).insert("ty"@, pointee).insert("mutability"@, kind_only(mutability_name(m))),
                ),
            )
        },
        TyView::FnDef(d, args) => {
            let (s1, name) = resolved_name(s, d, args);
            (s1, Json::Obj(of_kind("FnDef"@).insert("defid"@, Json::Str(name)).insert("substs"@, empty_array())))
        },
        TyView::FnPtr(sig) => {
            let (s1, signature) = lower_sig(s, *sig);
            (s1, Json::Obj(of_kind("FnPtr"@).insert("signature"@, signature)))
        },
        TyView::Dynamic(preds) => {
            let ti = trait_inst_of(preds);
            let (s1, items) = lower_preds(s.with_trait(ti), preds, preds.len());
            (
                s1,
                Json::Obj(
                    of_kind("Dynamic"@).insert("trait_id"@, Json::Str(trait_name(ti))).insert(
                        "predicates"@,
                        Json::Arr(items),
                    ),
                ),
            )
        },
        TyView::Closure(d, args, upvars) => {
            let (s1, items) = lower_args(s, args, args.len());
            let (s2, captures) = lower_tys(s1, upvars, upvars.len());
            (
                s2,
                Json::Obj(
                    of_kind("Closure"@).insert("defid"@, Json::Str(def_name(d))).insert(
                        "closuresubsts"@,
                        Json::Arr(items),
                    ).insert("upvar_tys"@, Json::Arr(captures)),
                ),
            )
        },
        TyView::Generator => (s, kind_only("Generator"@)),
        TyView::GeneratorWitness => (s, kind_only("GeneratorWitness"@)),
        TyView::Never => (s, kind_only("Never"@)),
        TyView::Tuple(tys) => {
            let (s1, items) = lower_tys(s, tys, tys.len());
            (s1, Json::Obj(of_kind("Tuple"@).insert("tys"@, Json::Arr(items))))
        },
        TyView::Projection(d, args) => {
            let (s1, items) = lower_args(s, args, args.len());
            (
                s1,
                Json::Obj(
                    of_kind("Projection"@).insert("substs"@, Json::Arr(items)).insert(
                        "defid"@,
                        Json::Str(def_name(d)),
                    ),
                ),
            )
        },
        TyView::UnnormalizedProjection(d, args) => {
            let (s1, items) = lower_args(s, args, args.len());
            (
                s1,
                Json::Obj(
                    of_kind("UnnormalizedProjection"@).insert("substs"@, Json::Arr(items)).insert(
                        "defid"@,
                        Json::Str(def_name(d)),
                    ),
                ),
            )
        },
        TyView::Opaque => (s, kind_only("Opaque"@)),
        TyView::Param(i) => (s, Json::Obj(of_kind("Param"@).insert("param"@, Json::Num(i as int)))),
        TyView::Bound => (s, kind_only("Bound"@)),
        TyView::Placeholder => (s, kind_only("Placeholder"@)),
        TyView::Infer => (s, kind_only("Infer"@)),
        TyView::Error => (s, kind_only("Error"@)),
    }
}

/// The first `n` types of a list, lowered one after the other.
pub open spec fn lower_tys(s: Session, ts: Seq<TyView>, n: nat) -> (Session, Seq<Json>)
    decreases ts, n,
{
    if n == 0 || n > ts.len() {
        (s, Seq::<Json>::empty())
    } else {
        let (s1, items) = lower_tys(s, ts, (n - 1) as nat);
        let (s2, item) = lower_ty(s1, ts[n - 1]);
        (s2, items.push(item))
    }
}

/// A generic argument, lowered: a type is lowered as a type; a lifetime and
/// a constant are each a fixed marker.
pub open spec fn lower_arg(s: Session, a: GenericArgView) -> (Session, Json)
    decreases a,
{
    match a {
        GenericArgView::Type(t) => lower_ty(s, t),
        GenericArgView::Lifetime => (s, Json::Str("nonty::Lifetime"@)),
        GenericArgView::Const(_) => (s, Json::Str("nonty::Const"@)),
    }
}

/// The first `n` arguments of a list, lowered one after the other.
pub open spec fn lower_args(s: Session, args: Seq<GenericArgView>, n: nat) -> (Session, Seq<Json>)
    decreases args, n,
{
    if n == 0 || n > args.len() {
        (s, Seq::<Json>::empty())
    } else {
        let (s1, items) = lower_args(s, args, (n - 1) as nat);
        let (s2, item) = lower_arg(s1, args[n - 1]);
        (s2, items.push(item))
    }
}

/// A function signature, lowered: inputs, then output, then calling
/// convention.
pub open spec fn lower_sig(s: Session, sig: FnSigView) -> (Session, Json)
    decreases sig,
{
    let (s1, inputs) = lower_tys(s, sig.inputs, sig.inputs.len());
    let (s2, output) = lower_ty(s1, sig.output);
    (
        s2,
        Json::Obj(
            no_fields().insert("inputs"@, Json::Arr(inputs)).insert("output"@, output).insert(
                "abi"@,
                kind_only(abi_name(sig.abi)),
            ),
        ),
    )
}

/// A principal trait, lowered as a predicate of a trait object.
pub open spec fn lower_trait_ref(s: Session, t: ExistentialTraitRefView) -> (Session, Json)
    decreases t,
{
    let (s1, items) = lower_args(s, t.substs, t.substs.len());
    (
        s1,
        Json::Obj(
            of_kind("Trait"@).insert("trait"@, Json::Str(def_name(t.def_id))).insert("substs"@, Json::Arr(items)),
        ),
    )
}

/// An associated-type binding, lowered as a predicate of a trait object.
pub open spec fn lower_projection(s: Session, p: ExistentialProjectionView) -> (Session, Json)
    decreases p,
{
    let (s1, items) = lower_args(s, p.substs, p.substs.len());
    let (s2, ty) = lower_ty(s1, p.ty);
    (
        s2,
        Json::Obj(
            of_kind("Projection"@).insert("proj"@, Json::Str(def_name(p.item_def_id))).insert(
                "substs"@,
                Json::Arr(items),
            ).insert("rhs_ty"@, ty),
        ),
    )
}

/// An existential predicate, lowered.
pub open spec fn lower_pred(s: Session, p: ExistentialPredicateView) -> (Session, Json)
    decreases p,
{
    match p {
        ExistentialPredicateView::Trait(t) => lower_trait_ref(s, t),
        ExistentialPredicateView::Projection(q) => lower_projection(s, q),
        ExistentialPredicateView::AutoTrait(d) => (
            s,
            Json::Obj(of_kind("AutoTrait"@).insert("trait"@, Json::Str(def_name(d)))),
        ),
    }
}

/// The first `n` predicates of a list, lowered one after the other.
pub open spec fn lower_preds(s: Session, ps: Seq<ExistentialPredicateView>, n: nat) -> (Session, Seq<Json>)
    decreases ps, n,
{
    if n == 0 || n > ps.len() {
        (s, Seq::<Json>::empty())
    } else {
        let (s1, items) = lower_preds(s, ps, (n - 1) as nat);
        let (s2, item) = lower_pred(s1, ps[n - 1]);
        (s2, items.push(item))
    }
}

/// The members of a lowered constant that say where an unevaluated
/// constant comes from, and the session after its source has been named.
pub open spec fn const_head(s: Session, ty: Json, k: ConstKindView) -> (Session, Map<Seq<char>, Json>) {
    match k {
        ConstKindView::Unevaluated(d, args, promoted) => {
            let (s1, name) = resolved_promoted_name(s, d, args, promoted);
            (
                s1,
                of_kind("Const"@).insert("ty"@, ty).insert(
                    "initializer"@,
                    Json::Obj(no_fields().insert("def_id"@, Json::Str(name)).insert("substs"@, empty_array())),
                ),
            )
        },
        ConstKindView::Value(_) => (s, of_kind("Const"@).insert("ty"@, ty)),
    }
}

/// `m` with the member `rendered`, where there is a literal.
pub open spec fn with_rendered(m: Map<Seq<char>, Json>, r: Option<Json>) -> Json {
    match r {
        Some(r) => Json::Obj(m.insert("rendered"@, r)),
        None => Json::Obj(m),
    }
}

/// A constant, lowered: its type, for an unevaluated constant the name of
/// what computes it, and its literal where it has one.
pub open spec fn lower_const(s: Session, c: ConstView) -> (Session, Json)
    decreases c,
{
    let (s1, ty) = lower_ty(s, c.ty);
    let (s2, head) = const_head(s1, ty, c.val);
    let (s3, literal) = rendered_value(s2, c.ty, evaluated(s.tcx, c.val));
    (s3, with_rendered(head, literal))
}

} // verus!
