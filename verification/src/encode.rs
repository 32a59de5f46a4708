//! The canonical byte form of an item, over which its content hash is taken.
//!
//! Equal views have equal byte forms, and different views have different
//! ones. Every node starts with a tag for its kind; texts and lists are
//! preceded by their length; a number is written seven bits at a time, low
//! bits first, each byte but the last with its high bit set.
use vstd::prelude::*;
use crate::types::{
    Abi, ConstKindView, ConstValueView, ConstView, DefIdView, ExistentialPredicateView,
    ExistentialProjectionView, ExistentialTraitRefView, FloatTy, FnSigView, GenericArgView, IntTy, Mutability,
    TyView, UintTy,
};
use crate::types::{
    Const, ConstKind, ConstValue, DefId, ExistentialPredicate, ExistentialProjection, ExistentialTraitRef, FnSig,
    GenericArg, Ty,
};
use crate::types::{args_view, preds_view, tys_view};

verus! {

/// A natural number, seven bits to a byte, low bits first; the high bit of
/// a byte says that more bytes follow.
pub open spec fn leb(n: nat) -> Seq<u8>
    decreases n,
{
    if n < 128 {
        seq![n as u8]
    } else {
        seq![(128 + n % 128) as u8] + leb(n / 128)
    }
}

/// Bytes, preceded by their number.
pub open spec fn enc_bytes(b: Seq<u8>) -> Seq<u8> {
    leb(b.len()) + b
}

/// A text: its UTF-8 form, preceded by the number of its bytes.
pub open spec fn enc_text(s: Seq<char>) -> Seq<u8> {
    enc_bytes(vstd::utf8::encode_utf8(s))
}

pub open spec fn enc_def(d: DefIdView) -> Seq<u8> {
    enc_text(d.krate) + enc_text(d.disambiguator) + enc_text(d.path)
}

pub open spec fn int_code(t: IntTy) -> u8 {
    match t {
        IntTy::Isize => 0,
        IntTy::I8 => 1,
        IntTy::I16 => 2,
        IntTy::I32 => 3,
        IntTy::I64 => 4,
        IntTy::I128 => 5,
    }
}

pub open spec fn uint_code(t: UintTy) -> u8 {
    match t {
        UintTy::Usize => 0,
        UintTy::U8 => 1,
        UintTy::U16 => 2,
        UintTy::U32 => 3,
        UintTy::U64 => 4,
        UintTy::U128 => 5,
    }
}

pub open spec fn float_code(t: FloatTy) -> u8 {
    match t {
        FloatTy::F32 => 0,
        FloatTy::F64 => 1,
    }
}

pub open spec fn mut_code(m: Mutability) -> u8 {
    match m {
        Mutability::Mut => 0,
        Mutability::Not => 1,
    }
}

pub open spec fn abi_code(a: Abi) -> u8 {
    match a {
        Abi::Rust => 0,
        Abi::C => 1,
        Abi::Cdecl => 2,
        Abi::Stdcall => 3,
        Abi::Fastcall => 4,
        Abi::Vectorcall => 5,
        Abi::Thiscall => 6,
        Abi::Aapcs => 7,
        Abi::Win64 => 8,
        Abi::SysV64 => 9,
        Abi::PtxKernel => 10,
        Abi::Msp430Interrupt => 11,
        Abi::X86Interrupt => 12,
        Abi::AmdGpuKernel => 13,
        Abi::EfiApi => 14,
        Abi::RustIntrinsic => 15,
        Abi::RustCall => 16,
        Abi::PlatformIntrinsic => 17,
        Abi::Unadjusted => 18,
    }
}

pub open spec fn bool_code(b: bool) -> u8 {
    if b {
        1
    } else {
        0
    }
}

pub open spec fn enc_opt_def(d: Option<DefIdView>) -> Seq<u8> {
    match d {
        Some(d) => seq![1u8] + enc_def(d),
        None => seq![0u8],
    }
}

pub open spec fn enc_opt_text(s: Option<Seq<char>>) -> Seq<u8> {
    match s {
        Some(s) => seq![1u8] + enc_text(s),
        None => seq![0u8],
    }
}

pub open spec fn enc_opt_u32(n: Option<u32>) -> Seq<u8> {
    match n {
        Some(n) => seq![1u8] + leb(n as nat),
        None => seq![0u8],
    }
}

pub open spec fn enc_value(v: ConstValueView) -> Seq<u8> {
    match v {
        ConstValueView::Scalar { size, data, float_text } => seq![0u8] + leb(size as nat) + leb(data as nat)
            + enc_opt_text(float_text),
        ConstValueView::Ptr { static_def } => seq![1u8] + enc_opt_def(static_def),
        ConstValueView::Slice { bytes, relocations, start, end } => seq![2u8] + enc_bytes(bytes) + leb(
            relocations as nat,
        ) + leb(start as nat) + leb(end as nat),
        ConstValueView::ByRef => seq![3u8],
    }
}

/// The tag of a kind of type.
pub open spec fn ty_tag(t: TyView) -> u8 {
    match t {
        TyView::Bool => 0,
        TyView::Char => 1,
        TyView::Int(_) => 2,
        TyView::Uint(_) => 3,
        TyView::Float(_) => 4,
        TyView::Adt(_, _) => 5,
        TyView::Foreign => 6,
        TyView::Str => 7,
        TyView::Array(_, _) => 8,
        TyView::Slice(_) => 9,
        TyView::RawPtr(_, _) => 10,
        TyView::Ref(_, _) => 11,
        TyView::FnDef(_, _) => 12,
        TyView::FnPtr(_) => 13,
        TyView::Dynamic(_) => 14,
        TyView::Closure(_, _, _) => 15,
        TyView::Generator => 16,
        TyView::GeneratorWitness => 17,
        TyView::Never => 18,
        TyView::Tuple(_) => 19,
        TyView::Projection(_, _) => 20,
        TyView::UnnormalizedProjection(_, _) => 21,
        TyView::Opaque => 22,
        TyView::Param(_) => 23,
        TyView::Bound => 24,
        TyView::Placeholder => 25,
        TyView::Infer => 26,
        TyView::Error => 27,
    }
}

/// What follows the tag of a type.
pub open spec fn ty_payload(t: TyView) -> Seq<u8>
    decreases t, 0nat,
{
    match t {
        TyView::Int(i) => seq![int_code(i)],
        TyView::Uint(u) => seq![uint_code(u)],
        TyView::Float(f) => seq![float_code(f)],
        TyView::Adt(d, args) => enc_def(d) + enc_args(args),
        TyView::Array(e, n) => enc_ty(*e) + enc_const(*n),
        TyView::Slice(e) => enc_ty(*e),
        TyView::RawPtr(e, m) => seq![mut_code(m)] + enc_ty(*e),
        TyView::Ref(e, m) => seq![mut_code(m)] + enc_ty(*e),
        TyView::FnDef(d, args) => enc_def(d) + enc_args(args),
        TyView::FnPtr(sig) => enc_sig(*sig),
        TyView::Dynamic(preds) => enc_preds(preds),
        TyView::Closure(d, args, upvars) => enc_def(d) + enc_args(args) + enc_tys(upvars),
        TyView::Tuple(tys) => enc_tys(tys),
        TyView::Projection(d, args) => enc_def(d) + enc_args(args),
        TyView::UnnormalizedProjection(d, args) => enc_def(d) + enc_args(args),
        TyView::Param(i) => leb(i as nat),
        _ => Seq::<u8>::empty(),
    }
}

/// A type: its tag, then what the kind calls for.
pub open spec fn enc_ty(t: TyView) -> Seq<u8>
    decreases t, 1nat,
{
    seq![ty_tag(t)] + ty_payload(t)
}

/// The first `n` types of a list, one after the other.
pub open spec fn enc_tys_upto(ts: Seq<TyView>, n: nat) -> Seq<u8>
    decreases ts, n,
{
    if n == 0 || n > ts.len() {
        Seq::<u8>::empty()
    } else {
        enc_tys_upto(ts, (n - 1) as nat) + enc_ty(ts[n - 1])
    }
}

/// A list of types: its length, then the types.
pub open spec fn enc_tys(ts: Seq<TyView>) -> Seq<u8>
    decreases ts, ts.len() + 1,
{
    leb(ts.len()) + enc_tys_upto(ts, ts.len())
}

pub open spec fn enc_arg(a: GenericArgView) -> Seq<u8>
    decreases a,
{
    match a {
        GenericArgView::Type(t) => seq![0u8] + enc_ty(t),
        GenericArgView::Lifetime => seq![1u8],
        GenericArgView::Const(c) => seq![2u8] + enc_const(c),
    }
}

/// The first `n` arguments of a list, one after the other.
pub open spec fn enc_args_upto(args: Seq<GenericArgView>, n: nat) -> Seq<u8>
    decreases args, n,
{
    if n == 0 || n > args.len() {
        Seq::<u8>::empty()
    } else {
        enc_args_upto(args, (n - 1) as nat) + enc_arg(args[n - 1])
    }
}

/// A list of generic arguments: its length, then the arguments.
pub open spec fn enc_args(args: Seq<GenericArgView>) -> Seq<u8>
    decreases args, args.len() + 1,
{
    leb(args.len()) + enc_args_upto(args, args.len())
}

pub open spec fn enc_sig(s: FnSigView) -> Seq<u8>
    decreases s,
{
    enc_tys(s.inputs) + enc_ty(s.output) + seq![
        bool_code(s.c_variadic),
        bool_code(s.is_unsafe),
        abi_code(s.abi),
    ]
}

pub open spec fn enc_trait_ref(t: ExistentialTraitRefView) -> Seq<u8>
    decreases t,
{
    enc_def(t.def_id) + enc_args(t.substs)
}

pub open spec fn enc_projection(p: ExistentialProjectionView) -> Seq<u8>
    decreases p,
{
    enc_def(p.item_def_id) + enc_args(p.substs) + enc_ty(p.ty)
}

pub open spec fn enc_pred(p: ExistentialPredicateView) -> Seq<u8>
    decreases p,
{
    match p {
        ExistentialPredicateView::Trait(t) => seq![0u8] + enc_trait_ref(t),
        ExistentialPredicateView::Projection(q) => seq![1u8] + enc_projection(q),
        ExistentialPredicateView::AutoTrait(d) => seq![2u8] + enc_def(d),
    }
}

/// The first `n` predicates of a list, one after the other.
pub open spec fn enc_preds_upto(ps: Seq<ExistentialPredicateView>, n: nat) -> Seq<u8>
    decreases ps, n,
{
    if n == 0 || n > ps.len() {
        Seq::<u8>::empty()
    } else {
        enc_preds_upto(ps, (n - 1) as nat) + enc_pred(ps[n - 1])
    }
}

/// A list of existential predicates: its length, then the predicates.
pub open spec fn enc_preds(ps: Seq<ExistentialPredicateView>) -> Seq<u8>
    decreases ps, ps.len() + 1,
{
    leb(ps.len()) + enc_preds_upto(ps, ps.len())
}

pub open spec fn enc_const(c: ConstView) -> Seq<u8>
    decreases c,
{
    enc_ty(c.ty) + enc_kind(c.val)
}

pub open spec fn enc_kind(k: ConstKindView) -> Seq<u8>
    decreases k,
{
    match k {
        ConstKindView::Unevaluated(d, args, promoted) => seq![0u8] + enc_def(d) + enc_args(args)
            + enc_opt_u32(promoted),
        ConstKindView::Value(v) => seq![1u8] + enc_value(v),
    }
}

/// Appends a number, seven bits to a byte.
pub fn put_leb(out: &mut Vec<u8>, n: u128)
    ensures
        final(out)@ == old(out)@ + leb(n as nat),
    decreases n,
{
    if n < 128 {
        out.push(n as u8);
    } else {
        let b: u8 = (128 + n % 128) as u8;
        out.push(b);
        put_leb(out, n / 128);
    }
    assert(out@ =~= old(out)@ + leb(n as nat));
}

/// Appends bytes, preceded by their number.
pub fn put_bytes(out: &mut Vec<u8>, bytes: &Vec<u8>)
    ensures
        final(out)@ == old(out)@ + enc_bytes(bytes@),
{
    put_leb(out, bytes.len() as u128);
    let ghost start = out@;
    let mut i: usize = 0;
    while i < bytes.len()
        invariant
            i <= bytes.len(),
            out@ == start + bytes@.take(i as int),
        decreases bytes.len() - i,
    {
        out.push(bytes[i]);
        assert(out@ =~= start + bytes@.take(i + 1));
        i += 1;
    }
    assert(bytes@.take(bytes.len() as int) =~= bytes@);
    assert(out@ =~= old(out)@ + enc_bytes(bytes@));
}

pub fn put_text(out: &mut Vec<u8>, s: &str)
    ensures
        final(out)@ == old(out)@ + enc_text(s@),
{
    let bytes = s.as_bytes_vec();
    put_bytes(out, &bytes);
}

pub fn put_def(out: &mut Vec<u8>, d: &DefId)
    ensures
        final(out)@ == old(out)@ + enc_def(d@),
{
    put_text(out, d.krate.as_str());
    put_text(out, d.disambiguator.as_str());
    put_text(out, d.path.as_str());
    assert(out@ =~= old(out)@ + enc_def(d@));
}

pub fn int_code_of(t: IntTy) -> (c: u8)
    ensures
        c == int_code(t),
{
    match t {
        IntTy::Isize => 0,
        IntTy::I8 => 1,
        IntTy::I16 => 2,
        IntTy::I32 => 3,
        IntTy::I64 => 4,
        IntTy::I128 => 5,
    }
}

pub fn uint_code_of(t: UintTy) -> (c: u8)
    ensures
        c == uint_code(t),
{
    match t {
        UintTy::Usize => 0,
        UintTy::U8 => 1,
        UintTy::U16 => 2,
        UintTy::U32 => 3,
        UintTy::U64 => 4,
        UintTy::U128 => 5,
    }
}

pub fn float_code_of(t: FloatTy) -> (c: u8)
    ensures
        c == float_code(t),
{
    match t {
        FloatTy::F32 => 0,
        FloatTy::F64 => 1,
    }
}

pub fn mut_code_of(m: Mutability) -> (c: u8)
    ensures
        c == mut_code(m),
{
    match m {
        Mutability::Mut => 0,
        Mutability::Not => 1,
    }
}

pub fn abi_code_of(a: Abi) -> (c: u8)
    ensures
        c == abi_code(a),
{
    match a {
        Abi::Rust => 0,
        Abi::C => 1,
        Abi::Cdecl => 2,
        Abi::Stdcall => 3,
        Abi::Fastcall => 4,
        Abi::Vectorcall => 5,
        Abi::Thiscall => 6,
        Abi::Aapcs => 7,
        Abi::Win64 => 8,
        Abi::SysV64 => 9,
        Abi::PtxKernel => 10,
        Abi::Msp430Interrupt => 11,
        Abi::X86Interrupt => 12,
        Abi::AmdGpuKernel => 13,
        Abi::EfiApi => 14,
        Abi::RustIntrinsic => 15,
        Abi::RustCall => 16,
        Abi::PlatformIntrinsic => 17,
        Abi::Unadjusted => 18,
    }
}

pub fn put_opt_def(out: &mut Vec<u8>, d: &Option<DefId>)
    ensures
        final(out)@ == old(out)@ + enc_opt_def(crate::types::opt_def_view(*d)),
{
    match d {
        Some(d) => {
            out.push(1);
            put_def(out, d);
        },
        None => {
            out.push(0);
        },
    }
    assert(out@ =~= old(out)@ + enc_opt_def(crate::types::opt_def_view(*d)));
}

pub fn put_value(out: &mut Vec<u8>, v: &ConstValue)
    ensures
        final(out)@ == old(out)@ + enc_value(v@),
{
    match v {
        ConstValue::Scalar { size, data, float_text } => {
            out.push(0);
            put_leb(out, *size as u128);
            put_leb(out, *data);
            match float_text {
                Some(t) => {
                    out.push(1);
                    put_text(out, t.as_str());
                },
                None => {
                    out.push(0);
                },
            }
        },
        ConstValue::Ptr { static_def } => {
            out.push(1);
            put_opt_def(out, static_def);
        },
        ConstValue::Slice { bytes, relocations, start, end } => {
            out.push(2);
            put_bytes(out, bytes);
            put_leb(out, *relocations as u128);
            put_leb(out, *start as u128);
            put_leb(out, *end as u128);
        },
        ConstValue::ByRef => {
            out.push(3);
        },
    }
    assert(out@ =~= old(out)@ + enc_value(v@));
}

/// The tag of a kind of type.
pub fn ty_tag_of(t: &Ty) -> (c: u8)
    ensures
        c == ty_tag(t@),
{
    match t {
        Ty::Bool => 0,
        Ty::Char => 1,
        Ty::Int(_) => 2,
        Ty::Uint(_) => 3,
        Ty::Float(_) => 4,
        Ty::Adt(_, _) => 5,
        Ty::Foreign => 6,
        Ty::Str => 7,
        Ty::Array(_, _) => 8,
        Ty::Slice(_) => 9,
        Ty::RawPtr(_, _) => 10,
        Ty::Ref(_, _) => 11,
        Ty::FnDef(_, _) => 12,
        Ty::FnPtr(_) => 13,
        Ty::Dynamic(_) => 14,
        Ty::Closure(_, _, _) => 15,
        Ty::Generator => 16,
        Ty::GeneratorWitness => 17,
        Ty::Never => 18,
        Ty::Tuple(_) => 19,
        Ty::Projection(_, _) => 20,
        Ty::UnnormalizedProjection(_, _) => 21,
        Ty::Opaque => 22,
        Ty::Param(_) => 23,
        Ty::Bound => 24,
        Ty::Placeholder => 25,
        Ty::Infer => 26,
        Ty::Error => 27,
    }
}

fn put_ty_payload(out: &mut Vec<u8>, t: &Ty)
    ensures
        final(out)@ == old(out)@ + ty_payload(t@),
    decreases t, 0nat,
{
    match t {
        Ty::Int(i) => {
            out.push(int_code_of(*i));
        },
        Ty::Uint(u) => {
            out.push(uint_code_of(*u));
        },
        Ty::Float(f) => {
            out.push(float_code_of(*f));
        },
        Ty::Adt(d, args) => {
            put_def(out, d);
            put_args(out, args);
        },
        Ty::Array(e, n) => {
            put_ty(out, e);
            put_const(out, n);
        },
        Ty::Slice(e) => {
            put_ty(out, e);
        },
        Ty::RawPtr(e, m) => {
            out.push(mut_code_of(*m));
            put_ty(out, e);
        },
        Ty::Ref(e, m) => {
            out.push(mut_code_of(*m));
            put_ty(out, e);
        },
        Ty::FnDef(d, args) => {
            put_def(out, d);
            put_args(out, args);
        },
        Ty::FnPtr(sig) => {
            put_sig(out, sig);
        },
        Ty::Dynamic(preds) => {
            put_preds(out, preds);
        },
        Ty::Closure(d, args, upvars) => {
            put_def(out, d);
            put_args(out, args);
            put_tys(out, upvars);
        },
        Ty::Tuple(tys) => {
            put_tys(out, tys);
        },
        Ty::Projection(d, args) => {
            put_def(out, d);
            put_args(out, args);
        },
        Ty::UnnormalizedProjection(d, args) => {
            put_def(out, d);
            put_args(out, args);
        },
        Ty::Param(i) => {
            put_leb(out, *i as u128);
        },
        _ => {},
    }
    assert(out@ =~= old(out)@ + ty_payload(t@));
}

pub fn put_ty(out: &mut Vec<u8>, t: &Ty)
    ensures
        final(out)@ == old(out)@ + enc_ty(t@),
    decreases t, 1nat,
{
    out.push(ty_tag_of(t));
    put_ty_payload(out, t);
    assert(out@ =~= old(out)@ + enc_ty(t@));
}

pub fn put_tys(out: &mut Vec<u8>, v: &Vec<Ty>)
    ensures
        final(out)@ == old(out)@ + enc_tys(tys_view(v@)),
    decreases v,
{
    put_leb(out, v.len() as u128);
    let mut i: usize = 0;
    while i < v.len()
        invariant
            i <= v.len(),
            out@ == old(out)@ + leb(v.len() as nat) + enc_tys_upto(tys_view(v@), i as nat),
        decreases v.len() - i,
    {
        put_ty(out, &v[i]);
        assert(out@ =~= old(out)@ + leb(v.len() as nat) + enc_tys_upto(tys_view(v@), (i + 1) as nat));
        i += 1;
    }
    assert(out@ =~= old(out)@ + enc_tys(tys_view(v@)));
}

pub fn put_arg(out: &mut Vec<u8>, a: &GenericArg)
    ensures
        final(out)@ == old(out)@ + enc_arg(a@),
    decreases a,
{
    match a {
        GenericArg::Type(t) => {
            out.push(0);
            put_ty(out, t);
        },
        GenericArg::Lifetime => {
            out.push(1);
        },
        GenericArg::Const(c) => {
            out.push(2);
            put_const(out, c);
        },
    }
    assert(out@ =~= old(out)@ + enc_arg(a@));
}

pub fn put_args(out: &mut Vec<u8>, v: &Vec<GenericArg>)
    ensures
        final(out)@ == old(out)@ + enc_args(args_view(v@)),
    decreases v,
{
    put_leb(out, v.len() as u128);
    let mut i: usize = 0;
    while i < v.len()
        invariant
            i <= v.len(),
            out@ == old(out)@ + leb(v.len() as nat) + enc_args_upto(args_view(v@), i as nat),
        decreases v.len() - i,
    {
        put_arg(out, &v[i]);
        assert(out@ =~= old(out)@ + leb(v.len() as nat) + enc_args_upto(args_view(v@), (i + 1) as nat));
        i += 1;
    }
    assert(out@ =~= old(out)@ + enc_args(args_view(v@)));
}

pub fn put_sig(out: &mut Vec<u8>, s: &FnSig)
    ensures
        final(out)@ == old(out)@ + enc_sig(s@),
    decreases s,
{
    put_tys(out, &s.inputs);
    put_ty(out, &s.output);
    out.push(if s.c_variadic { 1 } else { 0 });
    out.push(if s.is_unsafe { 1 } else { 0 });
    out.push(abi_code_of(s.abi));
    assert(out@ =~= old(out)@ + enc_sig(s@));
}

pub fn put_trait_ref(out: &mut Vec<u8>, t: &ExistentialTraitRef)
    ensures
        final(out)@ == old(out)@ + enc_trait_ref(t@),
    decreases t,
{
    put_def(out, &t.def_id);
    put_args(out, &t.substs);
    assert(out@ =~= old(out)@ + enc_trait_ref(t@));
}

pub fn put_projection(out: &mut Vec<u8>, p: &ExistentialProjection)
    ensures
        final(out)@ == old(out)@ + enc_projection(p@),
    decreases p,
{
    put_def(out, &p.item_def_id);
    put_args(out, &p.substs);
    put_ty(out, &p.ty);
    assert(out@ =~= old(out)@ + enc_projection(p@));
}

pub fn put_pred(out: &mut Vec<u8>, p: &ExistentialPredicate)
    ensures
        final(out)@ == old(out)@ + enc_pred(p@),
    decreases p,
{
    match p {
        ExistentialPredicate::Trait(t) => {
            out.push(0);
            put_trait_ref(out, t);
        },
        ExistentialPredicate::Projection(q) => {
            out.push(1);
            put_projection(out, q);
        },
        ExistentialPredicate::AutoTrait(d) => {
            out.push(2);
            put_def(out, d);
        },
    }
    assert(out@ =~= old(out)@ + enc_pred(p@));
}

pub fn put_preds(out: &mut Vec<u8>, v: &Vec<ExistentialPredicate>)
    ensures
        final(out)@ == old(out)@ + enc_preds(preds_view(v@)),
    decreases v,
{
    put_leb(out, v.len() as u128);
    let mut i: usize = 0;
    while i < v.len()
        invariant
            i <= v.len(),
            out@ == old(out)@ + leb(v.len() as nat) + enc_preds_upto(preds_view(v@), i as nat),
        decreases v.len() - i,
    {
        put_pred(out, &v[i]);
        assert(out@ =~= old(out)@ + leb(v.len() as nat) + enc_preds_upto(preds_view(v@), (i + 1) as nat));
        i += 1;
    }
    assert(out@ =~= old(out)@ + enc_preds(preds_view(v@)));
}

pub fn put_const(out: &mut Vec<u8>, c: &Const)
    ensures
        final(out)@ == old(out)@ + enc_const(c@),
    decreases c,
{
    put_ty(out, &c.ty);
    put_kind(out, &c.val);
    assert(out@ =~= old(out)@ + enc_const(c@));
}

pub fn put_kind(out: &mut Vec<u8>, k: &ConstKind)
    ensures
        final(out)@ == old(out)@ + enc_kind(k@),
    decreases k,
{
    match k {
        ConstKind::Unevaluated(d, args, promoted) => {
            out.push(0);
            put_def(out, d);
            put_args(out, args);
            match promoted {
                Some(n) => {
                    out.push(1);
                    put_leb(out, *n as u128);
                },
                None => {
                    out.push(0);
                },
            }
        },
        ConstKind::Value(v) => {
            out.push(1);
            put_value(out, v);
        },
    }
    assert(out@ =~= old(out)@ + enc_kind(k@));
}

/// What can be folded into the hash of a name: a type, or a list of generic
/// arguments.
pub trait StableEncode {
    /// The canonical byte form.
    spec fn encoding(&self) -> Seq<u8>;

    /// Appends the canonical byte form to `out`.
    fn encode(&self, out: &mut Vec<u8>)
        ensures
            final(out)@ == old(out)@ + self.encoding(),
    ;
}

impl StableEncode for Ty {
    open spec fn encoding(&self) -> Seq<u8> {
        enc_ty(self@)
    }

    fn encode(&self, out: &mut Vec<u8>) {
        put_ty(out, self)
    }
}

impl StableEncode for Vec<GenericArg> {
    open spec fn encoding(&self) -> Seq<u8> {
        enc_args(args_view(self@))
    }

    fn encode(&self, out: &mut Vec<u8>) {
        put_args(out, self)
    }
}

} // verus!
