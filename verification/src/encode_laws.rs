//! The byte form tells items apart: two items with the same byte form are
//! the same item. More is true, and is what the proof goes by: where the
//! byte form of one item, followed by anything, equals the byte form of
//! another, followed by anything, the items are the same and so is what
//! follows.
use vstd::prelude::*;
use crate::encode::{
    abi_code, bool_code, enc_arg, enc_args, enc_args_upto, enc_bytes, enc_const, enc_def, enc_kind, enc_opt_def,
    enc_opt_text, enc_opt_u32, enc_pred, enc_preds, enc_preds_upto, enc_projection, enc_sig, enc_text,
    enc_trait_ref, enc_ty, enc_tys, enc_tys_upto, enc_value, float_code, int_code, leb, mut_code, ty_payload,
    ty_tag, uint_code,
};
use crate::hash::stable_hash64;
use crate::names::{adt_name, dyn_ty_of, instance_def, instance_name, instance_tag, is_plain, trait_name};
use crate::name_laws::{law_adt_names, law_ext_names_differ_with_hashes, law_instance_names};
use crate::types::{
    AdtInstView, ConstKindView, ConstValueView, ConstView, DefIdView, ExistentialPredicateView,
    ExistentialProjectionView, ExistentialTraitRefView, FnSigView, GenericArgView, InstanceView, TraitInstView,
    TyView,
};

verus! {

/// Two equal concatenations whose first parts have the same length have
/// the same parts.
pub proof fn lemma_split<A>(a: Seq<A>, x: Seq<A>, b: Seq<A>, y: Seq<A>)
    requires
        a + x == b + y,
        a.len() == b.len(),
    ensures
        a == b,
        x == y,
{
    let l = a + x;
    let r = b + y;
    assert(l.subrange(0, a.len() as int) =~= a);
    assert(r.subrange(0, b.len() as int) =~= b);
    assert(l.subrange(a.len() as int, l.len() as int) =~= x);
    assert(r.subrange(b.len() as int, r.len() as int) =~= y);
}

/// Two equal lists that each begin with one byte begin with the same byte
/// and go on the same.
pub proof fn lemma_head(t: u8, r: Seq<u8>, u: u8, q: Seq<u8>)
    requires
        seq![t] + r == seq![u] + q,
    ensures
        t == u,
        r == q,
{
    lemma_split(seq![t], r, seq![u], q);
    assert(seq![t][0] == seq![u][0]);
}

pub proof fn lemma_assoc<A>(a: Seq<A>, b: Seq<A>, c: Seq<A>)
    ensures
        (a + b) + c == a + (b + c),
{
    assert((a + b) + c =~= a + (b + c));
}

pub proof fn inj_leb(n: nat, m: nat, x: Seq<u8>, y: Seq<u8>)
    requires
        leb(n) + x == leb(m) + y,
    ensures
        n == m,
        x == y,
    decreases n,
{
    let l = leb(n) + x;
    let r = leb(m) + y;
    assert(l[0] == leb(n)[0]);
    assert(r[0] == leb(m)[0]);
    if n < 128 {
        assert(leb(n)[0] == n as u8);
        if m >= 128 {
            assert(leb(m)[0] == (128 + m % 128) as u8);
            assert(false);
        }
        lemma_head(n as u8, x, m as u8, y);
    } else {
        assert(leb(n)[0] == (128 + n % 128) as u8);
        if m < 128 {
            assert(leb(m)[0] == m as u8);
            assert(false);
        }
        lemma_assoc(seq![(128 + n % 128) as u8], leb(n / 128), x);
        lemma_assoc(seq![(128 + m % 128) as u8], leb(m / 128), y);
        lemma_head((128 + n % 128) as u8, leb(n / 128) + x, (128 + m % 128) as u8, leb(m / 128) + y);
        inj_leb(n / 128, m / 128, x, y);
    }
}

pub proof fn inj_bytes(a: Seq<u8>, b: Seq<u8>, x: Seq<u8>, y: Seq<u8>)
    requires
        enc_bytes(a) + x == enc_bytes(b) + y,
    ensures
        a == b,
        x == y,
{
    lemma_assoc(leb(a.len()), a, x);
    lemma_assoc(leb(b.len()), b, y);
    inj_leb(a.len(), b.len(), a + x, b + y);
    lemma_split(a, x, b, y);
}

pub proof fn inj_text(s: Seq<char>, t: Seq<char>, x: Seq<u8>, y: Seq<u8>)
    requires
        enc_text(s) + x == enc_text(t) + y,
    ensures
        s == t,
        x == y,
{
    inj_bytes(vstd::utf8::encode_utf8(s), vstd::utf8::encode_utf8(t), x, y);
    vstd::utf8::encode_utf8_decode_utf8(s);
    vstd::utf8::encode_utf8_decode_utf8(t);
}

pub proof fn inj_def(d: DefIdView, e: DefIdView, x: Seq<u8>, y: Seq<u8>)
    requires
        enc_def(d) + x == enc_def(e) + y,
    ensures
        d == e,
        x == y,
{
    lemma_assoc(enc_text(d.krate) + enc_text(d.disambiguator), enc_text(d.path), x);
    lemma_assoc(enc_text(d.krate), enc_text(d.disambiguator), enc_text(d.path) + x);
    lemma_assoc(enc_text(e.krate) + enc_text(e.disambiguator), enc_text(e.path), y);
    lemma_assoc(enc_text(e.krate), enc_text(e.disambiguator), enc_text(e.path) + y);
    inj_text(d.krate, e.krate, enc_text(d.disambiguator) + (enc_text(d.path) + x), enc_text(e.disambiguator) + (
        enc_text(e.path) + y
    ));
    inj_text(d.disambiguator, e.disambiguator, enc_text(d.path) + x, enc_text(e.path) + y);
    inj_text(d.path, e.path, x, y);
}

pub proof fn inj_opt_def(d: Option<DefIdView>, e: Option<DefIdView>, x: Seq<u8>, y: Seq<u8>)
    requires
        enc_opt_def(d) + x == enc_opt_def(e) + y,
    ensures
        d == e,
        x == y,
{
    match (d, e) {
        (Some(a), Some(b)) => {
            lemma_assoc(seq![1u8], enc_def(a), x);
            lemma_assoc(seq![1u8], enc_def(b), y);
            lemma_head(1u8, enc_def(a) + x, 1u8, enc_def(b) + y);
            inj_def(a, b, x, y);
        },
        (Some(a), None) => {
            lemma_assoc(seq![1u8], enc_def(a), x);
            lemma_head(1u8, enc_def(a) + x, 0u8, y);
        },
        (None, Some(b)) => {
            lemma_assoc(seq![1u8], enc_def(b), y);
            lemma_head(0u8, x, 1u8, enc_def(b) + y);
        },
        (None, None) => {
            lemma_head(0u8, x, 0u8, y);
        },
    }
}

pub proof fn inj_opt_text(d: Option<Seq<char>>, e: Option<Seq<char>>, x: Seq<u8>, y: Seq<u8>)
    requires
        enc_opt_text(d) + x == enc_opt_text(e) + y,
    ensures
        d == e,
        x == y,
{
    match (d, e) {
        (Some(a), Some(b)) => {
            lemma_assoc(seq![1u8], enc_text(a), x);
            lemma_assoc(seq![1u8], enc_text(b), y);
            lemma_head(1u8, enc_text(a) + x, 1u8, enc_text(b) + y);
            inj_text(a, b, x, y);
        },
        (Some(a), None) => {
            lemma_assoc(seq![1u8], enc_text(a), x);
            lemma_head(1u8, enc_text(a) + x, 0u8, y);
        },
        (None, Some(b)) => {
            lemma_assoc(seq![1u8], enc_text(b), y);
            lemma_head(0u8, x, 1u8, enc_text(b) + y);
        },
        (None, None) => {
            lemma_head(0u8, x, 0u8, y);
        },
    }
}

pub proof fn inj_opt_u32(d: Option<u32>, e: Option<u32>, x: Seq<u8>, y: Seq<u8>)
    requires
        enc_opt_u32(d) + x == enc_opt_u32(e) + y,
    ensures
        d == e,
        x == y,
{
    match (d, e) {
        (Some(a), Some(b)) => {
            lemma_assoc(seq![1u8], leb(a as nat), x);
            lemma_assoc(seq![1u8], leb(b as nat), y);
            lemma_head(1u8, leb(a as nat) + x, 1u8, leb(b as nat) + y);
            inj_leb(a as nat, b as nat, x, y);
        },
        (Some(a), None) => {
            lemma_assoc(seq![1u8], leb(a as nat), x);
            lemma_head(1u8, leb(a as nat) + x, 0u8, y);
        },
        (None, Some(b)) => {
            lemma_assoc(seq![1u8], leb(b as nat), y);
            lemma_head(0u8, x, 1u8, leb(b as nat) + y);
        },
        (None, None) => {
            lemma_head(0u8, x, 0u8, y);
        },
    }
}

/// The tag of an evaluated constant and what follows it.
pub open spec fn value_tag(v: ConstValueView) -> u8 {
    match v {
        ConstValueView::Scalar { .. } => 0,
        ConstValueView::Ptr { .. } => 1,
        ConstValueView::Slice { .. } => 2,
        ConstValueView::ByRef => 3,
    }
}

pub open spec fn value_payload(v: ConstValueView) -> Seq<u8> {
    match v {
        ConstValueView::Scalar { size, data, float_text } => leb(size as nat) + (leb(data as nat)
            + enc_opt_text(float_text)),
        ConstValueView::Ptr { static_def } => enc_opt_def(static_def),
        ConstValueView::Slice { bytes, relocations, start, end } => enc_bytes(bytes) + (leb(relocations as nat)
            + (leb(start as nat) + leb(end as nat))),
        ConstValueView::ByRef => Seq::<u8>::empty(),
    }
}

pub proof fn lemma_value_shape(v: ConstValueView)
    ensures
        enc_value(v) == seq![value_tag(v)] + value_payload(v),
{
    assert(enc_value(v) =~= seq![value_tag(v)] + value_payload(v));
}

pub proof fn inj_value(v: ConstValueView, w: ConstValueView, x: Seq<u8>, y: Seq<u8>)
    requires
        enc_value(v) + x == enc_value(w) + y,
    ensures
        v == w,
        x == y,
{
    lemma_value_shape(v);
    lemma_value_shape(w);
    lemma_assoc(seq![value_tag(v)], value_payload(v), x);
    lemma_assoc(seq![value_tag(w)], value_payload(w), y);
    lemma_head(value_tag(v), value_payload(v) + x, value_tag(w), value_payload(w) + y);
    match v {
        ConstValueView::Scalar { size, data, float_text } => {
            let size2 = w->Scalar_size;
            let data2 = w->Scalar_data;
            let text2 = w->Scalar_float_text;
            lemma_assoc(leb(size as nat), leb(data as nat) + enc_opt_text(float_text), x);
            lemma_assoc(leb(data as nat), enc_opt_text(float_text), x);
            lemma_assoc(leb(size2 as nat), leb(data2 as nat) + enc_opt_text(text2), y);
            lemma_assoc(leb(data2 as nat), enc_opt_text(text2), y);
            inj_leb(
                size as nat,
                size2 as nat,
                leb(data as nat) + (enc_opt_text(float_text) + x),
                leb(data2 as nat) + (enc_opt_text(text2) + y),
            );
            inj_leb(data as nat, data2 as nat, enc_opt_text(float_text) + x, enc_opt_text(text2) + y);
            inj_opt_text(float_text, text2, x, y);
        },
        ConstValueView::Ptr { static_def } => {
            inj_opt_def(static_def, w->Ptr_static_def, x, y);
        },
        ConstValueView::Slice { bytes, relocations, start, end } => {
            let b2 = w->Slice_bytes;
            let r2 = w->Slice_relocations;
            let s2 = w->Slice_start;
            let e2 = w->Slice_end;
            let t1 = leb(relocations as nat) + (leb(start as nat) + leb(end as nat));
            let t2 = leb(r2 as nat) + (leb(s2 as nat) + leb(e2 as nat));
            lemma_assoc(enc_bytes(bytes), t1, x);
            lemma_assoc(enc_bytes(b2), t2, y);
            inj_bytes(bytes, b2, t1 + x, t2 + y);
            lemma_assoc(leb(relocations as nat), leb(start as nat) + leb(end as nat), x);
            lemma_assoc(leb(r2 as nat), leb(s2 as nat) + leb(e2 as nat), y);
            inj_leb(
                relocations as nat,
                r2 as nat,
                (leb(start as nat) + leb(end as nat)) + x,
                (leb(s2 as nat) + leb(e2 as nat)) + y,
            );
            lemma_assoc(leb(start as nat), leb(end as nat), x);
            lemma_assoc(leb(s2 as nat), leb(e2 as nat), y);
            inj_leb(start as nat, s2 as nat, leb(end as nat) + x, leb(e2 as nat) + y);
            inj_leb(end as nat, e2 as nat, x, y);
        },
        ConstValueView::ByRef => {
            assert(value_payload(v) + x =~= x);
            assert(value_payload(w) + y =~= y);
        },
    }
}

pub proof fn inj_ty(a: TyView, b: TyView, x: Seq<u8>, y: Seq<u8>)
    requires
        enc_ty(a) + x == enc_ty(b) + y,
    ensures
        a == b,
        x == y,
    decreases a, 1nat,
{
    lemma_assoc(seq![ty_tag(a)], ty_payload(a), x);
    lemma_assoc(seq![ty_tag(b)], ty_payload(b), y);
    lemma_head(ty_tag(a), ty_payload(a) + x, ty_tag(b), ty_payload(b) + y);
    inj_payload(a, b, x, y);
}

pub proof fn inj_def_args(
    d: DefIdView,
    args: Seq<GenericArgView>,
    e: DefIdView,
    brgs: Seq<GenericArgView>,
    x: Seq<u8>,
    y: Seq<u8>,
)
    requires
        (enc_def(d) + enc_args(args)) + x == (enc_def(e) + enc_args(brgs)) + y,
    ensures
        d == e,
        args == brgs,
        x == y,
    decreases args, args.len() + 2,
{
    lemma_assoc(enc_def(d), enc_args(args), x);
    lemma_assoc(enc_def(e), enc_args(brgs), y);
    inj_def(d, e, enc_args(args) + x, enc_args(brgs) + y);
    inj_args(args, brgs, x, y);
}

pub proof fn inj_payload(a: TyView, b: TyView, x: Seq<u8>, y: Seq<u8>)
    requires
        ty_tag(a) == ty_tag(b),
        ty_payload(a) + x == ty_payload(b) + y,
    ensures
        a == b,
        x == y,
    decreases a, 0nat,
{
    match a {
        TyView::Int(i) => {
            lemma_head(int_code(i), x, int_code(b->Int_0), y);
        },
        TyView::Uint(u) => {
            lemma_head(uint_code(u), x, uint_code(b->Uint_0), y);
        },
        TyView::Float(f) => {
            lemma_head(float_code(f), x, float_code(b->Float_0), y);
        },
        TyView::Adt(d, args) => {
            inj_def_args(d, args, b->Adt_0, b->Adt_1, x, y);
        },
        TyView::Array(e, n) => {
            let e2 = b->Array_0;
            let n2 = b->Array_1;
            lemma_assoc(enc_ty(*e), enc_const(*n), x);
            lemma_assoc(enc_ty(*e2), enc_const(*n2), y);
            inj_ty(*e, *e2, enc_const(*n) + x, enc_const(*n2) + y);
            inj_const(*n, *n2, x, y);
        },
        TyView::Slice(e) => {
            inj_ty(*e, *b->Slice_0, x, y);
        },
        TyView::RawPtr(e, m) => {
            let e2 = b->RawPtr_0;
            lemma_assoc(seq![mut_code(m)], enc_ty(*e), x);
            lemma_assoc(seq![mut_code(b->RawPtr_1)], enc_ty(*e2), y);
            lemma_head(mut_code(m), enc_ty(*e) + x, mut_code(b->RawPtr_1), enc_ty(*e2) + y);
            inj_ty(*e, *e2, x, y);
        },
        TyView::Ref(e, m) => {
            let e2 = b->Ref_0;
            lemma_assoc(seq![mut_code(m)], enc_ty(*e), x);
            lemma_assoc(seq![mut_code(b->Ref_1)], enc_ty(*e2), y);
            lemma_head(mut_code(m), enc_ty(*e) + x, mut_code(b->Ref_1), enc_ty(*e2) + y);
            inj_ty(*e, *e2, x, y);
        },
        TyView::FnDef(d, args) => {
            inj_def_args(d, args, b->FnDef_0, b->FnDef_1, x, y);
        },
        TyView::FnPtr(sig) => {
            inj_sig(*sig, *b->FnPtr_0, x, y);
        },
        TyView::Dynamic(preds) => {
            inj_preds(preds, b->Dynamic_0, x, y);
        },
        TyView::Closure(d, args, upvars) => {
            let d2 = b->Closure_0;
            let args2 = b->Closure_1;
            let upvars2 = b->Closure_2;
            lemma_assoc(enc_def(d) + enc_args(args), enc_tys(upvars), x);
            lemma_assoc(enc_def(d2) + enc_args(args2), enc_tys(upvars2), y);
            inj_def_args(d, args, d2, args2, enc_tys(upvars) + x, enc_tys(upvars2) + y);
            inj_tys(upvars, upvars2, x, y);
        },
        TyView::Tuple(tys) => {
            inj_tys(tys, b->Tuple_0, x, y);
        },
        TyView::Projection(d, args) => {
            inj_def_args(d, args, b->Projection_0, b->Projection_1, x, y);
        },
        TyView::UnnormalizedProjection(d, args) => {
            inj_def_args(d, args, b->UnnormalizedProjection_0, b->UnnormalizedProjection_1, x, y);
        },
        TyView::Param(i) => {
            inj_leb(i as nat, b->Param_0 as nat, x, y);
        },
        _ => {
            assert(ty_payload(a) + x =~= x);
            assert(ty_payload(b) + y =~= y);
        },
    }
}

pub proof fn inj_tys_upto(ts: Seq<TyView>, us: Seq<TyView>, n: nat, x: Seq<u8>, y: Seq<u8>)
    requires
        n <= ts.len(),
        n <= us.len(),
        enc_tys_upto(ts, n) + x == enc_tys_upto(us, n) + y,
    ensures
        forall|i: int| 0 <= i < n ==> ts[i] == us[i],
        x == y,
    decreases ts, n,
{
    if n == 0 {
        assert(enc_tys_upto(ts, n) + x =~= x);
        assert(enc_tys_upto(us, n) + y =~= y);
    } else {
        lemma_assoc(enc_tys_upto(ts, (n - 1) as nat), enc_ty(ts[n - 1]), x);
        lemma_assoc(enc_tys_upto(us, (n - 1) as nat), enc_ty(us[n - 1]), y);
        inj_tys_upto(ts, us, (n - 1) as nat, enc_ty(ts[n - 1]) + x, enc_ty(us[n - 1]) + y);
        inj_ty(ts[n - 1], us[n - 1], x, y);
    }
}

pub proof fn inj_tys(ts: Seq<TyView>, us: Seq<TyView>, x: Seq<u8>, y: Seq<u8>)
    requires
        enc_tys(ts) + x == enc_tys(us) + y,
    ensures
        ts == us,
        x == y,
    decreases ts, ts.len() + 1,
{
    lemma_assoc(leb(ts.len()), enc_tys_upto(ts, ts.len()), x);
    lemma_assoc(leb(us.len()), enc_tys_upto(us, us.len()), y);
    inj_leb(ts.len(), us.len(), enc_tys_upto(ts, ts.len()) + x, enc_tys_upto(us, us.len()) + y);
    inj_tys_upto(ts, us, ts.len(), x, y);
    assert(ts =~= us);
}

pub proof fn inj_arg(a: GenericArgView, b: GenericArgView, x: Seq<u8>, y: Seq<u8>)
    requires
        enc_arg(a) + x == enc_arg(b) + y,
    ensures
        a == b,
        x == y,
    decreases a,
{
    match (a, b) {
        (GenericArgView::Type(s), GenericArgView::Type(t)) => {
            lemma_assoc(seq![0u8], enc_ty(s), x);
            lemma_assoc(seq![0u8], enc_ty(t), y);
            lemma_head(0u8, enc_ty(s) + x, 0u8, enc_ty(t) + y);
            inj_ty(s, t, x, y);
        },
        (GenericArgView::Lifetime, GenericArgView::Lifetime) => {
            lemma_head(1u8, x, 1u8, y);
        },
        (GenericArgView::Const(c), GenericArgView::Const(d)) => {
            lemma_assoc(seq![2u8], enc_const(c), x);
            lemma_assoc(seq![2u8], enc_const(d), y);
            lemma_head(2u8, enc_const(c) + x, 2u8, enc_const(d) + y);
            inj_const(c, d, x, y);
        },
        _ => {
            lemma_arg_tag(a, x);
            lemma_arg_tag(b, y);
        },
    }
}

/// The first byte of an argument tells its kind.
pub proof fn lemma_arg_tag(a: GenericArgView, x: Seq<u8>)
    ensures
        (enc_arg(a) + x).len() > 0,
        (enc_arg(a) + x)[0] == match a {
            GenericArgView::Type(_) => 0u8,
            GenericArgView::Lifetime => 1u8,
            GenericArgView::Const(_) => 2u8,
        },
{
}

pub proof fn inj_args_upto(ts: Seq<GenericArgView>, us: Seq<GenericArgView>, n: nat, x: Seq<u8>, y: Seq<u8>)
    requires
        n <= ts.len(),
        n <= us.len(),
        enc_args_upto(ts, n) + x == enc_args_upto(us, n) + y,
    ensures
        forall|i: int| 0 <= i < n ==> ts[i] == us[i],
        x == y,
    decreases ts, n,
{
    if n == 0 {
        assert(enc_args_upto(ts, n) + x =~= x);
        assert(enc_args_upto(us, n) + y =~= y);
    } else {
        lemma_assoc(enc_args_upto(ts, (n - 1) as nat), enc_arg(ts[n - 1]), x);
        lemma_assoc(enc_args_upto(us, (n - 1) as nat), enc_arg(us[n - 1]), y);
        inj_args_upto(ts, us, (n - 1) as nat, enc_arg(ts[n - 1]) + x, enc_arg(us[n - 1]) + y);
        inj_arg(ts[n - 1], us[n - 1], x, y);
    }
}

pub proof fn inj_args(ts: Seq<GenericArgView>, us: Seq<GenericArgView>, x: Seq<u8>, y: Seq<u8>)
    requires
        enc_args(ts) + x == enc_args(us) + y,
    ensures
        ts == us,
        x == y,
    decreases ts, ts.len() + 1,
{
    lemma_assoc(leb(ts.len()), enc_args_upto(ts, ts.len()), x);
    lemma_assoc(leb(us.len()), enc_args_upto(us, us.len()), y);
    inj_leb(ts.len(), us.len(), enc_args_upto(ts, ts.len()) + x, enc_args_upto(us, us.len()) + y);
    inj_args_upto(ts, us, ts.len(), x, y);
    assert(ts =~= us);
}

pub proof fn inj_sig(s: FnSigView, t: FnSigView, x: Seq<u8>, y: Seq<u8>)
    requires
        enc_sig(s) + x == enc_sig(t) + y,
    ensures
        s == t,
        x == y,
    decreases s,
{
    let fs = seq![bool_code(s.c_variadic), bool_code(s.is_unsafe), abi_code(s.abi)];
    let ft = seq![bool_code(t.c_variadic), bool_code(t.is_unsafe), abi_code(t.abi)];
    lemma_assoc(enc_tys(s.inputs) + enc_ty(s.output), fs, x);
    lemma_assoc(enc_tys(s.inputs), enc_ty(s.output), fs + x);
    lemma_assoc(enc_tys(t.inputs) + enc_ty(t.output), ft, y);
    lemma_assoc(enc_tys(t.inputs), enc_ty(t.output), ft + y);
    inj_tys(s.inputs, t.inputs, enc_ty(s.output) + (fs + x), enc_ty(t.output) + (ft + y));
    inj_ty(s.output, t.output, fs + x, ft + y);
    lemma_split(fs, x, ft, y);
    assert(fs[0] == ft[0] && fs[1] == ft[1] && fs[2] == ft[2]);
}

pub proof fn inj_trait_ref(s: ExistentialTraitRefView, t: ExistentialTraitRefView, x: Seq<u8>, y: Seq<u8>)
    requires
        enc_trait_ref(s) + x == enc_trait_ref(t) + y,
    ensures
        s == t,
        x == y,
    decreases s,
{
    inj_def_args(s.def_id, s.substs, t.def_id, t.substs, x, y);
}

pub proof fn inj_projection(s: ExistentialProjectionView, t: ExistentialProjectionView, x: Seq<u8>, y: Seq<u8>)
    requires
        enc_projection(s) + x == enc_projection(t) + y,
    ensures
        s == t,
        x == y,
    decreases s,
{
    lemma_assoc(enc_def(s.item_def_id) + enc_args(s.substs), enc_ty(s.ty), x);
    lemma_assoc(enc_def(t.item_def_id) + enc_args(t.substs), enc_ty(t.ty), y);
    inj_def_args(s.item_def_id, s.substs, t.item_def_id, t.substs, enc_ty(s.ty) + x, enc_ty(t.ty) + y);
    inj_ty(s.ty, t.ty, x, y);
}

/// The first byte of a predicate tells its kind.
pub proof fn lemma_pred_tag(a: ExistentialPredicateView, x: Seq<u8>)
    ensures
        (enc_pred(a) + x).len() > 0,
        (enc_pred(a) + x)[0] == match a {
            ExistentialPredicateView::Trait(_) => 0u8,
            ExistentialPredicateView::Projection(_) => 1u8,
            ExistentialPredicateView::AutoTrait(_) => 2u8,
        },
{
}

pub proof fn inj_pred(a: ExistentialPredicateView, b: ExistentialPredicateView, x: Seq<u8>, y: Seq<u8>)
    requires
        enc_pred(a) + x == enc_pred(b) + y,
    ensures
        a == b,
        x == y,
    decreases a,
{
    match (a, b) {
        (ExistentialPredicateView::Trait(s), ExistentialPredicateView::Trait(t)) => {
            lemma_assoc(seq![0u8], enc_trait_ref(s), x);
            lemma_assoc(seq![0u8], enc_trait_ref(t), y);
            lemma_head(0u8, enc_trait_ref(s) + x, 0u8, enc_trait_ref(t) + y);
            inj_trait_ref(s, t, x, y);
        },
        (ExistentialPredicateView::Projection(s), ExistentialPredicateView::Projection(t)) => {
            lemma_assoc(seq![1u8], enc_projection(s), x);
            lemma_assoc(seq![1u8], enc_projection(t), y);
            lemma_head(1u8, enc_projection(s) + x, 1u8, enc_projection(t) + y);
            inj_projection(s, t, x, y);
        },
        (ExistentialPredicateView::AutoTrait(s), ExistentialPredicateView::AutoTrait(t)) => {
            lemma_assoc(seq![2u8], enc_def(s), x);
            lemma_assoc(seq![2u8], enc_def(t), y);
            lemma_head(2u8, enc_def(s) + x, 2u8, enc_def(t) + y);
            inj_def(s, t, x, y);
        },
        _ => {
            lemma_pred_tag(a, x);
            lemma_pred_tag(b, y);
        },
    }
}

pub proof fn inj_preds_upto(
    ts: Seq<ExistentialPredicateView>,
    us: Seq<ExistentialPredicateView>,
    n: nat,
    x: Seq<u8>,
    y: Seq<u8>,
)
    requires
        n <= ts.len(),
        n <= us.len(),
        enc_preds_upto(ts, n) + x == enc_preds_upto(us, n) + y,
    ensures
        forall|i: int| 0 <= i < n ==> ts[i] == us[i],
        x == y,
    decreases ts, n,
{
    if n == 0 {
        assert(enc_preds_upto(ts, n) + x =~= x);
        assert(enc_preds_upto(us, n) + y =~= y);
    } else {
        lemma_assoc(enc_preds_upto(ts, (n - 1) as nat), enc_pred(ts[n - 1]), x);
        lemma_assoc(enc_preds_upto(us, (n - 1) as nat), enc_pred(us[n - 1]), y);
        inj_preds_upto(ts, us, (n - 1) as nat, enc_pred(ts[n - 1]) + x, enc_pred(us[n - 1]) + y);
        inj_pred(ts[n - 1], us[n - 1], x, y);
    }
}

pub proof fn inj_preds(ts: Seq<ExistentialPredicateView>, us: Seq<ExistentialPredicateView>, x: Seq<u8>, y: Seq<u8>)
    requires
        enc_preds(ts) + x == enc_preds(us) + y,
    ensures
        ts == us,
        x == y,
    decreases ts, ts.len() + 1,
{
    lemma_assoc(leb(ts.len()), enc_preds_upto(ts, ts.len()), x);
    lemma_assoc(leb(us.len()), enc_preds_upto(us, us.len()), y);
    inj_leb(ts.len(), us.len(), enc_preds_upto(ts, ts.len()) + x, enc_preds_upto(us, us.len()) + y);
    inj_preds_upto(ts, us, ts.len(), x, y);
    assert(ts =~= us);
}

pub proof fn inj_const(c: ConstView, d: ConstView, x: Seq<u8>, y: Seq<u8>)
    requires
        enc_const(c) + x == enc_const(d) + y,
    ensures
        c == d,
        x == y,
    decreases c,
{
    lemma_assoc(enc_ty(c.ty), enc_kind(c.val), x);
    lemma_assoc(enc_ty(d.ty), enc_kind(d.val), y);
    inj_ty(c.ty, d.ty, enc_kind(c.val) + x, enc_kind(d.val) + y);
    inj_kind(c.val, d.val, x, y);
}

/// The first byte of what is known of a constant tells its kind.
pub proof fn lemma_kind_tag(k: ConstKindView, x: Seq<u8>)
    ensures
        (enc_kind(k) + x).len() > 0,
        (enc_kind(k) + x)[0] == match k {
            ConstKindView::Unevaluated(_, _, _) => 0u8,
            ConstKindView::Value(_) => 1u8,
        },
{
}

pub proof fn inj_kind(k: ConstKindView, l: ConstKindView, x: Seq<u8>, y: Seq<u8>)
    requires
        enc_kind(k) + x == enc_kind(l) + y,
    ensures
        k == l,
        x == y,
    decreases k,
{
    match (k, l) {
        (ConstKindView::Unevaluated(d, args, p), ConstKindView::Unevaluated(e, brgs, q)) => {
            let ta = enc_def(d) + enc_args(args);
            let tb = enc_def(e) + enc_args(brgs);
            assert(enc_kind(k) =~= seq![0u8] + (ta + enc_opt_u32(p)));
            assert(enc_kind(l) =~= seq![0u8] + (tb + enc_opt_u32(q)));
            lemma_assoc(seq![0u8], ta + enc_opt_u32(p), x);
            lemma_assoc(seq![0u8], tb + enc_opt_u32(q), y);
            lemma_head(0u8, (ta + enc_opt_u32(p)) + x, 0u8, (tb + enc_opt_u32(q)) + y);
            lemma_assoc(ta, enc_opt_u32(p), x);
            lemma_assoc(tb, enc_opt_u32(q), y);
            inj_def_args(d, args, e, brgs, enc_opt_u32(p) + x, enc_opt_u32(q) + y);
            inj_opt_u32(p, q, x, y);
        },
        (ConstKindView::Value(v), ConstKindView::Value(w)) => {
            lemma_assoc(seq![1u8], enc_value(v), x);
            lemma_assoc(seq![1u8], enc_value(w), y);
            lemma_head(1u8, enc_value(v) + x, 1u8, enc_value(w) + y);
            inj_value(v, w, x, y);
        },
        _ => {
            lemma_kind_tag(k, x);
            lemma_kind_tag(l, y);
        },
    }
}

/// The byte form of a type tells types apart.
pub proof fn law_type_encoding_is_injective(a: TyView, b: TyView)
    requires
        enc_ty(a) == enc_ty(b),
    ensures
        a == b,
{
    inj_ty(a, b, Seq::<u8>::empty(), Seq::<u8>::empty());
}

/// The byte form of a list of generic arguments tells lists apart.
pub proof fn law_args_encoding_is_injective(a: Seq<GenericArgView>, b: Seq<GenericArgView>)
    requires
        enc_args(a) == enc_args(b),
    ensures
        a == b,
{
    inj_args(a, b, Seq::<u8>::empty(), Seq::<u8>::empty());
}

/// Two instantiations of one data type with different arguments have
/// different names, unless the hash function gives two different byte
/// strings the same hash.
pub proof fn law_different_arguments_different_names(a: AdtInstView, b: AdtInstView)
    requires
        a.adt == b.adt,
        a.substs != b.substs,
        adt_name(a) == adt_name(b),
    ensures
        enc_args(a.substs) != enc_args(b.substs),
        stable_hash64(enc_args(a.substs)) == stable_hash64(enc_args(b.substs)),
{
    law_adt_names(a, b);
    if enc_args(a.substs) == enc_args(b.substs) {
        law_args_encoding_is_injective(a.substs, b.substs);
    }
}

/// Two instances of one kind of one definition with different arguments,
/// neither of which goes by the definition's bare name, have different
/// names, unless the hash function gives two different byte strings the
/// same hash.
pub proof fn law_different_arguments_different_instance_names(a: InstanceView, b: InstanceView)
    requires
        instance_def(a) == instance_def(b),
        instance_tag(a.def) == instance_tag(b.def),
        !is_plain(a),
        !is_plain(b),
        a.substs != b.substs,
        instance_name(a) == instance_name(b),
    ensures
        enc_args(a.substs) != enc_args(b.substs),
        stable_hash64(enc_args(a.substs)) == stable_hash64(enc_args(b.substs)),
{
    law_instance_names(a, b);
    if enc_args(a.substs) == enc_args(b.substs) {
        law_args_encoding_is_injective(a.substs, b.substs);
    }
}

/// Two different trait instances with the same principal trait definition
/// have different names, unless the hash function gives two different byte
/// strings the same hash.
pub proof fn law_different_traits_different_names(a: TraitInstView, b: TraitInstView)
    requires
        a.trait_ref is Some,
        b.trait_ref is Some,
        a.trait_ref->Some_0.def_id == b.trait_ref->Some_0.def_id,
        a != b,
        trait_name(a) == trait_name(b),
    ensures
        enc_ty(dyn_ty_of(a)->Some_0) != enc_ty(dyn_ty_of(b)->Some_0),
        stable_hash64(enc_ty(dyn_ty_of(a)->Some_0)) == stable_hash64(enc_ty(dyn_ty_of(b)->Some_0)),
{
    let ta = dyn_ty_of(a)->Some_0;
    let tb = dyn_ty_of(b)->Some_0;
    law_ext_names_differ_with_hashes(
        a.trait_ref->Some_0.def_id,
        seq!['_', 't', 'r', 'a', 'i', 't'],
        enc_ty(ta),
        enc_ty(tb),
    );
    if enc_ty(ta) == enc_ty(tb) {
        law_type_encoding_is_injective(ta, tb);
        let pa = ta->Dynamic_0;
        let pb = tb->Dynamic_0;
        assert(pa[0] == pb[0]);
        assert(a.trait_ref == b.trait_ref);
        assert(a.projs.len() + 1 == pa.len());
        assert(b.projs.len() + 1 == pb.len());
        assert forall|k: int| 0 <= k < a.projs.len() implies a.projs[k] == b.projs[k] by {
            assert(pa[k + 1] == ExistentialPredicateView::Projection(a.projs[k]));
            assert(pb[k + 1] == ExistentialPredicateView::Projection(b.projs[k]));
        }
        assert(a.projs =~= b.projs);
    }
}

} // verus!
