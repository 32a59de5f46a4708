//! Literals: the leaf form of an evaluated constant.
use vstd::prelude::*;
use crate::json::{
    fields_new, json_array, json_kind, json_empty_array, json_number, json_object, json_of, json_str, json_string,
    jsons_of, put, Json,
};
use crate::lowered::{
    bytes_json, is_str_ref, pow256, rendered, rendered_value, scalar_literal, signed_value, value_readable,
};
use crate::names::def_id_str;
use crate::resolve::get_fn_def_name;
use crate::session::{MirState, TyCtxt};
use crate::text::{dec_i128, dec_u128};
use crate::types::{ConstValue, DefId, GenericArg, IntTy, Mutability, Ty, UintTy};
use crate::types::{args_view, ty_view};

verus! {

fn pow256_of(size: u8) -> (p: u128)
    requires
        size < 16,
    ensures
        p == pow256(size as nat),
        1 <= p <= 0x100_0000_0000_0000_0000_0000_0000_0000,
{
    proof {
        reveal_with_fuel(pow256, 17);
    }
    match size {
        0 => 1,
        1 => 0x100,
        2 => 0x1_0000,
        3 => 0x100_0000,
        4 => 0x1_0000_0000,
        5 => 0x100_0000_0000,
        6 => 0x1_0000_0000_0000,
        7 => 0x100_0000_0000_0000,
        8 => 0x1_0000_0000_0000_0000,
        9 => 0x100_0000_0000_0000_0000,
        10 => 0x1_0000_0000_0000_0000_0000,
        11 => 0x100_0000_0000_0000_0000_0000,
        12 => 0x1_0000_0000_0000_0000_0000_0000,
        13 => 0x100_0000_0000_0000_0000_0000_0000,
        14 => 0x1_0000_0000_0000_0000_0000_0000_0000,
        _ => 0x100_0000_0000_0000_0000_0000_0000_0000,
    }
}

/// The value of a signed integer of `size` bytes with the bit pattern
/// `data`.
pub fn sign_extend(size: u8, data: u128) -> (v: i128)
    ensures
        v == signed_value(size, data),
{
    if 1 <= size && size < 16 {
        let m: u128 = pow256_of(size);
        let low: u128 = data % m;
        if low >= m / 2 {
            return (low as i128) - (m as i128);
        }
    }
    if data >= 0x8000_0000_0000_0000_0000_0000_0000_0000u128 {
        let rest: u128 = data - 0x8000_0000_0000_0000_0000_0000_0000_0000u128;
        (rest as i128) + i128::MIN
    } else {
        data as i128
    }
}

/// The bytes `start..end` of an allocation that holds no pointers.
pub fn read_static_memory(bytes: &Vec<u8>, relocations: usize, start: usize, end: usize) -> (mem: Vec<u8>)
    requires
        relocations == 0,
        start <= end <= bytes.len(),
    ensures
        mem@ == bytes@.subrange(start as int, end as int),
{
    let mut mem: Vec<u8> = Vec::new();
    let mut i: usize = start;
    while i < end
        invariant
            start <= i <= end <= bytes.len(),
            mem@ == bytes@.subrange(start as int, i as int),
        decreases end - i,
    {
        mem.push(bytes[i]);
        assert(mem@ =~= bytes@.subrange(start as int, i + 1));
        i += 1;
    }
    mem
}

fn json_bytes(mem: &Vec<u8>) -> (j: serde_json::Value)
    ensures
        json_of(j) == Json::Arr(bytes_json(mem@)),
{
    let mut items: Vec<serde_json::Value> = Vec::new();
    let mut i: usize = 0;
    while i < mem.len()
        invariant
            i <= mem.len(),
            jsons_of(items@) == bytes_json(mem@.take(i as int)),
        decreases mem.len() - i,
    {
        let ghost before = jsons_of(items@);
        let n = json_number(mem[i] as u64);
        items.push(n);
        assert(jsons_of(items@) =~= before.push(json_of(n)));
        assert(bytes_json(mem@.take(i + 1)) =~= bytes_json(mem@.take(i as int)).push(Json::Num(mem@[i as int] as int)));
        i += 1;
    }
    assert(mem@.take(mem.len() as int) =~= mem@);
    json_array(items)
}

fn scalar_json(kind: &str, size: u8, val: String) -> (j: serde_json::Value)
    ensures
        json_of(j) == scalar_literal(kind@, size, val@),
{
    let mut m = fields_new();
    put(&mut m, "kind", json_str(kind));
    put(&mut m, "size", json_number(size as u64));
    put(&mut m, "val", json_string(val));
    json_object(m)
}

fn is_str_ref_ty(ty: &Ty) -> (b: bool)
    ensures
        b == is_str_ref(ty@),
{
    proof {
        reveal_with_fuel(ty_view, 2);
    }
    match ty {
        Ty::Ref(e, m) => {
            let inner: bool = match &**e {
                Ty::Str => true,
                _ => false,
            };
            inner && *m == Mutability::Not
        },
        _ => false,
    }
}

/// The literal that stands for an evaluated constant of the given type, if
/// it has one.
pub fn render_constant(mir: &mut MirState, ty: &Ty, v: &ConstValue) -> (r: Option<serde_json::Value>)
    requires
        value_readable(ty@, Some(v@)),
    ensures
        final(mir)@ == rendered(old(mir)@, ty@, v@).0,
        match r {
            Some(j) => rendered(old(mir)@, ty@, v@).1 == Some(json_of(j)),
            None => rendered(old(mir)@, ty@, v@).1 is None,
        },
        final(mir).tcx == old(mir).tcx,
        final(mir).tys == old(mir).tys,
{
    match ty {
        Ty::Int(i) => match v {
            ConstValue::Scalar { size, data, .. } => {
                let kind: &str = match i {
                    IntTy::Isize => "isize",
                    _ => "int",
                };
                Some(scalar_json(kind, *size, dec_i128(sign_extend(*size, *data))))
            },
            _ => None,
        },
        Ty::Bool => match v {
            ConstValue::Scalar { size, data, .. } => Some(scalar_json("bool", *size, dec_u128(*data))),
            _ => None,
        },
        Ty::Char => match v {
            ConstValue::Scalar { size, data, .. } => Some(scalar_json("char", *size, dec_u128(*data))),
            _ => None,
        },
        Ty::Uint(u) => match v {
            ConstValue::Scalar { size, data, .. } => {
                let kind: &str = match u {
                    UintTy::Usize => "usize",
                    _ => "uint",
                };
                Some(scalar_json(kind, *size, dec_u128(*data)))
            },
            _ => None,
        },
        Ty::Float(_) => match v {
            ConstValue::Scalar { size, float_text: Some(text), .. } => Some(
                scalar_json("float", *size, text.clone()),
            ),
            _ => None,
        },
        Ty::RawPtr(_, _) => match v {
            ConstValue::Scalar { data, .. } => {
                let mut m = fields_new();
                put(&mut m, "kind", json_str("raw_ptr"));
                put(&mut m, "val", json_string(dec_u128(*data)));
                Some(json_object(m))
            },
            _ => None,
        },
        Ty::FnDef(d, args) => {
            let mut m = fields_new();
            put(&mut m, "kind", json_str("fndef"));
            let name = get_fn_def_name(mir, d, args);
            put(&mut m, "def_id", json_string(name));
            put(&mut m, "substs", json_empty_array());
            Some(json_object(m))
        },
        _ => {
            if is_str_ref_ty(ty) {
                match v {
                    ConstValue::Slice { bytes, relocations, start, end } => {
                        let mem = read_static_memory(bytes, *relocations, *start, *end);
                        let mut m = fields_new();
                        put(&mut m, "kind", json_str("str"));
                        put(&mut m, "val", json_bytes(&mem));
                        Some(json_object(m))
                    },
                    _ => None,
                }
            } else {
                match v {
                    ConstValue::Scalar { size, .. } => {
                        if *size == 0 {
                            Some(json_kind("zst"))
                        } else {
                            None
                        }
                    },
                    _ => None,
                }
            }
        },
    }
}

/// The literal of a constant of the given type whose evaluation gave `v`.
pub fn render_value(mir: &mut MirState, ty: &Ty, v: &ConstValue) -> (r: Option<serde_json::Value>)
    requires
        value_readable(ty@, Some(v@)),
    ensures
        final(mir)@ == rendered_value(old(mir)@, ty@, Some(v@)).0,
        match r {
            Some(j) => rendered_value(old(mir)@, ty@, Some(v@)).1 == Some(json_of(j)),
            None => rendered_value(old(mir)@, ty@, Some(v@)).1 is None,
        },
        final(mir).tcx == old(mir).tcx,
        final(mir).tys == old(mir).tys,
{
    match v {
        ConstValue::Ptr { static_def } => match static_def {
            Some(d) => {
                let mut m = fields_new();
                put(&mut m, "kind", json_str("static_ref"));
                put(&mut m, "def_id", json_string(def_id_str(d)));
                Some(json_object(m))
            },
            None => None,
        },
        ConstValue::ByRef => None,
        _ => render_constant(mir, ty, v),
    }
}

/// What the host evaluated a constant to, if it did.
pub fn do_const_eval<'a>(
    tcx: &'a TyCtxt,
    def_id: &DefId,
    substs: &Vec<GenericArg>,
    promoted: Option<u32>,
) -> (r: Option<&'a ConstValue>)
    ensures
        match r {
            Some(v) => tcx@.const_eval(def_id@, args_view(substs@), promoted) == Some(v@),
            None => tcx@.const_eval(def_id@, args_view(substs@), promoted) is None,
        },
{
    tcx.const_eval(def_id, substs, promoted)
}

} // verus!
