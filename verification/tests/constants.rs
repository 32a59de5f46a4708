use mir_json::constant::{do_const_eval, render_constant, render_value};
use mir_json::resolve::{get_fn_def_name, get_promoted_name};
use mir_json::readable::{const_is_readable, ty_is_readable, value_is_readable};
use mir_json::session::{ConstEval, Diagnostic, MirState, Resolution, TyCtxt};
use mir_json::types::{
    Const, ConstKind, ConstValue, DefId, FloatTy, GenericArg, Instance, InstanceDef, IntTy, Mutability, Ty,
    UintTy,
};
use serde_json::Value;

fn def(path: &str) -> DefId {
    DefId { krate: "k".to_string(), disambiguator: "0123456789".to_string(), path: path.to_string() }
}

fn json(text: &str) -> Value {
    serde_json::from_str(text).unwrap()
}

fn fresh() -> MirState {
    MirState::new(TyCtxt::new())
}

fn scalar(size: u8, data: u128) -> ConstValue {
    ConstValue::Scalar { size, data, float_text: None }
}

fn str_ref() -> Ty {
    Ty::Ref(Box::new(Ty::Str), Mutability::Not)
}

#[test]
fn a_signed_byte_of_all_ones_is_minus_one() {
    let mut mir = fresh();
    let r = render_constant(&mut mir, &Ty::Int(IntTy::I8), &scalar(1, 0xff));
    assert_eq!(r, Some(json(r#"{"kind":"int","size":1,"val":"-1"}"#)));
}

#[test]
fn an_unsigned_byte_of_all_ones_is_255() {
    let mut mir = fresh();
    let r = render_constant(&mut mir, &Ty::Uint(UintTy::U8), &scalar(1, 0xff));
    assert_eq!(r, Some(json(r#"{"kind":"uint","size":1,"val":"255"}"#)));
}

#[test]
fn integer_kinds_of_pointer_width_have_their_own_name() {
    let mut mir = fresh();
    assert_eq!(
        render_constant(&mut mir, &Ty::Int(IntTy::Isize), &scalar(8, u64::MAX as u128 - 1)),
        Some(json(r#"{"kind":"isize","size":8,"val":"-2"}"#))
    );
    assert_eq!(
        render_constant(&mut mir, &Ty::Uint(UintTy::Usize), &scalar(8, 77)),
        Some(json(r#"{"kind":"usize","size":8,"val":"77"}"#))
    );
    assert_eq!(
        render_constant(&mut mir, &Ty::Int(IntTy::I128), &scalar(16, u128::MAX)),
        Some(json(r#"{"kind":"int","size":16,"val":"-1"}"#))
    );
    assert_eq!(
        render_constant(&mut mir, &Ty::Int(IntTy::I32), &scalar(4, 5)),
        Some(json(r#"{"kind":"int","size":4,"val":"5"}"#))
    );
}

#[test]
fn booleans_and_characters_are_their_raw_bits() {
    let mut mir = fresh();
    assert_eq!(
        render_constant(&mut mir, &Ty::Bool, &scalar(1, 1)),
        Some(json(r#"{"kind":"bool","size":1,"val":"1"}"#))
    );
    assert_eq!(
        render_constant(&mut mir, &Ty::Char, &scalar(4, 0x1f600)),
        Some(json(r#"{"kind":"char","size":4,"val":"128512"}"#))
    );
}

#[test]
fn a_float_is_rendered_with_the_text_of_its_value() {
    let mut mir = fresh();
    let v = ConstValue::Scalar { size: 4, data: 0x40490FDB, float_text: Some("3.1415927".to_string()) };
    assert_eq!(
        render_constant(&mut mir, &Ty::Float(FloatTy::F32), &v),
        Some(json(r#"{"kind":"float","size":4,"val":"3.1415927"}"#))
    );
    // without the text there is no literal
    assert_eq!(render_constant(&mut mir, &Ty::Float(FloatTy::F32), &scalar(4, 0x40490FDB)), None);
}

#[test]
fn a_string_literal_is_the_bytes_of_its_range() {
    let mut mir = fresh();
    let v = ConstValue::Slice { bytes: b"hello world".to_vec(), relocations: 0, start: 6, end: 11 };
    assert!(value_is_readable(&str_ref(), &v));
    assert_eq!(
        render_constant(&mut mir, &str_ref(), &v),
        Some(json(r#"{"kind":"str","val":[119,111,114,108,100]}"#))
    );
    let empty = ConstValue::Slice { bytes: Vec::new(), relocations: 0, start: 0, end: 0 };
    assert_eq!(render_constant(&mut mir, &str_ref(), &empty), Some(json(r#"{"kind":"str","val":[]}"#)));
}

#[test]
fn a_string_literal_with_pointers_or_out_of_range_cannot_be_read() {
    let with_pointers = ConstValue::Slice { bytes: vec![1, 2, 3], relocations: 1, start: 0, end: 3 };
    let past_the_end = ConstValue::Slice { bytes: vec![1, 2, 3], relocations: 0, start: 1, end: 4 };
    let backwards = ConstValue::Slice { bytes: vec![1, 2, 3], relocations: 0, start: 2, end: 1 };
    assert!(!value_is_readable(&str_ref(), &with_pointers));
    assert!(!value_is_readable(&str_ref(), &past_the_end));
    assert!(!value_is_readable(&str_ref(), &backwards));
    // only a string literal is read
    assert!(value_is_readable(&Ty::Bool, &with_pointers));
    assert!(value_is_readable(&Ty::Ref(Box::new(Ty::Str), Mutability::Mut), &with_pointers));
    let tcx = TyCtxt::new();
    let c = Const { ty: str_ref(), val: ConstKind::Value(with_pointers) };
    assert!(!const_is_readable(&tcx, &c));
    let array = Ty::Array(Box::new(Ty::Bool), Box::new(c));
    assert!(!ty_is_readable(&tcx, &array));
    assert!(!ty_is_readable(&tcx, &Ty::Tuple(vec![Ty::Bool, array])));
    assert!(ty_is_readable(&tcx, &Ty::Tuple(vec![Ty::Bool, str_ref()])));
}

#[test]
fn a_slice_of_another_type_has_no_literal() {
    let mut mir = fresh();
    let v = ConstValue::Slice { bytes: vec![1, 2, 3], relocations: 2, start: 0, end: 3 };
    assert_eq!(render_constant(&mut mir, &Ty::Slice(Box::new(Ty::Bool)), &v), None);
    assert_eq!(render_constant(&mut mir, &Ty::Int(IntTy::I8), &v), None);
    assert_eq!(render_constant(&mut mir, &str_ref(), &scalar(8, 1)), None);
}

#[test]
fn a_raw_pointer_is_its_bit_pattern() {
    let mut mir = fresh();
    assert_eq!(
        render_constant(&mut mir, &Ty::RawPtr(Box::new(Ty::Bool), Mutability::Mut), &scalar(8, 4096)),
        Some(json(r#"{"kind":"raw_ptr","val":"4096"}"#))
    );
}

#[test]
fn a_value_without_size_of_any_other_type_is_zero_sized() {
    let mut mir = fresh();
    assert_eq!(render_constant(&mut mir, &Ty::Tuple(vec![]), &scalar(0, 0)), Some(json(r#"{"kind":"zst"}"#)));
    assert_eq!(render_constant(&mut mir, &Ty::Tuple(vec![]), &scalar(1, 0)), None);
    assert_eq!(render_constant(&mut mir, &Ty::Never, &ConstValue::ByRef), None);
}

#[test]
fn a_function_item_is_named_and_recorded() {
    let f = def("::f[0]");
    let inst = Instance { def: InstanceDef::Item(f.clone()), substs: Vec::new() };
    let mut tcx = TyCtxt::new();
    tcx.resolutions.push(Resolution { def_id: f.clone(), substs: Vec::new(), instance: inst });
    let mut mir = MirState::new(tcx);
    let r = render_constant(&mut mir, &Ty::FnDef(f.clone(), Vec::new()), &scalar(0, 0));
    assert_eq!(r, Some(json(r#"{"kind":"fndef","def_id":"k/01234567::f[0]","substs":[]}"#)));
    assert_eq!(mir.used.instances.len(), 1);
}

#[test]
fn a_pointer_to_a_static_is_a_reference_to_it() {
    let mut mir = fresh();
    let v = ConstValue::Ptr { static_def: Some(def("::S[0]")) };
    assert_eq!(
        render_value(&mut mir, &Ty::Ref(Box::new(Ty::Bool), Mutability::Not), &v),
        Some(json(r#"{"kind":"static_ref","def_id":"k/01234567::S[0]"}"#))
    );
    let other = ConstValue::Ptr { static_def: None };
    assert_eq!(render_value(&mut mir, &Ty::Ref(Box::new(Ty::Bool), Mutability::Not), &other), None);
    assert_eq!(render_value(&mut mir, &Ty::Bool, &ConstValue::ByRef), None);
    assert_eq!(
        render_value(&mut mir, &Ty::Bool, &scalar(1, 0)),
        Some(json(r#"{"kind":"bool","size":1,"val":"0"}"#))
    );
}

#[test]
fn a_constant_with_a_value() {
    let mut mir = fresh();
    let c = Const { ty: Ty::Int(IntTy::I16), val: ConstKind::Value(scalar(2, 0xfffe)) };
    assert_eq!(
        c.to_json(&mut mir),
        json(r#"{"kind":"Const","ty":0,"rendered":{"kind":"int","size":2,"val":"-2"}}"#)
    );
    let d = Const { ty: Ty::Tuple(vec![Ty::Bool]), val: ConstKind::Value(ConstValue::ByRef) };
    assert_eq!(d.to_json(&mut mir), json(r#"{"kind":"Const","ty":2}"#));
}

#[test]
fn an_unevaluated_constant_names_its_source() {
    let c = def("::C[0]");
    let inst = Instance { def: InstanceDef::Item(c.clone()), substs: Vec::new() };
    let mut tcx = TyCtxt::new();
    tcx.resolutions.push(Resolution { def_id: c.clone(), substs: Vec::new(), instance: inst });
    tcx.const_evals.push(ConstEval { def_id: c.clone(), substs: Vec::new(), promoted: Some(2), value: scalar(4, 7) });
    let mut mir = MirState::new(tcx);
    let k = Const { ty: Ty::Uint(UintTy::U32), val: ConstKind::Unevaluated(c.clone(), Vec::new(), Some(2)) };
    assert_eq!(
        k.to_json(&mut mir),
        json(
            r#"{"kind":"Const","ty":0,
                "initializer":{"def_id":"k/01234567::C[0]::{{promoted}}[2]","substs":[]},
                "rendered":{"kind":"uint","size":4,"val":"7"}}"#
        )
    );
    assert_eq!(mir.used.instances.len(), 1);
    // the same constant without an answer of the host has no literal
    let unknown = Const { ty: Ty::Uint(UintTy::U32), val: ConstKind::Unevaluated(c.clone(), Vec::new(), None) };
    assert_eq!(
        unknown.to_json(&mut mir),
        json(r#"{"kind":"Const","ty":0,"initializer":{"def_id":"k/01234567::C[0]","substs":[]}}"#)
    );
}

#[test]
fn the_host_answers_by_definition_arguments_and_index() {
    let c = def("::C[0]");
    let mut tcx = TyCtxt::new();
    tcx.const_evals.push(ConstEval { def_id: c.clone(), substs: Vec::new(), promoted: None, value: scalar(1, 1) });
    tcx.const_evals.push(ConstEval { def_id: c.clone(), substs: Vec::new(), promoted: Some(0), value: scalar(1, 2) });
    tcx.const_evals.push(ConstEval { def_id: c.clone(), substs: Vec::new(), promoted: None, value: scalar(1, 3) });
    assert!(matches!(do_const_eval(&tcx, &c, &Vec::new(), None), Some(ConstValue::Scalar { data: 1, .. })));
    assert!(matches!(do_const_eval(&tcx, &c, &Vec::new(), Some(0)), Some(ConstValue::Scalar { data: 2, .. })));
    assert!(do_const_eval(&tcx, &c, &Vec::new(), Some(1)).is_none());
    assert!(do_const_eval(&tcx, &c, &vec![GenericArg::Lifetime], None).is_none());
    assert!(do_const_eval(&tcx, &def("::D[0]"), &Vec::new(), None).is_none());
}

#[test]
fn a_target_that_cannot_be_resolved_goes_by_its_bare_name() {
    let mut mir = fresh();
    let f = def("::g[0]");
    let substs = vec![GenericArg::Type(Ty::Bool)];
    assert_eq!(get_fn_def_name(&mut mir, &f, &substs), "k/01234567::g[0]");
    assert_eq!(mir.used.instances.len(), 0);
    assert_eq!(mir.used.traits.len(), 0);
    assert_eq!(mir.used.types.len(), 0);
    assert_eq!(mir.tys.entries.len(), 0);
    assert_eq!(mir.diagnostics.len(), 1);
    assert!(matches!(&mir.diagnostics[0], Diagnostic::UnresolvedFn(d, s) if d.path == "::g[0]" && s.len() == 1));
    assert_eq!(get_promoted_name(&mut mir, &f, &substs, Some(10)), "k/01234567::g[0]::{{promoted}}[10]");
    assert_eq!(mir.diagnostics.len(), 2);
}

#[test]
fn a_function_reached_twice_has_one_name_and_one_record() {
    let f = def("::f[0]");
    let inst = Instance { def: InstanceDef::Item(f.clone()), substs: Vec::new() };
    let mut tcx = TyCtxt::new();
    tcx.resolutions.push(Resolution { def_id: f.clone(), substs: Vec::new(), instance: inst });
    let mut mir = MirState::new(tcx);
    // once as the target of a direct call
    let direct = get_fn_def_name(&mut mir, &f, &Vec::new());
    // once as the function item behind a function pointer
    let item = Ty::FnDef(f.clone(), Vec::new());
    let id = item.to_json(&mut mir);
    let through_type = mir.tys.entries[0].body["defid"].clone();
    assert_eq!(id, json("0"));
    assert_eq!(direct, "k/01234567::f[0]");
    assert_eq!(through_type, Value::String(direct.clone()));
    assert_eq!(mir.tys.entries[0].body, json(r#"{"kind":"FnDef","defid":"k/01234567::f[0]","substs":[]}"#));
    assert_eq!(mir.used.instances.len(), 1);
    assert_eq!(get_fn_def_name(&mut mir, &f, &Vec::new()), direct);
    assert_eq!(mir.used.instances.len(), 1);
    assert_eq!(mir.diagnostics.len(), 0);
}
