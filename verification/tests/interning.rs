use mir_json::session::{MirState, TyCtxt};
use mir_json::types::{
    Abi, Const, ConstKind, ConstValue, DefId, FloatTy, FnSig, GenericArg, IntTy, Mutability, Ty, UintTy,
};
use serde_json::Value;

fn def(path: &str) -> DefId {
    DefId { krate: "k".to_string(), disambiguator: "0123456789".to_string(), path: path.to_string() }
}

fn json(text: &str) -> Value {
    serde_json::from_str(text).unwrap()
}

fn fresh() -> MirState {
    MirState::new(TyCtxt::new())
}

fn bodies(mir: &MirState) -> Vec<Value> {
    mir.tys.entries.iter().map(|e| e.body.clone()).collect()
}

#[test]
fn interning_a_type_twice_gives_the_same_id_and_one_entry() {
    let mut mir = fresh();
    let t = Ty::Ref(Box::new(Ty::Uint(UintTy::U8)), Mutability::Not);
    let first = t.to_json(&mut mir);
    let entries = mir.tys.entries.len();
    let second = t.to_json(&mut mir);
    assert_eq!(first, second);
    assert_eq!(first, json("1"));
    assert_eq!(entries, 2);
    assert_eq!(mir.tys.entries.len(), 2);
}

#[test]
fn structurally_equal_types_are_one_type() {
    let mut mir = fresh();
    let a = Ty::Tuple(vec![Ty::Bool, Ty::Char]);
    let b = Ty::Tuple(vec![Ty::Bool, Ty::Char]);
    let c = Ty::Tuple(vec![Ty::Char, Ty::Bool]);
    let ia = a.to_json(&mut mir);
    let ib = b.to_json(&mut mir);
    let ic = c.to_json(&mut mir);
    assert_eq!(ia, ib);
    assert_ne!(ia, ic);
    assert_eq!(mir.tys.entries.len(), 4);
}

#[test]
fn parts_are_interned_before_the_whole_in_order_of_discovery() {
    let mut mir = fresh();
    let t = Ty::Tuple(vec![Ty::Bool, Ty::Slice(Box::new(Ty::Char)), Ty::Bool]);
    assert_eq!(t.to_json(&mut mir), json("3"));
    assert_eq!(
        bodies(&mir),
        vec![
            json(r#"{"kind":"Bool"}"#),
            json(r#"{"kind":"Char"}"#),
            json(r#"{"kind":"Slice","ty":1}"#),
            json(r#"{"kind":"Tuple","tys":[0,2,0]}"#),
        ]
    );
    assert_eq!(mir.tys.get(&Ty::Char), Some(1));
    assert_eq!(mir.tys.get(&Ty::Never), None);
}

#[test]
fn ids_stay_when_more_types_are_lowered() {
    let mut mir = fresh();
    assert_eq!(Ty::Char.to_json(&mut mir), json("0"));
    assert_eq!(Ty::Bool.to_json(&mut mir), json("1"));
    assert_eq!(Ty::Slice(Box::new(Ty::Bool)).to_json(&mut mir), json("2"));
    assert_eq!(Ty::Char.to_json(&mut mir), json("0"));
    assert_eq!(Ty::Bool.to_json(&mut mir), json("1"));
}

#[test]
fn insert_of_a_type_that_is_interned_changes_nothing() {
    let mut mir = fresh();
    assert_eq!(mir.tys.insert(Ty::Bool, json("1")), 0);
    assert_eq!(mir.tys.insert(Ty::Char, json("2")), 1);
    assert_eq!(mir.tys.insert(Ty::Bool, json("3")), 0);
    assert_eq!(bodies(&mir), vec![json("1"), json("2")]);
}

#[test]
fn a_kind_without_a_lowered_form_is_marked() {
    let mut mir = fresh();
    let kinds = vec![
        (Ty::Infer, "Infer"),
        (Ty::Bound, "Bound"),
        (Ty::Placeholder, "Placeholder"),
        (Ty::Foreign, "Foreign"),
        (Ty::Generator, "Generator"),
        (Ty::GeneratorWitness, "GeneratorWitness"),
        (Ty::Opaque, "Opaque"),
        (Ty::Error, "Error"),
        (Ty::Never, "Never"),
        (Ty::Str, "Str"),
    ];
    for (i, (ty, name)) in kinds.iter().enumerate() {
        assert_eq!(ty.to_json(&mut mir), json(&i.to_string()));
        assert_eq!(mir.tys.entries[i].body, json(&format!(r#"{{"kind":"{}"}}"#, name)));
    }
    // one of them inside another type does not stop the lowering either
    let t = Ty::Ref(Box::new(Ty::Infer), Mutability::Mut);
    assert_eq!(t.to_json(&mut mir), json("10"));
    assert_eq!(mir.tys.entries[10].body, json(r#"{"kind":"Ref","ty":0,"mutability":{"kind":"Mut"}}"#));
}

#[test]
fn scalar_types() {
    let mut mir = fresh();
    Ty::Int(IntTy::I32).to_json(&mut mir);
    Ty::Uint(UintTy::Usize).to_json(&mut mir);
    Ty::Float(FloatTy::F64).to_json(&mut mir);
    Ty::Param(3).to_json(&mut mir);
    assert_eq!(
        bodies(&mir),
        vec![
            json(r#"{"kind":"Int","intkind":{"kind":"I32"}}"#),
            json(r#"{"kind":"Uint","uintkind":{"kind":"Usize"}}"#),
            json(r#"{"kind":"Float","size":{"kind":"F64"}}"#),
            json(r#"{"kind":"Param","param":3}"#),
        ]
    );
}

#[test]
fn pointers_and_projections() {
    let mut mir = fresh();
    Ty::RawPtr(Box::new(Ty::Bool), Mutability::Not).to_json(&mut mir);
    Ty::Projection(def("::Tr[0]::A[0]"), vec![GenericArg::Type(Ty::Bool), GenericArg::Lifetime]).to_json(&mut mir);
    Ty::UnnormalizedProjection(def("::Tr[0]::B[0]"), vec![]).to_json(&mut mir);
    assert_eq!(
        bodies(&mir),
        vec![
            json(r#"{"kind":"Bool"}"#),
            json(r#"{"kind":"RawPtr","ty":0,"mutability":{"kind":"Not"}}"#),
            json(r#"{"kind":"Projection","substs":[0,"nonty::Lifetime"],"defid":"k/01234567::Tr[0]::A[0]"}"#),
            json(r#"{"kind":"UnnormalizedProjection","substs":[],"defid":"k/01234567::Tr[0]::B[0]"}"#),
        ]
    );
}

#[test]
fn a_function_pointer_lowers_inputs_then_output() {
    let mut mir = fresh();
    let sig = FnSig {
        inputs: vec![Ty::Char, Ty::Bool],
        output: Ty::Char,
        c_variadic: false,
        is_unsafe: false,
        abi: Abi::Rust,
    };
    assert_eq!(Ty::FnPtr(Box::new(sig)).to_json(&mut mir), json("2"));
    assert_eq!(
        mir.tys.entries[2].body,
        json(r#"{"kind":"FnPtr","signature":{"inputs":[0,1],"output":0,"abi":{"kind":"Rust"}}}"#)
    );
}

#[test]
fn signatures_that_differ_only_in_safety_are_different_types() {
    let mut mir = fresh();
    let sig = |is_unsafe: bool| FnSig {
        inputs: vec![],
        output: Ty::Bool,
        c_variadic: false,
        is_unsafe,
        abi: Abi::C,
    };
    let a = Ty::FnPtr(Box::new(sig(false))).to_json(&mut mir);
    let b = Ty::FnPtr(Box::new(sig(true))).to_json(&mut mir);
    assert_ne!(a, b);
}

#[test]
fn a_closure_lowers_its_arguments_then_its_captures() {
    let mut mir = fresh();
    let t = Ty::Closure(def("::f[0]::{{closure}}[0]"), vec![GenericArg::Type(Ty::Char)], vec![Ty::Bool, Ty::Char]);
    assert_eq!(t.to_json(&mut mir), json("2"));
    assert_eq!(
        mir.tys.entries[2].body,
        json(
            r#"{"kind":"Closure","defid":"k/01234567::f[0]::{{closure}}[0]","closuresubsts":[0],"upvar_tys":[1,0]}"#
        )
    );
}

#[test]
fn an_array_lowers_its_element_and_then_its_length() {
    let mut mir = fresh();
    let len = Const {
        ty: Ty::Uint(UintTy::Usize),
        val: ConstKind::Value(ConstValue::Scalar { size: 8, data: 3, float_text: None }),
    };
    let t = Ty::Array(Box::new(Ty::Uint(UintTy::U8)), Box::new(len));
    assert_eq!(t.to_json(&mut mir), json("2"));
    assert_eq!(
        mir.tys.entries[2].body,
        json(
            r#"{"kind":"Array","ty":0,"size":{"kind":"Const","ty":1,"rendered":{"kind":"usize","size":8,"val":"3"}}}"#
        )
    );
}

#[test]
fn constants_among_arguments_are_markers_but_tell_types_apart() {
    let mut mir = fresh();
    let c = |n: u128| {
        GenericArg::Const(Const {
            ty: Ty::Uint(UintTy::Usize),
            val: ConstKind::Value(ConstValue::Scalar { size: 8, data: n, float_text: None }),
        })
    };
    let a = Ty::Projection(def("::P[0]"), vec![c(3)]);
    let b = Ty::Projection(def("::P[0]"), vec![c(4)]);
    let ia = a.to_json(&mut mir);
    let ib = b.to_json(&mut mir);
    assert_ne!(ia, ib);
    assert_eq!(mir.tys.entries[0].body, mir.tys.entries[1].body);
    assert_eq!(
        mir.tys.entries[0].body,
        json(r#"{"kind":"Projection","substs":["nonty::Const"],"defid":"k/01234567::P[0]"}"#)
    );
}
