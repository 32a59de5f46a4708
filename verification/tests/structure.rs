use mir_json::copy::{copy_args, copy_ty};
use mir_json::encode::{put_args, put_leb, put_text, put_ty, StableEncode};
use mir_json::same::{same_adt_inst, same_args, same_def, same_instance, same_trait_inst, same_ty};
use mir_json::session::{MirState, Resolution, TyCtxt, Used};
use mir_json::subst::subst;
use mir_json::ty_lower::{args_to_json, preds_to_json, tys_to_json};
use mir_json::types::{
    Abi, AdtInst, Const, ConstKind, ConstValue, DefId, ExistentialPredicate, ExistentialProjection,
    ExistentialTraitRef, FnSig, GenericArg, Instance, InstanceDef, IntTy, Mutability, TraitInst, Ty, UintTy,
};
use serde_json::Value;

fn def(path: &str) -> DefId {
    DefId { krate: "k".to_string(), disambiguator: "0123456789".to_string(), path: path.to_string() }
}

fn json(text: &str) -> Value {
    serde_json::from_str(text).unwrap()
}

fn big() -> Ty {
    let len = Const {
        ty: Ty::Uint(UintTy::Usize),
        val: ConstKind::Unevaluated(def("::N[0]"), vec![GenericArg::Lifetime], Some(1)),
    };
    Ty::Tuple(vec![
        Ty::Array(Box::new(Ty::Int(IntTy::I8)), Box::new(len)),
        Ty::FnPtr(Box::new(FnSig {
            inputs: vec![Ty::Param(0)],
            output: Ty::Never,
            c_variadic: true,
            is_unsafe: false,
            abi: Abi::C,
        })),
        Ty::Dynamic(vec![
            ExistentialPredicate::Trait(ExistentialTraitRef { def_id: def("::Tr[0]"), substs: vec![] }),
            ExistentialPredicate::Projection(ExistentialProjection {
                item_def_id: def("::Tr[0]::A[0]"),
                substs: vec![],
                ty: Ty::Param(1),
            }),
            ExistentialPredicate::AutoTrait(def("::Sync[0]")),
        ]),
        Ty::Closure(def("::c[0]"), vec![GenericArg::Type(Ty::Param(1))], vec![Ty::Str]),
        Ty::Adt(def("::S[0]"), vec![GenericArg::Const(Const {
            ty: Ty::Bool,
            val: ConstKind::Value(ConstValue::Slice { bytes: vec![1, 2], relocations: 0, start: 0, end: 2 }),
        })]),
    ])
}

#[test]
fn a_copy_is_the_same_item() {
    let t = big();
    let c = copy_ty(&t);
    assert!(same_ty(&t, &c));
    assert!(same_ty(&c, &t.clone()));
    let args = vec![GenericArg::Type(big()), GenericArg::Lifetime];
    assert!(same_args(&args, &copy_args(&args)));
    let d = def("::x[0]");
    assert!(same_def(&d, &d.clone()));
}

#[test]
fn items_that_differ_anywhere_are_not_the_same() {
    assert!(!same_ty(&Ty::Bool, &Ty::Char));
    assert!(!same_ty(&Ty::Int(IntTy::I8), &Ty::Int(IntTy::I16)));
    assert!(!same_ty(&Ty::Int(IntTy::I8), &Ty::Uint(UintTy::U8)));
    assert!(!same_ty(&Ty::Tuple(vec![Ty::Bool]), &Ty::Tuple(vec![Ty::Bool, Ty::Bool])));
    assert!(!same_ty(
        &Ty::Ref(Box::new(Ty::Bool), Mutability::Mut),
        &Ty::Ref(Box::new(Ty::Bool), Mutability::Not)
    ));
    assert!(!same_ty(
        &Ty::Ref(Box::new(Ty::Bool), Mutability::Mut),
        &Ty::RawPtr(Box::new(Ty::Bool), Mutability::Mut)
    ));
    assert!(!same_ty(&Ty::Adt(def("::S[0]"), vec![]), &Ty::Adt(def("::T[0]"), vec![])));
    assert!(!same_def(&def("::S[0]"), &DefId { krate: "j".to_string(), ..def("::S[0]") }));
    assert!(!same_def(&def("::S[0]"), &DefId { disambiguator: "x".to_string(), ..def("::S[0]") }));
    let mut other = big();
    if let Ty::Tuple(parts) = &mut other {
        parts[3] = Ty::Closure(def("::c[0]"), vec![GenericArg::Type(Ty::Param(1))], vec![Ty::Char]);
    }
    assert!(!same_ty(&big(), &other));
    assert!(!same_args(&vec![GenericArg::Lifetime], &vec![GenericArg::Type(Ty::Bool)]));
}

#[test]
fn instances_traits_and_instantiations_compare_by_structure() {
    let a = Instance { def: InstanceDef::Item(def("::f[0]")), substs: vec![GenericArg::Type(Ty::Bool)] };
    let b = Instance { def: InstanceDef::Intrinsic(def("::f[0]")), substs: vec![GenericArg::Type(Ty::Bool)] };
    let c = Instance { def: InstanceDef::Item(def("::f[0]")), substs: vec![] };
    assert!(same_instance(&a, &a.clone()));
    assert!(!same_instance(&a, &b));
    assert!(!same_instance(&a, &c));
    let none = TraitInst { trait_ref: None, projs: vec![] };
    let some = TraitInst {
        trait_ref: Some(ExistentialTraitRef { def_id: def("::Tr[0]"), substs: vec![] }),
        projs: vec![],
    };
    assert!(same_trait_inst(&none, &none.clone()));
    assert!(same_trait_inst(&some, &some.clone()));
    assert!(!same_trait_inst(&none, &some));
    let x = AdtInst { adt: def("::S[0]"), substs: vec![GenericArg::Type(Ty::Bool)] };
    let y = AdtInst { adt: def("::S[0]"), substs: vec![GenericArg::Type(Ty::Char)] };
    assert!(same_adt_inst(&x, &x.clone()));
    assert!(!same_adt_inst(&x, &y));
}

#[test]
fn the_sets_of_what_is_used_hold_each_member_once() {
    let mut used = Used::new();
    let a = Instance { def: InstanceDef::Item(def("::f[0]")), substs: vec![] };
    let b = Instance { def: InstanceDef::Item(def("::g[0]")), substs: vec![] };
    used.insert_instance(a.clone());
    used.insert_instance(b.clone());
    used.insert_instance(a.clone());
    used.insert_instance(b.clone());
    assert_eq!(used.instances.len(), 2);
    assert!(same_instance(&used.instances[0], &a));
    assert!(same_instance(&used.instances[1], &b));
    let x = AdtInst { adt: def("::S[0]"), substs: vec![] };
    used.insert_type(x.clone());
    used.insert_type(x.clone());
    assert_eq!(used.types.len(), 1);
    let none = TraitInst { trait_ref: None, projs: vec![] };
    used.insert_trait(none.clone());
    used.insert_trait(none);
    assert_eq!(used.traits.len(), 1);
    assert_eq!(used.instances.len(), 2);
}

#[test]
fn the_first_answer_of_the_host_counts() {
    let f = def("::f[0]");
    let first = Instance { def: InstanceDef::Item(f.clone()), substs: vec![] };
    let second = Instance { def: InstanceDef::ReifyShim(f.clone()), substs: vec![] };
    let mut tcx = TyCtxt::new();
    tcx.resolutions.push(Resolution { def_id: f.clone(), substs: vec![GenericArg::Lifetime], instance: second.clone() });
    tcx.resolutions.push(Resolution { def_id: f.clone(), substs: vec![], instance: first.clone() });
    tcx.resolutions.push(Resolution { def_id: f.clone(), substs: vec![], instance: second.clone() });
    assert!(same_instance(tcx.resolve(&f, &vec![]).unwrap(), &first));
    assert!(same_instance(tcx.resolve(&f, &vec![GenericArg::Lifetime]).unwrap(), &second));
    assert!(tcx.resolve(&def("::g[0]"), &vec![]).is_none());
    assert!(tcx.resolve(&f, &vec![GenericArg::Type(Ty::Bool)]).is_none());
}

#[test]
fn type_arguments_take_the_place_of_parameters() {
    let substs = vec![GenericArg::Type(Ty::Bool), GenericArg::Lifetime, GenericArg::Type(Ty::Char)];
    assert!(same_ty(&subst(&Ty::Param(0), &substs), &Ty::Bool));
    assert!(same_ty(&subst(&Ty::Param(2), &substs), &Ty::Char));
    // an index that names no type stays a parameter
    assert!(same_ty(&subst(&Ty::Param(1), &substs), &Ty::Param(1)));
    assert!(same_ty(&subst(&Ty::Param(3), &substs), &Ty::Param(3)));
    assert!(same_ty(&subst(&Ty::Str, &substs), &Ty::Str));
    let generic = Ty::Tuple(vec![
        Ty::Ref(Box::new(Ty::Param(2)), Mutability::Mut),
        Ty::Adt(def("::S[0]"), vec![GenericArg::Type(Ty::Param(0)), GenericArg::Lifetime]),
        Ty::FnPtr(Box::new(FnSig {
            inputs: vec![Ty::Param(0)],
            output: Ty::Param(2),
            c_variadic: false,
            is_unsafe: true,
            abi: Abi::Rust,
        })),
    ]);
    let expected = Ty::Tuple(vec![
        Ty::Ref(Box::new(Ty::Char), Mutability::Mut),
        Ty::Adt(def("::S[0]"), vec![GenericArg::Type(Ty::Bool), GenericArg::Lifetime]),
        Ty::FnPtr(Box::new(FnSig {
            inputs: vec![Ty::Bool],
            output: Ty::Char,
            c_variadic: false,
            is_unsafe: true,
            abi: Abi::Rust,
        })),
    ]);
    assert!(same_ty(&subst(&generic, &substs), &expected));
    assert!(same_ty(&subst(&big(), &vec![]), &big()));
}

#[test]
fn the_byte_form_is_the_same_for_the_same_item_only() {
    let mut a = Vec::new();
    let mut b = Vec::new();
    let mut c = Vec::new();
    put_ty(&mut a, &big());
    put_ty(&mut b, &copy_ty(&big()));
    put_ty(&mut c, &Ty::Tuple(vec![]));
    assert_eq!(a, b);
    assert_ne!(a, c);
    assert_eq!(c, vec![19, 0]);
    let mut again = vec![7u8];
    big().encode(&mut again);
    assert_eq!(again[0], 7);
    assert_eq!(&again[1..], &a[..]);
}

#[test]
fn numbers_and_texts_in_the_byte_form() {
    let mut out = Vec::new();
    put_leb(&mut out, 0);
    put_leb(&mut out, 127);
    put_leb(&mut out, 128);
    put_leb(&mut out, 300);
    assert_eq!(out, vec![0, 127, 0x80, 1, 0x80 + 44, 2]);
    let mut big = Vec::new();
    put_leb(&mut big, u128::MAX);
    assert_eq!(big.len(), 19);
    assert!(big[..18].iter().all(|b| *b == 0xff));
    assert_eq!(big[18], 3);
    let mut text = Vec::new();
    put_text(&mut text, "h\u{e9}");
    assert_eq!(text, vec![3, b'h', 0xc3, 0xa9]);
}

#[test]
fn lists_that_differ_in_how_they_are_cut_have_different_byte_forms() {
    let one = |args: Vec<GenericArg>| {
        let mut out = Vec::new();
        put_args(&mut out, &args);
        out
    };
    let nested = one(vec![GenericArg::Type(Ty::Tuple(vec![Ty::Bool, Ty::Char]))]);
    let flat = one(vec![GenericArg::Type(Ty::Tuple(vec![Ty::Bool])), GenericArg::Type(Ty::Char)]);
    assert_ne!(nested, flat);
    assert_ne!(one(vec![]), one(vec![GenericArg::Lifetime]));
    let text = |a: &str, b: &str| {
        let mut out = Vec::new();
        put_text(&mut out, a);
        put_text(&mut out, b);
        out
    };
    assert_ne!(text("ab", "c"), text("a", "bc"));
}

#[test]
fn lists_are_lowered_in_order() {
    let mut mir = MirState::new(TyCtxt::new());
    let tys = tys_to_json(&vec![Ty::Char, Ty::Bool, Ty::Char], &mut mir);
    assert_eq!(tys, vec![json("0"), json("1"), json("0")]);
    let args = args_to_json(
        &vec![GenericArg::Lifetime, GenericArg::Type(Ty::Bool), GenericArg::Type(Ty::Never)],
        &mut mir,
    );
    assert_eq!(args, vec![json(r#""nonty::Lifetime""#), json("1"), json("2")]);
    let preds = preds_to_json(
        &vec![
            ExistentialPredicate::Trait(ExistentialTraitRef {
                def_id: def("::Tr[0]"),
                substs: vec![GenericArg::Type(Ty::Bool)],
            }),
            ExistentialPredicate::Projection(ExistentialProjection {
                item_def_id: def("::Tr[0]::A[0]"),
                substs: vec![],
                ty: Ty::Str,
            }),
            ExistentialPredicate::AutoTrait(def("::Send[0]")),
        ],
        &mut mir,
    );
    assert_eq!(
        preds,
        vec![
            json(r#"{"kind":"Trait","trait":"k/01234567::Tr[0]","substs":[1]}"#),
            json(r#"{"kind":"Projection","proj":"k/01234567::Tr[0]::A[0]","substs":[],"rhs_ty":3}"#),
            json(r#"{"kind":"AutoTrait","trait":"k/01234567::Send[0]"}"#),
        ]
    );
}

#[test]
fn a_trait_object_records_its_trait() {
    let mut mir = MirState::new(TyCtxt::new());
    let preds = vec![
        ExistentialPredicate::Trait(ExistentialTraitRef { def_id: def("::Tr[0]"), substs: vec![] }),
        ExistentialPredicate::AutoTrait(def("::Send[0]")),
        ExistentialPredicate::Projection(ExistentialProjection {
            item_def_id: def("::Tr[0]::A[0]"),
            substs: vec![],
            ty: Ty::Bool,
        }),
    ];
    let ti = TraitInst::from_dynamic_predicates(&preds);
    assert_eq!(ti.trait_ref.as_ref().map(|t| t.def_id.path.clone()), Some("::Tr[0]".to_string()));
    assert_eq!(ti.projs.len(), 1);
    let name = mir_json::names::trait_inst_id_str(&ti);
    let t = Ty::Dynamic(preds);
    assert_eq!(t.to_json(&mut mir), json("1"));
    assert_eq!(mir.tys.entries[1].body["trait_id"], Value::String(name));
    assert_eq!(mir.tys.entries[1].body["kind"], json(r#""Dynamic""#));
    assert_eq!(mir.tys.entries[1].body["predicates"].as_array().unwrap().len(), 3);
    assert_eq!(mir.used.traits.len(), 1);
    assert!(same_trait_inst(&mir.used.traits[0], &ti));
    // an object without a principal trait
    let auto_only = Ty::Dynamic(vec![ExistentialPredicate::AutoTrait(def("::Send[0]"))]);
    auto_only.to_json(&mut mir);
    assert_eq!(mir.tys.entries[2].body["trait_id"], json(r#""trait/0::empty[0]""#));
    assert_eq!(mir.used.traits.len(), 2);
}

#[test]
fn a_data_type_in_a_type_is_recorded_by_its_instantiation() {
    let mut mir = MirState::new(TyCtxt::new());
    let a = Ty::Adt(def("::S[0]"), vec![GenericArg::Type(Ty::Bool)]);
    let b = Ty::Adt(def("::S[0]"), vec![GenericArg::Type(Ty::Char)]);
    a.to_json(&mut mir);
    b.to_json(&mut mir);
    a.to_json(&mut mir);
    assert_eq!(mir.used.types.len(), 2);
    let name = mir_json::names::adt_inst_id_str(&mir.used.types[0]);
    assert_eq!(
        mir.tys.entries[1].body,
        json(&format!(r#"{{"kind":"Adt","name":"{}","orig_def_id":"k/01234567::S[0]","substs":[0]}}"#, name))
    );
}
