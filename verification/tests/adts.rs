use mir_json::adt::{
    aggregate_is_lowerable, handle_adt_ag, is_adt_ak, AdtDef, AdtKind, AggregateKind, CtorKind, FieldDef, ToJsonAg, VariantDef,
    VariantDiscr,
};
use mir_json::names::adt_inst_id_str;
use mir_json::session::{MirState, Resolution, TyCtxt};
use mir_json::types::{
    AdtInst, Const, ConstKind, ConstValue, DefId, GenericArg, Instance, InstanceDef, Mutability, Ty,
};
use serde_json::Value;

fn def(path: &str) -> DefId {
    DefId { krate: "k".to_string(), disambiguator: "0123456789".to_string(), path: path.to_string() }
}

fn json(text: &str) -> Value {
    serde_json::from_str(text).unwrap()
}

fn option_def() -> AdtDef {
    AdtDef {
        did: def("::Option[0]"),
        kind: AdtKind::Enum,
        variants: vec![
            VariantDef {
                def_id: def("::Option[0]::None[0]"),
                discr: VariantDiscr::Relative(0),
                fields: vec![],
                ctor_kind: CtorKind::Const,
            },
            VariantDef {
                def_id: def("::Option[0]::Some[0]"),
                discr: VariantDiscr::Relative(1),
                fields: vec![FieldDef { did: def("::Option[0]::Some[0]::0[0]"), ty: Ty::Param(0) }],
                ctor_kind: CtorKind::Fn,
            },
        ],
    }
}

#[test]
fn a_field_has_its_type_at_the_instantiation() {
    let mut mir = MirState::new(TyCtxt::new());
    let field = FieldDef {
        did: def("::S[0]::f[0]"),
        ty: Ty::Tuple(vec![Ty::Param(1), Ty::Ref(Box::new(Ty::Param(0)), Mutability::Not), Ty::Param(2)]),
    };
    let substs = vec![GenericArg::Type(Ty::Bool), GenericArg::Type(Ty::Char), GenericArg::Lifetime];
    assert!(field.is_lowerable(&mir.tcx, &substs));
    let j = field.tojson(&mut mir, &substs);
    assert_eq!(j, json(r#"{"name":"k/01234567::S[0]::f[0]","ty":4,"substs":[]}"#));
    let bodies: Vec<Value> = mir.tys.entries.iter().map(|e| e.body.clone()).collect();
    assert_eq!(
        bodies,
        vec![
            json(r#"{"kind":"Char"}"#),
            json(r#"{"kind":"Bool"}"#),
            json(r#"{"kind":"Ref","ty":1,"mutability":{"kind":"Not"}}"#),
            json(r#"{"kind":"Param","param":2}"#),
            json(r#"{"kind":"Tuple","tys":[0,2,3]}"#),
        ]
    );
}

#[test]
fn an_enum_at_an_instantiation() {
    let mut mir = MirState::new(TyCtxt::new());
    let adt = option_def();
    let ai = AdtInst { adt: def("::Option[0]"), substs: vec![GenericArg::Type(Ty::Char)] };
    assert!(ai.is_lowerable(&mir.tcx, &adt));
    let name = adt_inst_id_str(&ai);
    let j = ai.to_json(&mut mir, &adt);
    assert_eq!(
        j,
        json(&format!(
            r#"{{"name":"{}","kind":"Enum",
                "variants":[
                  {{"name":"k/01234567::Option[0]::None[0]","discr":{{"kind":"Relative","index":0}},
                    "fields":[],"ctor_kind":{{"kind":"Const"}}}},
                  {{"name":"k/01234567::Option[0]::Some[0]","discr":{{"kind":"Relative","index":1}},
                    "fields":[{{"name":"k/01234567::Option[0]::Some[0]::0[0]","ty":0,"substs":[]}}],
                    "ctor_kind":{{"kind":"Fn"}}}}],
                "orig_def_id":"k/01234567::Option[0]","orig_substs":[0]}}"#,
            name
        ))
    );
    assert_eq!(mir.tys.entries.len(), 1);
}

#[test]
fn two_instantiations_of_one_definition() {
    let mut mir = MirState::new(TyCtxt::new());
    let adt = option_def();
    let a = AdtInst { adt: def("::Option[0]"), substs: vec![GenericArg::Type(Ty::Char)] };
    let b = AdtInst { adt: def("::Option[0]"), substs: vec![GenericArg::Type(Ty::Bool)] };
    let ja = a.to_json(&mut mir, &adt);
    let jb = b.to_json(&mut mir, &adt);
    assert_ne!(ja["name"], jb["name"]);
    assert_eq!(ja["variants"][1]["fields"][0]["ty"], json("0"));
    assert_eq!(jb["variants"][1]["fields"][0]["ty"], json("1"));
    assert_eq!(ja["orig_def_id"], jb["orig_def_id"]);
}

#[test]
fn a_struct_and_a_union_by_kind() {
    let mut mir = MirState::new(TyCtxt::new());
    let s = AdtDef { did: def("::S[0]"), kind: AdtKind::Struct, variants: vec![] };
    let u = AdtDef { did: def("::U[0]"), kind: AdtKind::Union, variants: vec![] };
    let si = AdtInst { adt: def("::S[0]"), substs: vec![] };
    let ui = AdtInst { adt: def("::U[0]"), substs: vec![] };
    assert_eq!(si.to_json(&mut mir, &s)["kind"], json(r#""Struct""#));
    assert_eq!(ui.to_json(&mut mir, &u)["kind"], json(r#""Union""#));
    assert_eq!(CtorKind::Fictive.to_json(), json(r#"{"kind":"Fictive"}"#));
}

#[test]
fn an_explicit_discriminant_is_named_and_recorded() {
    let d = def("::E[0]::A[0]::{{constant}}[0]");
    let inst = Instance { def: InstanceDef::Item(d.clone()), substs: vec![] };
    let mut tcx = TyCtxt::new();
    tcx.resolutions.push(Resolution { def_id: d.clone(), substs: vec![], instance: inst });
    let mut mir = MirState::new(tcx);
    assert_eq!(
        VariantDiscr::Explicit(d.clone()).to_json(&mut mir),
        json(r#"{"kind":"Explicit","name":"k/01234567::E[0]::A[0]::{{constant}}[0]"}"#)
    );
    assert_eq!(mir.used.instances.len(), 1);
    assert_eq!(VariantDiscr::Relative(7).to_json(&mut mir), json(r#"{"kind":"Relative","index":7}"#));
    assert_eq!(mir.used.instances.len(), 1);
}

#[test]
fn a_list_is_lowered_in_order() {
    let mut mir = MirState::new(TyCtxt::new());
    let fields = vec![
        FieldDef { did: def("::S[0]::a[0]"), ty: Ty::Char },
        FieldDef { did: def("::S[0]::b[0]"), ty: Ty::Bool },
        FieldDef { did: def("::S[0]::c[0]"), ty: Ty::Char },
    ];
    assert_eq!(
        fields.tojson(&mut mir, &vec![]),
        json(
            r#"[{"name":"k/01234567::S[0]::a[0]","ty":0,"substs":[]},
                {"name":"k/01234567::S[0]::b[0]","ty":1,"substs":[]},
                {"name":"k/01234567::S[0]::c[0]","ty":0,"substs":[]}]"#
        )
    );
    let none: Vec<FieldDef> = vec![];
    assert_eq!(none.tojson(&mut mir, &vec![]), json("[]"));
}

#[test]
fn a_data_type_with_an_unreadable_field_cannot_be_lowered() {
    let tcx = TyCtxt::new();
    let bad = Const {
        ty: Ty::Ref(Box::new(Ty::Str), Mutability::Not),
        val: ConstKind::Value(ConstValue::Slice { bytes: vec![], relocations: 3, start: 0, end: 0 }),
    };
    let adt = AdtDef {
        did: def("::S[0]"),
        kind: AdtKind::Struct,
        variants: vec![VariantDef {
            def_id: def("::S[0]"),
            discr: VariantDiscr::Relative(0),
            fields: vec![FieldDef { did: def("::S[0]::f[0]"), ty: Ty::Array(Box::new(Ty::Param(0)), Box::new(bad)) }],
            ctor_kind: CtorKind::Fictive,
        }],
    };
    let ai = AdtInst { adt: def("::S[0]"), substs: vec![GenericArg::Type(Ty::Bool)] };
    assert!(!ai.is_lowerable(&tcx, &adt));
}

#[test]
fn kinds_of_aggregate() {
    assert!(is_adt_ak(&AggregateKind::Adt(option_def(), 1, vec![])));
    assert!(!is_adt_ak(&AggregateKind::Tuple));
    assert!(!is_adt_ak(&AggregateKind::Array(Ty::Bool)));
    assert!(!is_adt_ak(&AggregateKind::Closure(def("::c[0]"), vec![])));
    assert!(!is_adt_ak(&AggregateKind::Generator(def("::g[0]"), vec![])));
}

#[test]
fn an_aggregate_of_a_data_type() {
    let mut mir = MirState::new(TyCtxt::new());
    let ak = AggregateKind::Adt(option_def(), 1, vec![GenericArg::Type(Ty::Char)]);
    let ops = vec![json(r#"{"kind":"Move"}"#)];
    assert!(aggregate_is_lowerable(&mir.tcx, &ak));
    let j = handle_adt_ag(&mut mir, &ak, ops).unwrap();
    let ai = AdtInst { adt: def("::Option[0]"), substs: vec![GenericArg::Type(Ty::Char)] };
    let mut other = MirState::new(TyCtxt::new());
    let adt = ai.to_json(&mut other, &option_def());
    assert_eq!(j["adt"], adt);
    assert_eq!(j["variant"], json("1"));
    assert_eq!(j["ops"], json(r#"[{"kind":"Move"}]"#));
    assert_eq!(j.as_object().unwrap().len(), 3);
}

#[test]
fn an_aggregate_of_another_kind_is_not_handled() {
    let mut mir = MirState::new(TyCtxt::new());
    assert!(aggregate_is_lowerable(&mir.tcx, &AggregateKind::Tuple));
    assert_eq!(handle_adt_ag(&mut mir, &AggregateKind::Tuple, vec![json("1")]), None);
    assert_eq!(handle_adt_ag(&mut mir, &AggregateKind::Array(Ty::Bool), vec![]), None);
    assert_eq!(mir.tys.entries.len(), 0);
}
