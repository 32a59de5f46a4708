use mir_json::instance::{clone_parts_of, first_type_of};
use mir_json::names::inst_id_str;
use mir_json::readable::{instance_is_lowerable, is_principal_object};
use mir_json::session::{Diagnostic, MirState, Resolution, TyCtxt, VtableMethods};
use mir_json::types::{
    Const, ConstKind, ConstValue, DefId, ExistentialPredicate, ExistentialProjection, ExistentialTraitRef,
    GenericArg, Instance, InstanceDef, Mutability, TraitInst, Ty, UintTy,
};
use mir_json::names::trait_inst_id_str;
use mir_json::vtable::adjust_method_index;
use serde_json::Value;

fn def(path: &str) -> DefId {
    DefId { krate: "k".to_string(), disambiguator: "0123456789".to_string(), path: path.to_string() }
}

fn json(text: &str) -> Value {
    serde_json::from_str(text).unwrap()
}

fn object_of(tr: &DefId) -> Ty {
    Ty::Dynamic(vec![ExistentialPredicate::Trait(ExistentialTraitRef { def_id: tr.clone(), substs: Vec::new() })])
}

#[test]
fn slots_without_a_method_are_not_counted() {
    let tr = def("::Tr[0]");
    let self_ty = object_of(&tr);
    let mut tcx = TyCtxt::new();
    // methods A (left out), B, C (left out), D
    tcx.vtables.push(VtableMethods { self_ty: object_of(&tr), present: vec![false, true, false, true] });
    assert_eq!(adjust_method_index(&tcx, &self_ty, 3), 1);
    assert_eq!(adjust_method_index(&tcx, &self_ty, 1), 0);
    assert_eq!(adjust_method_index(&tcx, &self_ty, 2), 1);
    assert_eq!(adjust_method_index(&tcx, &self_ty, 0), 0);
    assert_eq!(adjust_method_index(&tcx, &self_ty, 4), 2);
    assert_eq!(adjust_method_index(&tcx, &self_ty, 100), 2);
}

#[test]
fn a_table_without_gaps_keeps_its_numbers() {
    let tr = def("::Tr[0]");
    let mut tcx = TyCtxt::new();
    tcx.vtables.push(VtableMethods { self_ty: object_of(&tr), present: vec![true, true, true] });
    for i in 0..3 {
        assert_eq!(adjust_method_index(&tcx, &object_of(&tr), i), i);
    }
    // a trait object that the host gave no table for has no slots
    assert_eq!(adjust_method_index(&tcx, &object_of(&def("::Other[0]")), 5), 0);
}

#[test]
fn only_a_trait_object_with_a_principal_trait_has_a_vtable() {
    assert!(is_principal_object(&object_of(&def("::Tr[0]"))));
    assert!(!is_principal_object(&Ty::Dynamic(vec![])));
    assert!(!is_principal_object(&Ty::Dynamic(vec![ExistentialPredicate::AutoTrait(def("::Send[0]"))])));
    assert!(!is_principal_object(&Ty::Bool));
}

#[test]
fn an_item_is_its_definition_and_arguments() {
    let mut mir = MirState::new(TyCtxt::new());
    let inst = Instance { def: InstanceDef::Item(def("::f[0]")), substs: vec![GenericArg::Type(Ty::Bool)] };
    assert_eq!(inst.to_json(&mut mir), json(r#"{"kind":"Item","def_id":"k/01234567::f[0]","substs":[0]}"#));
    let kinds: Vec<(InstanceDef, &str)> = vec![
        (InstanceDef::Intrinsic(def("::f[0]")), "Intrinsic"),
        (InstanceDef::VtableShim(def("::f[0]")), "VtableShim"),
        (InstanceDef::ReifyShim(def("::f[0]")), "ReifyShim"),
    ];
    for (d, kind) in kinds {
        let inst = Instance { def: d, substs: Vec::new() };
        assert_eq!(
            inst.to_json(&mut mir),
            json(&format!(r#"{{"kind":"{}","def_id":"k/01234567::f[0]","substs":[]}}"#, kind))
        );
    }
}

#[test]
fn shims_with_a_type() {
    let mut mir = MirState::new(TyCtxt::new());
    let shim = Instance {
        def: InstanceDef::FnPtrShim(def("::call[0]"), Ty::Char),
        substs: vec![GenericArg::Type(Ty::Bool)],
    };
    assert_eq!(
        shim.to_json(&mut mir),
        json(r#"{"kind":"FnPtrShim","def_id":"k/01234567::call[0]","substs":[0],"ty":1}"#)
    );
    let glue = Instance { def: InstanceDef::DropGlue(def("::drop[0]"), Some(Ty::Char)), substs: vec![] };
    assert_eq!(
        glue.to_json(&mut mir),
        json(r#"{"kind":"DropGlue","def_id":"k/01234567::drop[0]","substs":[],"ty":1}"#)
    );
    let nothing = Instance { def: InstanceDef::DropGlue(def("::drop[0]"), None), substs: vec![] };
    assert_eq!(
        nothing.to_json(&mut mir),
        json(r#"{"kind":"DropGlue","def_id":"k/01234567::drop[0]","substs":[],"ty":null}"#)
    );
    let once = Instance { def: InstanceDef::ClosureOnceShim { call_once: def("::once[0]") }, substs: vec![] };
    assert_eq!(
        once.to_json(&mut mir),
        json(r#"{"kind":"ClosureOnceShim","call_once":"k/01234567::once[0]","substs":[]}"#)
    );
}

#[test]
fn a_dynamic_dispatch_has_its_trait_and_its_dense_slot() {
    let tr = def("::Tr[0]");
    let method = def("::Tr[0]::d[0]");
    let ti = TraitInst {
        trait_ref: Some(ExistentialTraitRef { def_id: tr.clone(), substs: Vec::new() }),
        projs: Vec::new(),
    };
    let trait_name = trait_inst_id_str(&ti);
    let mut tcx = TyCtxt::new();
    tcx.vtables.push(VtableMethods { self_ty: object_of(&tr), present: vec![false, true, false, true] });
    let mut mir = MirState::new(tcx);
    let inst = Instance {
        def: InstanceDef::Virtual(method, 3, ti),
        substs: vec![GenericArg::Lifetime, GenericArg::Type(object_of(&tr)), GenericArg::Type(Ty::Bool)],
    };
    assert!(instance_is_lowerable(&mir.tcx, &inst));
    let j = inst.to_json(&mut mir);
    assert_eq!(
        j,
        json(&format!(
            r#"{{"kind":"Virtual","trait_id":"{}","item_id":"k/01234567::Tr[0]::d[0]","index":1}}"#,
            trait_name
        ))
    );
    assert_eq!(mir.used.traits.len(), 1);
    assert_eq!(mir.tys.entries.len(), 0);
    // lowering it again records nothing more
    inst.to_json(&mut mir);
    assert_eq!(mir.used.traits.len(), 1);
}

#[test]
fn a_dynamic_dispatch_needs_a_trait_object_as_its_first_type() {
    let tcx = TyCtxt::new();
    let none = TraitInst { trait_ref: None, projs: Vec::new() };
    let no_type = Instance { def: InstanceDef::Virtual(def("::m[0]"), 0, none.clone()), substs: vec![] };
    let not_object = Instance {
        def: InstanceDef::Virtual(def("::m[0]"), 0, none.clone()),
        substs: vec![GenericArg::Type(Ty::Bool), GenericArg::Type(object_of(&def("::Tr[0]")))],
    };
    assert!(!instance_is_lowerable(&tcx, &no_type));
    assert!(!instance_is_lowerable(&tcx, &not_object));
    assert!(first_type_of(&no_type.substs).is_none());
    assert!(matches!(first_type_of(&not_object.substs), Some(Ty::Bool)));
    assert!(matches!(
        first_type_of(&vec![GenericArg::Lifetime, GenericArg::Type(Ty::Char), GenericArg::Type(Ty::Bool)]),
        Some(Ty::Char)
    ));
}

#[test]
fn a_clone_shim_lists_and_records_its_callees() {
    let clone = def("::clone[0]");
    let for_bool = Instance { def: InstanceDef::Item(clone.clone()), substs: vec![GenericArg::Type(Ty::Bool)] };
    let for_char = Instance {
        def: InstanceDef::CloneShim(clone.clone(), Ty::Tuple(vec![Ty::Char])),
        substs: vec![GenericArg::Type(Ty::Char)],
    };
    let name_bool = inst_id_str(&for_bool);
    let name_char = inst_id_str(&for_char);
    let mut tcx = TyCtxt::new();
    tcx.resolutions.push(Resolution {
        def_id: clone.clone(),
        substs: vec![GenericArg::Type(Ty::Bool)],
        instance: for_bool,
    });
    tcx.resolutions.push(Resolution {
        def_id: clone.clone(),
        substs: vec![GenericArg::Type(Ty::Char)],
        instance: for_char,
    });
    let mut mir = MirState::new(tcx);
    let tuple = Ty::Tuple(vec![Ty::Bool, Ty::Never, Ty::Char, Ty::Bool]);
    let shim = Instance {
        def: InstanceDef::CloneShim(clone.clone(), tuple.clone()),
        substs: vec![GenericArg::Type(tuple)],
    };
    let j = shim.to_json(&mut mir);
    assert_eq!(
        j,
        json(&format!(
            r#"{{"kind":"CloneShim","def_id":"k/01234567::clone[0]","substs":[3],"ty":3,
                "callees":["{}",null,"{}","{}"]}}"#,
            name_bool, name_char, name_bool
        ))
    );
    // each callee once, in the order of first use
    assert_eq!(mir.used.instances.len(), 2);
    assert_eq!(inst_id_str(&mir.used.instances[0]), name_bool);
    assert_eq!(inst_id_str(&mir.used.instances[1]), name_char);
    assert_eq!(mir.diagnostics.len(), 0);
}

#[test]
fn the_parts_of_a_clone() {
    let len = Const {
        ty: Ty::Uint(UintTy::Usize),
        val: ConstKind::Value(ConstValue::Scalar { size: 8, data: 2, float_text: None }),
    };
    let array = Ty::Array(Box::new(Ty::Char), Box::new(len));
    assert!(matches!(clone_parts_of(&array).as_slice(), [Ty::Char]));
    let closure = Ty::Closure(def("::c[0]"), vec![], vec![Ty::Bool, Ty::Str]);
    assert!(matches!(clone_parts_of(&closure).as_slice(), [Ty::Bool, Ty::Str]));
    assert!(clone_parts_of(&Ty::Tuple(vec![])).is_empty());
    assert!(clone_parts_of(&Ty::Ref(Box::new(Ty::Bool), Mutability::Not)).is_empty());
}

#[test]
fn a_clone_shim_for_a_type_without_parts_is_noted() {
    let mut mir = MirState::new(TyCtxt::new());
    let shim = Instance { def: InstanceDef::CloneShim(def("::clone[0]"), Ty::Bool), substs: vec![] };
    assert_eq!(
        shim.to_json(&mut mir),
        json(r#"{"kind":"CloneShim","def_id":"k/01234567::clone[0]","substs":[],"ty":0,"callees":[]}"#)
    );
    assert_eq!(mir.diagnostics.len(), 1);
    assert!(matches!(&mir.diagnostics[0], Diagnostic::UnknownCloneShim(Ty::Bool)));
}

#[test]
fn what_a_lowered_type_refers_to_is_recorded() {
    let f = def("::f[0]");
    let g = def("::g[0]");
    let inst_f = Instance { def: InstanceDef::Item(f.clone()), substs: vec![] };
    let inst_g = Instance { def: InstanceDef::ReifyShim(g.clone()), substs: vec![] };
    let name_g = inst_id_str(&inst_g);
    let mut tcx = TyCtxt::new();
    tcx.resolutions.push(Resolution { def_id: f.clone(), substs: vec![], instance: inst_f });
    tcx.resolutions.push(Resolution { def_id: g.clone(), substs: vec![], instance: inst_g });
    let mut mir = MirState::new(tcx);
    let adt = def("::S[0]");
    let tr = def("::Tr[0]");
    let t = Ty::Tuple(vec![
        Ty::Ref(Box::new(Ty::FnDef(f.clone(), vec![])), Mutability::Not),
        Ty::Adt(adt.clone(), vec![GenericArg::Type(Ty::FnDef(g.clone(), vec![]))]),
        Ty::Dynamic(vec![
            ExistentialPredicate::Trait(ExistentialTraitRef { def_id: tr.clone(), substs: vec![] }),
            ExistentialPredicate::AutoTrait(def("::Send[0]")),
            ExistentialPredicate::Projection(ExistentialProjection {
                item_def_id: def("::Tr[0]::A[0]"),
                substs: vec![],
                ty: Ty::FnDef(f.clone(), vec![]),
            }),
        ]),
    ]);
    t.to_json(&mut mir);
    assert_eq!(mir.used.instances.len(), 2);
    assert_eq!(inst_id_str(&mir.used.instances[0]), "k/01234567::f[0]");
    assert_eq!(inst_id_str(&mir.used.instances[1]), name_g);
    assert_eq!(mir.used.types.len(), 1);
    assert_eq!(mir.used.types[0].adt.path, "::S[0]");
    assert_eq!(mir.used.traits.len(), 1);
    assert_eq!(mir.used.traits[0].projs.len(), 1);
    // the frontend drains the set by index; lowering what it finds there may add to the end
    let mut cursor = 0;
    while cursor < mir.used.instances.len() {
        let inst = mir.used.instances[cursor].clone();
        inst.to_json(&mut mir);
        cursor += 1;
    }
    assert_eq!(cursor, 2);
}
