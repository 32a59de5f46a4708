use mir_json::encode::{put_args, put_ty};
use mir_json::names::{
    adt_inst_id_str, def_id_str, ext_def_id_str, inst_def_id, inst_id_str, trait_inst_id_str,
};
use mir_json::types::{
    AdtInst, DefId, ExistentialPredicate, ExistentialProjection, ExistentialTraitRef, GenericArg, Instance,
    InstanceDef, IntTy, TraitInst, Ty,
};
use std::hash::Hasher;

fn def(krate: &str, disambiguator: &str, path: &str) -> DefId {
    DefId { krate: krate.to_string(), disambiguator: disambiguator.to_string(), path: path.to_string() }
}

fn hash_of(bytes: &[u8]) -> u64 {
    let mut h = rustc_stable_hash::StableSipHasher128::new();
    h.write(bytes);
    Hasher::finish(&h)
}

#[test]
fn def_name_takes_eight_characters_of_the_disambiguator() {
    let d = def("core", "0123456789abcdef", "::option[0]::Option[0]");
    assert_eq!(def_id_str(&d), "core/01234567::option[0]::Option[0]");
}

#[test]
fn def_name_takes_a_short_disambiguator_whole() {
    let d = def("a", "xyz", "::f[0]");
    assert_eq!(def_id_str(&d), "a/xyz::f[0]");
    let e = def("a", "", "::f[0]");
    assert_eq!(def_id_str(&e), "a/::f[0]");
    let f = def("a", "12345678", "");
    assert_eq!(def_id_str(&f), "a/12345678");
}

#[test]
fn def_name_is_the_same_every_time() {
    let d = def("std", "fedcba9876543210", "::vec[0]::Vec[0]");
    let e = def("std", "fedcba9876543210", "::vec[0]::Vec[0]");
    assert_eq!(def_id_str(&d), def_id_str(&d));
    assert_eq!(def_id_str(&d), def_id_str(&e));
}

#[test]
fn ext_name_holds_the_hash_of_the_payload_in_sixteen_digits() {
    let d = def("k", "0123456789", "::S[0]");
    let substs: Vec<GenericArg> = vec![GenericArg::Type(Ty::Bool)];
    // one argument; the argument is a type; the type is `bool`
    let bytes = [1u8, 0, 0];
    let mut encoded = Vec::new();
    put_args(&mut encoded, &substs);
    assert_eq!(encoded, bytes.to_vec());
    let expected = format!("k/01234567::S[0]::_tag{:016x}[0]", hash_of(&bytes));
    assert_eq!(ext_def_id_str(&d, "_tag", &substs), expected);
}

#[test]
fn ext_name_of_a_type_payload() {
    let d = def("k", "0123456789", "::T[0]");
    let ty = Ty::Int(IntTy::I32);
    let mut encoded = Vec::new();
    put_ty(&mut encoded, &ty);
    assert_eq!(encoded, vec![2u8, 3]);
    let expected = format!("k/01234567::T[0]::_x{:016x}[0]", hash_of(&[2, 3]));
    assert_eq!(ext_def_id_str(&d, "_x", &ty), expected);
}

#[test]
fn ext_name_has_leading_zeros_and_lower_case() {
    let d = def("k", "0123456789", "::S[0]");
    let substs: Vec<GenericArg> = Vec::new();
    let name = ext_def_id_str(&d, "_inst", &substs);
    let prefix = "k/01234567::S[0]::_inst";
    assert!(name.starts_with(prefix));
    assert!(name.ends_with("[0]"));
    let digits = &name[prefix.len()..name.len() - 3];
    assert_eq!(digits.len(), 16);
    assert!(digits.chars().all(|c| c.is_ascii_digit() || ('a'..='f').contains(&c)));
    assert_eq!(u64::from_str_radix(digits, 16).unwrap(), hash_of(&[0]));
}

#[test]
fn different_arguments_give_different_names() {
    let d = def("k", "0123456789", "::S[0]");
    let a = AdtInst { adt: d.clone(), substs: vec![GenericArg::Type(Ty::Bool)] };
    let b = AdtInst { adt: d.clone(), substs: vec![GenericArg::Type(Ty::Char)] };
    let c = AdtInst { adt: d.clone(), substs: vec![GenericArg::Type(Ty::Bool)] };
    assert_ne!(adt_inst_id_str(&a), adt_inst_id_str(&b));
    assert_eq!(adt_inst_id_str(&a), adt_inst_id_str(&c));
    assert!(adt_inst_id_str(&a).starts_with("k/01234567::S[0]::_adt"));
}

#[test]
fn an_item_without_arguments_goes_by_its_bare_name() {
    let d = def("k", "0123456789", "::f[0]");
    let item = Instance { def: InstanceDef::Item(d.clone()), substs: Vec::new() };
    let intrinsic = Instance { def: InstanceDef::Intrinsic(d.clone()), substs: Vec::new() };
    assert_eq!(inst_id_str(&item), "k/01234567::f[0]");
    assert_eq!(inst_id_str(&intrinsic), "k/01234567::f[0]");
}

#[test]
fn each_kind_of_instance_has_its_tag() {
    let d = def("k", "0123456789", "::f[0]");
    let substs = || vec![GenericArg::Type(Ty::Bool)];
    let hash = format!("{:016x}[0]", hash_of(&[1, 0, 0]));
    let name = |tag: &str| format!("k/01234567::f[0]::{}{}", tag, hash);
    let none = TraitInst { trait_ref: None, projs: Vec::new() };
    let cases: Vec<(InstanceDef, &str)> = vec![
        (InstanceDef::Item(d.clone()), "_inst"),
        (InstanceDef::Intrinsic(d.clone()), "_inst"),
        (InstanceDef::VtableShim(d.clone()), "_vtshim"),
        (InstanceDef::ReifyShim(d.clone()), "_reify"),
        (InstanceDef::Virtual(d.clone(), 12, none), "_virt12_"),
        (InstanceDef::DropGlue(d.clone(), None), "_drop"),
        (InstanceDef::FnPtrShim(d.clone(), Ty::Bool), "_callonce"),
        (InstanceDef::ClosureOnceShim { call_once: d.clone() }, "_callonce"),
        (InstanceDef::CloneShim(d.clone(), Ty::Bool), "_shim"),
    ];
    for (def, tag) in cases {
        let inst = Instance { def, substs: substs() };
        assert_eq!(inst_id_str(&inst), name(tag));
    }
}

#[test]
fn a_shim_without_arguments_is_still_hashed() {
    let d = def("k", "0123456789", "::f[0]");
    let inst = Instance { def: InstanceDef::ReifyShim(d.clone()), substs: Vec::new() };
    assert_eq!(inst_id_str(&inst), format!("k/01234567::f[0]::_reify{:016x}[0]", hash_of(&[0])));
}

#[test]
fn the_definition_of_an_instance() {
    let d = def("k", "0123456789", "::f[0]");
    let inst = Instance { def: InstanceDef::ClosureOnceShim { call_once: d.clone() }, substs: Vec::new() };
    assert_eq!(inst_def_id(&inst).path, "::f[0]");
    let glue = Instance { def: InstanceDef::DropGlue(d.clone(), Some(Ty::Str)), substs: Vec::new() };
    assert_eq!(inst_def_id(&glue).krate, "k");
}

#[test]
fn no_trait_has_the_fixed_name() {
    let none = TraitInst { trait_ref: None, projs: Vec::new() };
    assert_eq!(trait_inst_id_str(&none), "trait/0::empty[0]");
    assert!(none.dyn_ty().is_none());
}

#[test]
fn a_trait_is_named_by_the_hash_of_its_object_type() {
    let t = def("k", "0123456789", "::Tr[0]");
    let a = def("k", "0123456789", "::Tr[0]::A[0]");
    let ti = TraitInst {
        trait_ref: Some(ExistentialTraitRef { def_id: t.clone(), substs: Vec::new() }),
        projs: vec![ExistentialProjection { item_def_id: a.clone(), substs: Vec::new(), ty: Ty::Bool }],
    };
    let dyn_ty = ti.dyn_ty().unwrap();
    match &dyn_ty {
        Ty::Dynamic(preds) => {
            assert_eq!(preds.len(), 2);
            assert!(matches!(&preds[0], ExistentialPredicate::Trait(r) if r.def_id.path == "::Tr[0]"));
            assert!(matches!(&preds[1], ExistentialPredicate::Projection(p) if p.item_def_id.path == "::Tr[0]::A[0]"));
        },
        _ => panic!("not a trait object"),
    }
    let mut bytes = Vec::new();
    put_ty(&mut bytes, &dyn_ty);
    let expected = format!("k/01234567::Tr[0]::_trait{:016x}[0]", hash_of(&bytes));
    assert_eq!(trait_inst_id_str(&ti), expected);
}
