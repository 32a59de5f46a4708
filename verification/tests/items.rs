use mir_json::assoc::{
    assoc_item_json, defid_ty, trait_item_for_impl_item, AssocItem, AssocItemContainer, AssocKind, Defaultness,
    GenericParamDef, GenericPredicates, Generics, Predicate, ProjectionPredicate, ProjectionTy, TraitRef,
};
use mir_json::kinds::{BorrowKind, CastKind, PointerCast, Unsafety};
use mir_json::readable::assoc_item_is_readable;
use mir_json::session::{DefType, ImplTrait, MirState, TraitItems, TyCtxt};
use mir_json::types::{Abi, DefId, FloatTy, FnSig, GenericArg, IntTy, Mutability, Ty, UintTy};
use serde_json::Value;

fn def(path: &str) -> DefId {
    DefId { krate: "k".to_string(), disambiguator: "0123456789".to_string(), path: path.to_string() }
}

fn json(text: &str) -> Value {
    serde_json::from_str(text).unwrap()
}

fn no_generics() -> Generics {
    Generics { parent: None, params: vec![] }
}

fn no_predicates() -> GenericPredicates {
    GenericPredicates { parent: None, predicates: vec![] }
}

fn item(path: &str, ident: &str, kind: AssocKind, container: AssocItemContainer) -> AssocItem {
    AssocItem {
        def_id: def(path),
        ident: ident.to_string(),
        kind,
        defaultness: Defaultness::Final,
        container,
        generics: no_generics(),
        predicates: no_predicates(),
        ty: None,
        sig: None,
    }
}

#[test]
fn small_kinds_by_name() {
    assert_eq!(IntTy::Isize.to_json(), json(r#"{"kind":"Isize"}"#));
    assert_eq!(IntTy::I128.to_json(), json(r#"{"kind":"I128"}"#));
    assert_eq!(UintTy::U16.to_json(), json(r#"{"kind":"U16"}"#));
    assert_eq!(FloatTy::F32.to_json(), json(r#"{"kind":"F32"}"#));
    assert_eq!(Mutability::Mut.to_json(), json(r#"{"kind":"Mut"}"#));
    assert_eq!(Mutability::Not.to_json(), json(r#"{"kind":"Not"}"#));
    assert_eq!(Abi::RustCall.to_json(), json(r#"{"kind":"RustCall"}"#));
    assert_eq!(Abi::C.to_json(), json(r#"{"kind":"C"}"#));
    assert_eq!(Abi::SysV64.name(), "SysV64");
}

#[test]
fn borrow_kinds_are_plain_names() {
    assert_eq!(BorrowKind::Shared.to_json(), json(r#""Shared""#));
    assert_eq!(BorrowKind::Shallow.to_json(), json(r#""Shallow""#));
    assert_eq!(BorrowKind::Unique.to_json(), json(r#""Unique""#));
    assert_eq!(BorrowKind::Mut { allow_two_phase_borrow: true }.to_json(), json(r#""Mut""#));
    assert_eq!(BorrowKind::Mut { allow_two_phase_borrow: false }.to_json(), json(r#""Mut""#));
}

#[test]
fn cast_kinds_by_name() {
    assert_eq!(CastKind::Misc.to_json(), json(r#"{"kind":"Misc"}"#));
    assert_eq!(CastKind::Pointer(PointerCast::Unsize).to_json(), json(r#"{"kind":"Pointer(Unsize)"}"#));
    assert_eq!(
        CastKind::Pointer(PointerCast::ClosureFnPointer(Unsafety::Normal)).to_json(),
        json(r#"{"kind":"Pointer(ClosureFnPointer(Normal))"}"#)
    );
    assert_eq!(
        CastKind::Pointer(PointerCast::ReifyFnPointer).to_json(),
        json(r#"{"kind":"Pointer(ReifyFnPointer)"}"#)
    );
}

#[test]
fn predicates_of_a_where_clause() {
    let mut mir = MirState::new(TyCtxt::new());
    let bound = Predicate::Trait(TraitRef { def_id: def("::Tr[0]"), substs: vec![GenericArg::Type(Ty::Bool)] });
    assert_eq!(
        bound.to_json(&mut mir),
        json(r#"{"trait_pred":{"trait":"k/01234567::Tr[0]","substs":[0]}}"#)
    );
    let binding = Predicate::Projection(ProjectionPredicate {
        projection_ty: ProjectionTy { substs: vec![GenericArg::Type(Ty::Bool)], item_def_id: def("::Tr[0]::A[0]") },
        ty: Ty::Char,
    });
    assert_eq!(
        binding.to_json(&mut mir),
        json(
            r#"{"trait_proj":{"projection_ty":{"substs":[0],"item_def_id":"k/01234567::Tr[0]::A[0]"},"ty":1}}"#
        )
    );
    assert_eq!(Predicate::Other.to_json(&mut mir), json(r#""unknown_pred""#));
}

#[test]
fn predicates_come_from_the_inside_out() {
    let mut mir = MirState::new(TyCtxt::new());
    let bound = |path: &str, ty: Ty| Predicate::Trait(TraitRef { def_id: def(path), substs: vec![GenericArg::Type(ty)] });
    let outer = GenericPredicates { parent: None, predicates: vec![bound("::Outer[0]", Ty::Char)] };
    let inner = GenericPredicates {
        parent: Some(Box::new(outer)),
        predicates: vec![bound("::A[0]", Ty::Bool), Predicate::Other],
    };
    assert_eq!(
        inner.to_json(&mut mir),
        json(
            r#"{"predicates":[
                {"trait_pred":{"trait":"k/01234567::A[0]","substs":[0]}},
                "unknown_pred",
                {"trait_pred":{"trait":"k/01234567::Outer[0]","substs":[1]}}]}"#
        )
    );
}

#[test]
fn parameters_come_from_the_outside_in() {
    let param = |name: &str| GenericParamDef { name: name.to_string(), def_id: def(&format!("::f[0]::{}[0]", name)) };
    assert_eq!(param("T").to_json(), json(r#"{"param_def":"T","def_id":"k/01234567::f[0]::T[0]"}"#));
    let outermost = Generics { parent: None, params: vec![param("A")] };
    let middle = Generics { parent: Some(Box::new(outermost)), params: vec![] };
    let inner = Generics { parent: Some(Box::new(middle)), params: vec![param("B"), param("C")] };
    assert_eq!(
        inner.to_json(),
        json(
            r#"{"params":[
                {"param_def":"A","def_id":"k/01234567::f[0]::A[0]"},
                {"param_def":"B","def_id":"k/01234567::f[0]::B[0]"},
                {"param_def":"C","def_id":"k/01234567::f[0]::C[0]"}]}"#
        )
    );
    assert_eq!(no_generics().to_json(), json(r#"{"params":[]}"#));
}

#[test]
fn the_item_that_an_item_of_an_impl_implements() {
    let mut tcx = TyCtxt::new();
    tcx.impl_traits.push(ImplTrait { impl_did: def("::{{impl}}[0]"), trait_did: def("::Tr[0]") });
    tcx.trait_items.push(TraitItems {
        trait_did: def("::Tr[0]"),
        items: vec![
            item("::Tr[0]::f[0]", "f", AssocKind::Const, AssocItemContainer::TraitContainer(def("::Tr[0]"))),
            item("::Tr[0]::f[1]", "f", AssocKind::Method, AssocItemContainer::TraitContainer(def("::Tr[0]"))),
            item("::Tr[0]::g[0]", "g", AssocKind::Method, AssocItemContainer::TraitContainer(def("::Tr[0]"))),
        ],
    });
    let in_impl = |ident: &str, kind: AssocKind| {
        item("::{{impl}}[0]::x[0]", ident, kind, AssocItemContainer::ImplContainer(def("::{{impl}}[0]")))
    };
    let found = trait_item_for_impl_item(&tcx, &in_impl("f", AssocKind::Method));
    assert_eq!(found.map(|i| i.def_id.path.clone()), Some("::Tr[0]::f[1]".to_string()));
    let found = trait_item_for_impl_item(&tcx, &in_impl("g", AssocKind::Method));
    assert_eq!(found.map(|i| i.def_id.path.clone()), Some("::Tr[0]::g[0]".to_string()));
    // no item of that name and kind
    assert!(trait_item_for_impl_item(&tcx, &in_impl("g", AssocKind::Type)).is_none());
    assert!(trait_item_for_impl_item(&tcx, &in_impl("h", AssocKind::Method)).is_none());
    // an impl of no trait
    let inherent = item("::{{impl}}[1]::f[0]", "f", AssocKind::Method, AssocItemContainer::ImplContainer(def("::{{impl}}[1]")));
    assert!(trait_item_for_impl_item(&tcx, &inherent).is_none());
    // an item of a trait
    let of_trait = item("::Tr[0]::g[0]", "g", AssocKind::Method, AssocItemContainer::TraitContainer(def("::Tr[0]")));
    assert!(trait_item_for_impl_item(&tcx, &of_trait).is_none());
}

#[test]
fn a_method_of_an_impl() {
    let mut tcx = TyCtxt::new();
    tcx.impl_traits.push(ImplTrait { impl_did: def("::{{impl}}[0]"), trait_did: def("::Tr[0]") });
    tcx.trait_items.push(TraitItems {
        trait_did: def("::Tr[0]"),
        items: vec![item("::Tr[0]::m[0]", "m", AssocKind::Method, AssocItemContainer::TraitContainer(def("::Tr[0]")))],
    });
    let mut mir = MirState::new(tcx);
    let mut m = item("::{{impl}}[0]::m[0]", "m", AssocKind::Method, AssocItemContainer::ImplContainer(def("::{{impl}}[0]")));
    m.sig = Some(FnSig { inputs: vec![Ty::Bool], output: Ty::Char, c_variadic: false, is_unsafe: false, abi: Abi::Rust });
    m.generics = Generics { parent: None, params: vec![GenericParamDef { name: "T".to_string(), def_id: def("::T[0]") }] };
    m.predicates = GenericPredicates {
        parent: None,
        predicates: vec![Predicate::Trait(TraitRef { def_id: def("::Tr[0]"), substs: vec![GenericArg::Type(Ty::Never)] })],
    };
    assert!(assoc_item_is_readable(&mir.tcx, &m));
    assert_eq!(
        assoc_item_json(&mut mir, &m),
        json(
            r#"{"name":"k/01234567::{{impl}}[0]::m[0]",
                "generics":{"params":[{"param_def":"T","def_id":"k/01234567::T[0]"}]},
                "predicates":{"predicates":[{"trait_pred":{"trait":"k/01234567::Tr[0]","substs":[0]}}]},
                "kind":"Method",
                "signature":{"inputs":[1],"output":2,"abi":{"kind":"Rust"}},
                "implements":"k/01234567::Tr[0]::m[0]"}"#
        )
    );
}

#[test]
fn constants_types_and_opaque_types_of_a_trait() {
    let mut mir = MirState::new(TyCtxt::new());
    let in_trait = || AssocItemContainer::TraitContainer(def("::Tr[0]"));
    let head = |path: &str| {
        format!(r#""name":"k/01234567{}","generics":{{"params":[]}},"predicates":{{"predicates":[]}}"#, path)
    };
    let mut c = item("::Tr[0]::C[0]", "C", AssocKind::Const, in_trait());
    c.ty = Some(Ty::Bool);
    assert_eq!(
        assoc_item_json(&mut mir, &c),
        json(&format!(r#"{{{},"kind":"Const","type":0}}"#, head("::Tr[0]::C[0]")))
    );
    let mut with_value = item("::Tr[0]::A[0]", "A", AssocKind::Type, in_trait());
    with_value.ty = Some(Ty::Char);
    with_value.defaultness = Defaultness::Default { has_value: true };
    assert_eq!(
        assoc_item_json(&mut mir, &with_value),
        json(&format!(r#"{{{},"kind":"Type","type":1}}"#, head("::Tr[0]::A[0]")))
    );
    let mut final_type = item("::Tr[0]::A[0]", "A", AssocKind::Type, in_trait());
    final_type.ty = Some(Ty::Char);
    assert_eq!(
        assoc_item_json(&mut mir, &final_type),
        json(&format!(r#"{{{},"kind":"Type","type":1}}"#, head("::Tr[0]::A[0]")))
    );
    let mut without_value = item("::Tr[0]::B[0]", "B", AssocKind::Type, in_trait());
    without_value.ty = Some(Ty::Never);
    without_value.defaultness = Defaultness::Default { has_value: false };
    assert_eq!(
        assoc_item_json(&mut mir, &without_value),
        json(&format!(r#"{{{},"kind":"Type"}}"#, head("::Tr[0]::B[0]")))
    );
    assert_eq!(mir.tys.entries.len(), 2);
    let opaque = item("::Tr[0]::O[0]", "O", AssocKind::OpaqueTy, in_trait());
    assert_eq!(
        assoc_item_json(&mut mir, &opaque),
        json(&format!(r#"{{{},"kind":"Existential"}}"#, head("::Tr[0]::O[0]")))
    );
}

#[test]
fn the_type_of_a_definition() {
    let mut tcx = TyCtxt::new();
    tcx.types.push(DefType { def_id: def("::x[0]"), ty: Ty::Slice(Box::new(Ty::Bool)) });
    let mut mir = MirState::new(tcx);
    assert_eq!(defid_ty(&def("::x[0]"), &mut mir), Some(json("1")));
    assert_eq!(defid_ty(&def("::y[0]"), &mut mir), None);
    assert_eq!(mir.tys.entries.len(), 2);
}
