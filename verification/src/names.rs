//! Stable names: the text by which a definition, or one instantiation of it,
//! is known in the lowered output.
use vstd::prelude::*;
use crate::encode::{enc_args, enc_ty, StableEncode};
use crate::hash::{hash_bytes, stable_hash64};
use crate::text::{dec_digits, hex16, push_dec, push_hex};
use crate::types::{
    AdtInst, AdtInstView, DefId, DefIdView, ExistentialPredicate, ExistentialPredicateView,
    ExistentialProjectionView, Instance, InstanceDef, InstanceDefView, InstanceView, TraitInst, TraitInstView, Ty,
    TyView,
};
use crate::types::{pred_view, preds_view, projection_view};
use crate::copy::{copy_projection, copy_trait_ref};

verus! {

/// The part of a crate's disambiguator that enters a name: its first eight
/// characters, or all of it where it has fewer.
pub open spec fn disambiguator_prefix(d: Seq<char>) -> Seq<char> {
    if d.len() <= 8 {
        d
    } else {
        d.take(8)
    }
}

/// The name of a definition: crate, `/`, disambiguator prefix, path.
pub open spec fn def_name(d: DefIdView) -> Seq<char> {
    d.krate + seq!['/'] + disambiguator_prefix(d.disambiguator) + d.path
}

/// The name of a definition together with a tag and a content hash:
/// the definition's name, `::`, the tag, the hash as 16 hexadecimal digits,
/// and `[0]`.
pub open spec fn ext_name(d: DefIdView, tag: Seq<char>, hash: u64) -> Seq<char> {
    def_name(d) + seq![':', ':'] + tag + hex16(hash) + seq!['[', '0', ']']
}

/// The name of one instantiation of a data type.
pub open spec fn adt_name(ai: AdtInstView) -> Seq<char> {
    ext_name(ai.adt, seq!['_', 'a', 'd', 't'], stable_hash64(enc_args(ai.substs)))
}

/// The definition that an instance is an instance of.
pub open spec fn instance_def(i: InstanceView) -> DefIdView {
    match i.def {
        InstanceDefView::Item(d) => d,
        InstanceDefView::Intrinsic(d) => d,
        InstanceDefView::VtableShim(d) => d,
        InstanceDefView::ReifyShim(d) => d,
        InstanceDefView::FnPtrShim(d, _) => d,
        InstanceDefView::Virtual(d, _, _) => d,
        InstanceDefView::ClosureOnceShim { call_once } => call_once,
        InstanceDefView::DropGlue(d, _) => d,
        InstanceDefView::CloneShim(d, _) => d,
    }
}

/// The tag that tells the kinds of instance of one definition apart.
pub open spec fn instance_tag(def: InstanceDefView) -> Seq<char> {
    match def {
        InstanceDefView::Item(_) => seq!['_', 'i', 'n', 's', 't'],
        InstanceDefView::Intrinsic(_) => seq!['_', 'i', 'n', 's', 't'],
        InstanceDefView::VtableShim(_) => seq!['_', 'v', 't', 's', 'h', 'i', 'm'],
        InstanceDefView::ReifyShim(_) => seq!['_', 'r', 'e', 'i', 'f', 'y'],
        InstanceDefView::FnPtrShim(_, _) => seq!['_', 'c', 'a', 'l', 'l', 'o', 'n', 'c', 'e'],
        InstanceDefView::Virtual(_, slot, _) => seq!['_', 'v', 'i', 'r', 't'] + dec_digits(slot as nat)
            + seq!['_'],
        InstanceDefView::ClosureOnceShim { .. } => seq!['_', 'c', 'a', 'l', 'l', 'o', 'n', 'c', 'e'],
        InstanceDefView::DropGlue(_, _) => seq!['_', 'd', 'r', 'o', 'p'],
        InstanceDefView::CloneShim(_, _) => seq!['_', 's', 'h', 'i', 'm'],
    }
}

/// Whether an instance goes by the bare name of its definition: an item or
/// an intrinsic without generic arguments.
pub open spec fn is_plain(i: InstanceView) -> bool {
    (i.def is Item || i.def is Intrinsic) && i.substs.len() == 0
}

/// The name of an instance.
pub open spec fn instance_name(i: InstanceView) -> Seq<char> {
    if is_plain(i) {
        def_name(instance_def(i))
    } else {
        ext_name(instance_def(i), instance_tag(i.def), stable_hash64(enc_args(i.substs)))
    }
}

/// The trait-object type that a trait instance stands for: the principal
/// trait first, then the associated-type bindings.
pub open spec fn dyn_ty_of(ti: TraitInstView) -> Option<TyView> {
    match ti.trait_ref {
        Some(tr) => Some(
            TyView::Dynamic(
                seq![ExistentialPredicateView::Trait(tr)] + ti.projs.map_values(
                    |p: ExistentialProjectionView| ExistentialPredicateView::Projection(p),
                ),
            ),
        ),
        None => None,
    }
}

/// The name given to the absence of a trait.
pub open spec fn empty_trait_name() -> Seq<char> {
    seq!['t', 'r', 'a', 'i', 't', '/', '0', ':', ':', 'e', 'm', 'p', 't', 'y', '[', '0', ']']
}

/// The name of a trait instance.
pub open spec fn trait_name(ti: TraitInstView) -> Seq<char> {
    match ti.trait_ref {
        Some(tr) => ext_name(
            tr.def_id,
            seq!['_', 't', 'r', 'a', 'i', 't'],
            stable_hash64(enc_ty(dyn_ty_of(ti)->Some_0)),
        ),
        None => empty_trait_name(),
    }
}

/// The name of the promoted constant `promoted` of the item named `parent`,
/// or of the item itself where there is no index.
pub open spec fn promoted_name(parent: Seq<char>, promoted: Option<u32>) -> Seq<char> {
    match promoted {
        Some(idx) => parent + seq![':', ':', '{', '{', 'p', 'r', 'o', 'm', 'o', 't', 'e', 'd', '}', '}', '[']
            + dec_digits(idx as nat) + seq![']'],
        None => parent,
    }
}

/// The stable name of a definition.
pub fn def_id_str(def_id: &DefId) -> (s: String)
    ensures
        s@ == def_name(def_id@),
{
    proof {
        reveal_strlit("/");
    }
    let mut s = String::new();
    s.append(def_id.krate.as_str());
    s.append("/");
    let d = def_id.disambiguator.as_str();
    let n: usize = d.unicode_len();
    if n <= 8 {
        s.append(d);
    } else {
        s.append(d.substring_char(0, 8));
        assert(d@.subrange(0, 8) =~= d@.take(8));
    }
    s.append(def_id.path.as_str());
    assert(s@ =~= def_name(def_id@));
    s
}

/// The stable name of a definition, told apart from its other instantiations
/// by `prefix` and by the content hash of `extra`.
pub fn ext_def_id_str<T: StableEncode>(def_id: &DefId, prefix: &str, extra: &T) -> (s: String)
    ensures
        s@ == ext_name(def_id@, prefix@, stable_hash64(extra.encoding())),
{
    proof {
        reveal_strlit("::");
        reveal_strlit("[0]");
    }
    let mut bytes: Vec<u8> = Vec::new();
    extra.encode(&mut bytes);
    assert(bytes@ =~= extra.encoding());
    let hash: u64 = hash_bytes(&bytes);
    let mut s = def_id_str(def_id);
    s.append("::");
    s.append(prefix);
    push_hex(&mut s, hash, 16);
    s.append("[0]");
    assert(s@ =~= ext_name(def_id@, prefix@, hash));
    s
}

/// The stable name of one instantiation of a data type.
pub fn adt_inst_id_str(ai: &AdtInst) -> (s: String)
    ensures
        s@ == adt_name(ai@),
{
    proof {
        reveal_strlit("_adt");
    }
    let s = ext_def_id_str(&ai.adt, "_adt", &ai.substs);
    assert("_adt"@ =~= seq!['_', 'a', 'd', 't']);
    s
}

/// The definition that an instance is an instance of.
pub fn inst_def_id(inst: &Instance) -> (d: &DefId)
    ensures
        d@ == instance_def(inst@),
{
    match &inst.def {
        InstanceDef::Item(d) => d,
        InstanceDef::Intrinsic(d) => d,
        InstanceDef::VtableShim(d) => d,
        InstanceDef::ReifyShim(d) => d,
        InstanceDef::FnPtrShim(d, _) => d,
        InstanceDef::Virtual(d, _, _) => d,
        InstanceDef::ClosureOnceShim { call_once } => call_once,
        InstanceDef::DropGlue(d, _) => d,
        InstanceDef::CloneShim(d, _) => d,
    }
}

/// The tag of an instance's kind.
fn inst_tag(def: &InstanceDef) -> (s: String)
    ensures
        s@ == instance_tag(def@),
{
    proof {
        reveal_strlit("_inst");
        reveal_strlit("_vtshim");
        reveal_strlit("_reify");
        reveal_strlit("_callonce");
        reveal_strlit("_virt");
        reveal_strlit("_");
        reveal_strlit("_drop");
        reveal_strlit("_shim");
    }
    let s = match def {
        InstanceDef::Item(_) => String::from_str("_inst"),
        InstanceDef::Intrinsic(_) => String::from_str("_inst"),
        InstanceDef::VtableShim(_) => String::from_str("_vtshim"),
        InstanceDef::ReifyShim(_) => String::from_str("_reify"),
        InstanceDef::FnPtrShim(_, _) => String::from_str("_callonce"),
        InstanceDef::Virtual(_, slot, _) => {
            let mut t = String::from_str("_virt");
            push_dec(&mut t, *slot as u128);
            t.append("_");
            t
        },
        InstanceDef::ClosureOnceShim { .. } => String::from_str("_callonce"),
        InstanceDef::DropGlue(_, _) => String::from_str("_drop"),
        InstanceDef::CloneShim(_, _) => String::from_str("_shim"),
    };
    assert(s@ =~= instance_tag(def@));
    s
}

/// The stable name of an instance.
pub fn inst_id_str(inst: &Instance) -> (s: String)
    ensures
        s@ == instance_name(inst@),
{
    let plain: bool = match &inst.def {
        InstanceDef::Item(_) => inst.substs.len() == 0,
        InstanceDef::Intrinsic(_) => inst.substs.len() == 0,
        _ => false,
    };
    if plain {
        def_id_str(inst_def_id(inst))
    } else {
        let tag = inst_tag(&inst.def);
        ext_def_id_str(inst_def_id(inst), tag.as_str(), &inst.substs)
    }
}

impl TraitInst {
    /// The trait-object type that this trait instance stands for, if it has
    /// a principal trait.
    pub fn dyn_ty(&self) -> (t: Option<Ty>)
        ensures
            match t {
                Some(t) => dyn_ty_of(self@) == Some(t@),
                None => dyn_ty_of(self@) is None,
            },
    {
        match &self.trait_ref {
            Some(tr) => {
                let mut preds: Vec<ExistentialPredicate> = Vec::new();
                preds.push(ExistentialPredicate::Trait(copy_trait_ref(tr)));
                let mut i: usize = 0;
                while i < self.projs.len()
                    invariant
                        i <= self.projs.len(),
                        preds.len() == i + 1,
                        pred_view(preds@[0]) == ExistentialPredicateView::Trait(tr@),
                        forall|k: int|
                            1 <= k <= i ==> pred_view(#[trigger] preds@[k])
                                == ExistentialPredicateView::Projection(projection_view(self.projs@[k - 1])),
                    decreases self.projs.len() - i,
                {
                    preds.push(ExistentialPredicate::Projection(copy_projection(&self.projs[i])));
                    i += 1;
                }
                let ghost rest = self@.projs.map_values(
                    |p: ExistentialProjectionView| ExistentialPredicateView::Projection(p),
                );
                let ghost want = seq![ExistentialPredicateView::Trait(tr@)] + rest;
                assert forall|k: int| 0 <= k < want.len() implies preds_view(preds@)[k] == want[k] by {
                    if k > 0 {
                        assert(want[k] == rest[k - 1]);
                        assert(self@.projs[k - 1] == projection_view(self.projs@[k - 1]));
                    }
                }
                assert(preds_view(preds@) =~= want);
                Some(Ty::Dynamic(preds))
            },
            None => None,
        }
    }
}

/// The stable name of a trait instance.
pub fn trait_inst_id_str(ti: &TraitInst) -> (s: String)
    ensures
        s@ == trait_name(ti@),
{
    proof {
        reveal_strlit("_trait");
        reveal_strlit("trait/0::empty[0]");
    }
    match (&ti.trait_ref, ti.dyn_ty()) {
        (Some(tr), Some(dyn_ty)) => {
            let s = ext_def_id_str(&tr.def_id, "_trait", &dyn_ty);
            assert("_trait"@ =~= seq!['_', 't', 'r', 'a', 'i', 't']);
            s
        },
        _ => {
            let s = String::from_str("trait/0::empty[0]");
            assert(s@ =~= empty_trait_name());
            s
        },
    }
}

} // verus!
