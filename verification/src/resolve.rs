//! Call targets. The name of a function that is called, pointed to or put
//! into a vtable is the name of the instance that the target resolves to,
//! and naming it records the instance, so that its body is emitted too.
use vstd::prelude::*;
use crate::lowered::{resolved_name, resolved_promoted_name};
use crate::names::{def_id_str, inst_id_str};
use crate::session::MirState;
use crate::text::push_dec;
use crate::types::{DefId, GenericArg};
use crate::types::args_view;

verus! {

/// The name of the function that a call target resolves to. The instance is
/// recorded as used, so that its body is emitted too. A target that the
/// host could not resolve goes by the bare name of its definition.
pub fn get_fn_def_name(mir: &mut MirState, defid: &DefId, substs: &Vec<GenericArg>) -> (name: String)
    ensures
        final(mir)@ == resolved_name(old(mir)@, defid@, args_view(substs@)).0,
        name@ == resolved_name(old(mir)@, defid@, args_view(substs@)).1,
        final(mir).tcx == old(mir).tcx,
        final(mir).tys == old(mir).tys,
{
    match mir.tcx.resolve(defid, substs) {
        Some(inst) => {
            let name = inst_id_str(inst);
            let owned = inst.clone();
            mir.used.insert_instance(owned);
            name
        },
        None => {
            mir.note_unresolved(defid, substs);
            def_id_str(defid)
        },
    }
}

/// The name of a promoted constant of the function that a call target
/// resolves to, or of the function itself where `promoted` is `None`.
pub fn get_promoted_name(
    mir: &mut MirState,
    defid: &DefId,
    substs: &Vec<GenericArg>,
    promoted: Option<u32>,
) -> (name: String)
    ensures
        final(mir)@ == resolved_promoted_name(old(mir)@, defid@, args_view(substs@), promoted).0,
        name@ == resolved_promoted_name(old(mir)@, defid@, args_view(substs@), promoted).1,
        final(mir).tcx == old(mir).tcx,
        final(mir).tys == old(mir).tys,
{
    let mut parent = get_fn_def_name(mir, defid, substs);
    match promoted {
        Some(idx) => {
            proof {
                reveal_strlit("::{{promoted}}[");
                reveal_strlit("]");
            }
            let ghost base = parent@;
            parent.append("::{{promoted}}[");
            push_dec(&mut parent, idx as u128);
            parent.append("]");
            assert(parent@ =~= crate::names::promoted_name(base, promoted));
            parent
        },
        None => parent,
    }
}

} // verus!
