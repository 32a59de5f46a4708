//! What holds of stable names: a name is a function of what it names, and
//! two instantiations of one definition have the same name exactly when
//! their content hashes are the same.
use vstd::prelude::*;
use crate::encode::{enc_args};
use crate::hash::stable_hash64;
use crate::names::{adt_name, def_name, ext_name, instance_name, instance_tag, is_plain, instance_def};
use crate::text::{hex16, hex_digit, hex_digits};
use crate::types::{AdtInstView, DefId, DefIdView, InstanceView};

verus! {

/// 16 to the power `n`.
pub open spec fn pow16(n: nat) -> nat
    decreases n,
{
    if n == 0 {
        1
    } else {
        16 * pow16((n - 1) as nat)
    }
}

/// A number has as many hexadecimal digits as were asked for.
pub proof fn lemma_hex_len(n: nat, width: nat)
    ensures
        hex_digits(n, width).len() == width,
    decreases width,
{
    if width > 0 {
        lemma_hex_len(n / 16, (width - 1) as nat);
    }
}

/// Two numbers that fit in `width` hexadecimal digits and have the same
/// digits are the same number.
pub proof fn lemma_hex_injective(a: nat, b: nat, width: nat)
    requires
        a < pow16(width),
        b < pow16(width),
        hex_digits(a, width) == hex_digits(b, width),
    ensures
        a == b,
    decreases width,
{
    if width > 0 {
        let da = hex_digits(a / 16, (width - 1) as nat);
        let db = hex_digits(b / 16, (width - 1) as nat);
        let ca = hex_digit((a % 16) as int);
        let cb = hex_digit((b % 16) as int);
        assert(da.push(ca).last() == db.push(cb).last());
        assert(da.push(ca).drop_last() =~= da);
        assert(db.push(cb).drop_last() =~= db);
        assert(ca == cb);
        assert(a % 16 == b % 16);
        lemma_hex_injective(a / 16, b / 16, (width - 1) as nat);
    }
}

/// Two 64-bit values with the same 16 hexadecimal digits are the same.
pub proof fn lemma_hex16_injective(a: u64, b: u64)
    requires
        hex16(a) == hex16(b),
    ensures
        a == b,
{
    assert(pow16(16) == 0x1_0000_0000_0000_0000) by {
        reveal_with_fuel(pow16, 17);
    }
    lemma_hex_injective(a as nat, b as nat, 16);
}

/// The name of a definition is a function of the definition: two
/// definitions with the same view have the same name.
pub proof fn law_def_name_is_stable(a: DefId, b: DefId)
    requires
        a@ == b@,
    ensures
        def_name(a@) == def_name(b@),
{
}

/// Two names with the same tag are the same exactly when the names of the
/// definitions are the same and the hashes are the same.
pub proof fn law_ext_names_agree(d: DefIdView, e: DefIdView, tag: Seq<char>, ha: u64, hb: u64)
    ensures
        (ext_name(d, tag, ha) == ext_name(e, tag, hb)) <==> (def_name(d) == def_name(e) && ha == hb),
{
    if ext_name(d, tag, ha) == ext_name(e, tag, hb) {
        let mid = seq![':', ':'] + tag;
        let tail = seq!['[', '0', ']'];
        lemma_hex_len(ha as nat, 16);
        lemma_hex_len(hb as nat, 16);
        let na = def_name(d) + (mid + hex16(ha) + tail);
        let nb = def_name(e) + (mid + hex16(hb) + tail);
        assert(na =~= ext_name(d, tag, ha));
        assert(nb =~= ext_name(e, tag, hb));
        assert(na.len() == nb.len());
        let n = def_name(d).len() as int;
        assert(na.subrange(0, n) =~= def_name(d));
        assert(nb.subrange(0, n) =~= def_name(e));
        let k = n + mid.len();
        assert(na.subrange(k, k + 16) =~= hex16(ha));
        assert(nb.subrange(k, k + 16) =~= hex16(hb));
        lemma_hex16_injective(ha, hb);
    }
}

/// Names tell instantiations apart as far as their hashes do. For one
/// definition and one tag, two payloads have the same name exactly when
/// their hashes are the same; so equal payloads have the same name, and
/// payloads whose hashes differ have different names.
pub proof fn law_ext_names_differ_with_hashes(d: DefIdView, tag: Seq<char>, a: Seq<u8>, b: Seq<u8>)
    ensures
        (ext_name(d, tag, stable_hash64(a)) == ext_name(d, tag, stable_hash64(b))) <==> stable_hash64(a)
            == stable_hash64(b),
        a == b ==> ext_name(d, tag, stable_hash64(a)) == ext_name(d, tag, stable_hash64(b)),
{
    law_ext_names_agree(d, d, tag, stable_hash64(a), stable_hash64(b));
}

/// Two instantiations of one data type have the same name exactly when the
/// hashes of their arguments are the same: the same arguments give the same
/// name, arguments with different hashes give different names.
pub proof fn law_adt_names(a: AdtInstView, b: AdtInstView)
    requires
        a.adt == b.adt,
    ensures
        (adt_name(a) == adt_name(b)) <==> stable_hash64(enc_args(a.substs)) == stable_hash64(
            enc_args(b.substs),
        ),
        a.substs == b.substs ==> adt_name(a) == adt_name(b),
{
    law_ext_names_differ_with_hashes(a.adt, seq!['_', 'a', 'd', 't'], enc_args(a.substs), enc_args(b.substs));
}

/// Two instances of one kind of one definition, neither of which goes by
/// the definition's bare name, have the same name exactly when the hashes
/// of their arguments are the same.
pub proof fn law_instance_names(a: InstanceView, b: InstanceView)
    requires
        instance_def(a) == instance_def(b),
        instance_tag(a.def) == instance_tag(b.def),
        !is_plain(a),
        !is_plain(b),
    ensures
        (instance_name(a) == instance_name(b)) <==> stable_hash64(enc_args(a.substs)) == stable_hash64(
            enc_args(b.substs),
        ),
        a.substs == b.substs ==> instance_name(a) == instance_name(b),
{
    law_ext_names_differ_with_hashes(
        instance_def(a),
        instance_tag(a.def),
        enc_args(a.substs),
        enc_args(b.substs),
    );
}

/// An instance without generic arguments of an item or an intrinsic goes by
/// the bare name of its definition, whichever way it was reached.
pub proof fn law_plain_instance_name(i: InstanceView)
    requires
        is_plain(i),
    ensures
        instance_name(i) == def_name(instance_def(i)),
{
}

} // verus!
