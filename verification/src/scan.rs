//! The message scanner: walk one transaction's inputs and outputs in
//! order and collect every hidden message, labeled by the field it came
//! from.

use vstd::prelude::*;
use vstd::string::{StrSliceExecFns, StringExecFns};
use crate::codec::{extract_hidden_message, hidden_message};
use crate::tx::{ScriptPubKey, ScriptSig, Transaction, Vin, Vout};

verus! {

/// The classification tag marks an OP_RETURN (nulldata) output.
pub open spec fn is_nulldata_tag(t: Option<String>) -> bool {
    match t {
        Some(tag) => tag@ == "nulldata"@,
        None => false,
    }
}

/// The messages one input contributes: its coinbase payload's hidden
/// message labeled `Coinbase: `, then its unlocking script's hidden
/// message labeled `ScriptSig: `; a missing field or a payload that hides
/// nothing contributes no message.
pub open spec fn vin_messages(v: Vin) -> Seq<Seq<char>> {
    (match v.coinbase {
        Some(cb) => match hidden_message(cb@) {
            Some(m) => seq!["Coinbase: "@ + m],
            None => Seq::empty(),
        },
        None => Seq::empty(),
    }) + (match v.script_sig {
        Some(ss) => match ss.hex {
            Some(h) => match hidden_message(h@) {
                Some(m) => seq!["ScriptSig: "@ + m],
                None => Seq::empty(),
            },
            None => Seq::empty(),
        },
        None => Seq::empty(),
    })
}

/// The messages one output contributes: its locking script's hidden
/// message, labeled `OP_RETURN: ` when the script is classified
/// `"nulldata"` and `ScriptPubKey: ` otherwise.
pub open spec fn vout_messages(v: Vout) -> Seq<Seq<char>> {
    match v.script_pub_key {
        Some(spk) => match spk.hex {
            Some(h) => match hidden_message(h@) {
                Some(m) => if is_nulldata_tag(spk.script_type) {
                    seq!["OP_RETURN: "@ + m]
                } else {
                    seq!["ScriptPubKey: "@ + m]
                },
                None => Seq::empty(),
            },
            None => Seq::empty(),
        },
        None => Seq::empty(),
    }
}

/// All messages contributed by a list of inputs, in input order.
pub open spec fn vins_messages(vs: Seq<Vin>) -> Seq<Seq<char>>
    decreases vs.len(),
{
    if vs.len() == 0 {
        Seq::empty()
    } else {
        vin_messages(vs[0]) + vins_messages(vs.drop_first())
    }
}

/// All messages contributed by a list of outputs, in output order.
pub open spec fn vouts_messages(vs: Seq<Vout>) -> Seq<Seq<char>>
    decreases vs.len(),
{
    if vs.len() == 0 {
        Seq::empty()
    } else {
        vout_messages(vs[0]) + vouts_messages(vs.drop_first())
    }
}

/// Every message hidden in a transaction: all input-derived messages, in
/// input order, followed by all output-derived messages, in output order.
pub open spec fn transaction_messages(tx: Transaction) -> Seq<Seq<char>> {
    vins_messages(tx.vin@) + vouts_messages(tx.vout@)
}

proof fn lemma_vins_messages_push(s: Seq<Vin>, x: Vin)
    ensures
        vins_messages(s.push(x)) == vins_messages(s) + vin_messages(x),
    decreases s.len(),
{
    if s.len() == 0 {
        assert(s.push(x).drop_first() =~= Seq::<Vin>::empty());
        assert(vins_messages(Seq::<Vin>::empty()) == Seq::<Seq<char>>::empty());
        assert(s.push(x)[0] == x);
        assert(vins_messages(s.push(x)) == vin_messages(x) + Seq::<Seq<char>>::empty());
        assert(vins_messages(s.push(x)) =~= vins_messages(s) + vin_messages(x));
    } else {
        assert(s.push(x).drop_first() =~= s.drop_first().push(x));
        lemma_vins_messages_push(s.drop_first(), x);
        assert(vins_messages(s.push(x)) =~= vins_messages(s) + vin_messages(x));
    }
}

proof fn lemma_vouts_messages_push(s: Seq<Vout>, x: Vout)
    ensures
        vouts_messages(s.push(x)) == vouts_messages(s) + vout_messages(x),
    decreases s.len(),
{
    if s.len() == 0 {
        assert(s.push(x).drop_first() =~= Seq::<Vout>::empty());
        assert(vouts_messages(Seq::<Vout>::empty()) == Seq::<Seq<char>>::empty());
        assert(s.push(x)[0] == x);
        assert(vouts_messages(s.push(x)) == vout_messages(x) + Seq::<Seq<char>>::empty());
        assert(vouts_messages(s.push(x)) =~= vouts_messages(s) + vout_messages(x));
    } else {
        assert(s.push(x).drop_first() =~= s.drop_first().push(x));
        lemma_vouts_messages_push(s.drop_first(), x);
        assert(vouts_messages(s.push(x)) =~= vouts_messages(s) + vout_messages(x));
    }
}

/// The input carries no candidate payload: no coinbase data and no
/// unlocking-script hex.
pub open spec fn vin_has_no_hex(v: Vin) -> bool {
    v.coinbase is None && match v.script_sig {
        Some(ss) => ss.hex is None,
        None => true,
    }
}

/// The output carries no candidate payload: no locking-script hex.
pub open spec fn vout_has_no_hex(v: Vout) -> bool {
    match v.script_pub_key {
        Some(spk) => spk.hex is None,
        None => true,
    }
}

proof fn lemma_vins_no_hex_no_messages(vs: Seq<Vin>)
    requires
        forall|i: int| 0 <= i < vs.len() ==> vin_has_no_hex(#[trigger] vs[i]),
    ensures
        vins_messages(vs) == Seq::<Seq<char>>::empty(),
    decreases vs.len(),
{
    if vs.len() != 0 {
        assert(vin_has_no_hex(vs[0]));
        assert(vin_messages(vs[0]) =~= Seq::<Seq<char>>::empty());
        lemma_vins_no_hex_no_messages(vs.drop_first());
        assert(vins_messages(vs) =~= Seq::<Seq<char>>::empty());
    }
}

proof fn lemma_vouts_no_hex_no_messages(vs: Seq<Vout>)
    requires
        forall|i: int| 0 <= i < vs.len() ==> vout_has_no_hex(#[trigger] vs[i]),
    ensures
        vouts_messages(vs) == Seq::<Seq<char>>::empty(),
    decreases vs.len(),
{
    if vs.len() != 0 {
        assert(vout_has_no_hex(vs[0]));
        assert(vout_messages(vs[0]) =~= Seq::<Seq<char>>::empty());
        lemma_vouts_no_hex_no_messages(vs.drop_first());
        assert(vouts_messages(vs) =~= Seq::<Seq<char>>::empty());
    }
}

/// A transaction with no hex payload on any input or output hides no
/// message: the scan yields the empty sequence.
pub proof fn lemma_no_hex_fields_no_messages(tx: Transaction)
    requires
        forall|i: int| 0 <= i < tx.vin@.len() ==> vin_has_no_hex(#[trigger] tx.vin@[i]),
        forall|i: int| 0 <= i < tx.vout@.len() ==> vout_has_no_hex(#[trigger] tx.vout@[i]),
    ensures
        transaction_messages(tx) == Seq::<Seq<char>>::empty(),
{
    lemma_vins_no_hex_no_messages(tx.vin@);
    lemma_vouts_no_hex_no_messages(tx.vout@);
    assert(transaction_messages(tx) =~= Seq::<Seq<char>>::empty());
}

/// The scan's order is stable: every input-derived message precedes every
/// output-derived message, and within each group the messages come in
/// original field order — each input or output appends its own messages
/// after those of the fields before it.
pub proof fn lemma_scan_order(tx: Transaction)
    ensures
        transaction_messages(tx) == vins_messages(tx.vin@) + vouts_messages(tx.vout@),
        forall|i: int|
            0 <= i < tx.vin@.len() ==> vins_messages(#[trigger] tx.vin@.take(i + 1))
                == vins_messages(tx.vin@.take(i)) + vin_messages(tx.vin@[i]),
        forall|i: int|
            0 <= i < tx.vout@.len() ==> vouts_messages(#[trigger] tx.vout@.take(i + 1))
                == vouts_messages(tx.vout@.take(i)) + vout_messages(tx.vout@[i]),
{
    assert forall|i: int| 0 <= i < tx.vin@.len() implies vins_messages(
        #[trigger] tx.vin@.take(i + 1),
    ) == vins_messages(tx.vin@.take(i)) + vin_messages(tx.vin@[i]) by {
        lemma_vins_messages_push(tx.vin@.take(i), tx.vin@[i]);
        assert(tx.vin@.take(i).push(tx.vin@[i]) =~= tx.vin@.take(i + 1));
    }
    assert forall|i: int| 0 <= i < tx.vout@.len() implies vouts_messages(
        #[trigger] tx.vout@.take(i + 1),
    ) == vouts_messages(tx.vout@.take(i)) + vout_messages(tx.vout@[i]) by {
        lemma_vouts_messages_push(tx.vout@.take(i), tx.vout@[i]);
        assert(tx.vout@.take(i).push(tx.vout@[i]) =~= tx.vout@.take(i + 1));
    }
}

/// Collects every hidden message of `tx`, each labeled by the field it
/// came from, in the scanner's fixed order.  Always returns a sequence:
/// lookup and decode failures contribute no message and never abort the
/// scan.
pub fn check_transaction_for_messages(tx: &Transaction) -> (r: Vec<String>)
    ensures
        r@.map_values(|m: String| m@) == transaction_messages(*tx),
{
    let mut messages: Vec<String> = Vec::new();
    let nulldata = String::from_str("nulldata");

    let mut i: usize = 0;
    while i < tx.vin.len()
        invariant
            i <= tx.vin@.len(),
            messages@.map_values(|m: String| m@) == vins_messages(tx.vin@.take(i as int)),
        decreases tx.vin@.len() - i,
    {
        let ghost pre = messages@.map_values(|m: String| m@);
        let vin = &tx.vin[i];

        if let Some(coinbase) = &vin.coinbase {
            if let Some(message) = extract_hidden_message(coinbase.as_str()) {
                let mut labeled = String::from_str("Coinbase: ");
                labeled.append(message.as_str());
                messages.push(labeled);
                assert(messages@.map_values(|m: String| m@) =~= pre.push(labeled@));
            }
        }
        let ghost mid = messages@.map_values(|m: String| m@);

        if let Some(script_sig) = &vin.script_sig {
            if let Some(hex) = &script_sig.hex {
                if let Some(message) = extract_hidden_message(hex.as_str()) {
                    let mut labeled = String::from_str("ScriptSig: ");
                    labeled.append(message.as_str());
                    messages.push(labeled);
                    assert(messages@.map_values(|m: String| m@) =~= mid.push(labeled@));
                }
            }
        }
        assert(messages@.map_values(|m: String| m@) =~= pre + vin_messages(tx.vin@[i as int]));

        proof {
            lemma_vins_messages_push(tx.vin@.take(i as int), tx.vin@[i as int]);
            assert(tx.vin@.take(i as int).push(tx.vin@[i as int]) =~= tx.vin@.take(
                i as int + 1,
            ));
        }
        i += 1;
    }
    proof {
        assert(tx.vin@.take(i as int) =~= tx.vin@);
    }

    let mut j: usize = 0;
    while j < tx.vout.len()
        invariant
            j <= tx.vout@.len(),
            nulldata@ == "nulldata"@,
            messages@.map_values(|m: String| m@) == vins_messages(tx.vin@) + vouts_messages(
                tx.vout@.take(j as int),
            ),
        decreases tx.vout@.len() - j,
    {
        let ghost pre = messages@.map_values(|m: String| m@);
        let vout = &tx.vout[j];

        if let Some(script_pub_key) = &vout.script_pub_key {
            if let Some(hex) = &script_pub_key.hex {
                if let Some(message) = extract_hidden_message(hex.as_str()) {
                    let tagged = match &script_pub_key.script_type {
                        Some(tag) => tag.eq(&nulldata),
                        None => false,
                    };
                    assert(tagged == is_nulldata_tag(script_pub_key.script_type));
                    let mut labeled = if tagged {
                        String::from_str("OP_RETURN: ")
                    } else {
                        String::from_str("ScriptPubKey: ")
                    };
                    labeled.append(message.as_str());
                    messages.push(labeled);
                    assert(messages@.map_values(|m: String| m@) =~= pre.push(labeled@));
                }
            }
        }
        assert(messages@.map_values(|m: String| m@) =~= pre + vout_messages(
            tx.vout@[j as int],
        ));

        proof {
            lemma_vouts_messages_push(tx.vout@.take(j as int), tx.vout@[j as int]);
            assert(tx.vout@.take(j as int).push(tx.vout@[j as int]) =~= tx.vout@.take(
                j as int + 1,
            ));
        }
        j += 1;
    }
    proof {
        assert(tx.vout@.take(j as int) =~= tx.vout@);
    }
    messages
}

} // verus!
