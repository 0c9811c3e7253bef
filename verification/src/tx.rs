//! The transaction data model: an immutable snapshot of one blockchain
//! transaction, with every field optional except the hash and the
//! input/output lists, since the upstream source may omit any of them.
//! Absence is not an error.

use vstd::prelude::*;

verus! {

/// The locking script attached to an output: optional disassembly,
/// optional raw hex payload, and an optional classification tag
/// (`"nulldata"` marks an OP_RETURN output).
pub struct ScriptPubKey {
    pub disassembly: Option<String>,
    pub hex: Option<String>,
    pub script_type: Option<String>,
}

/// The unlocking script attached to an input: optional disassembly and
/// optional raw hex payload.
pub struct ScriptSig {
    pub disassembly: Option<String>,
    pub hex: Option<String>,
}

/// A transaction input: either a coinbase marker carrying arbitrary hex
/// data, or a reference to a previous output together with an optional
/// unlocking script.
pub struct Vin {
    pub coinbase: Option<String>,
    pub txid: Option<String>,
    pub vout: Option<u32>,
    pub script_sig: Option<ScriptSig>,
    pub sequence: Option<u64>,
}

/// A transaction output: an amount in base units, an output index, and an
/// optional locking script.
pub struct Vout {
    pub value: Option<u64>,
    pub n: Option<u32>,
    pub script_pub_key: Option<ScriptPubKey>,
}

/// One transaction: its hash, optional raw serialized form, and its
/// ordered input and output lists.
pub struct Transaction {
    pub hash: String,
    pub hex: Option<String>,
    pub vin: Vec<Vin>,
    pub vout: Vec<Vout>,
}

} // verus!
