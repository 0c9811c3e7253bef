//! Scan blockchain transactions for human-readable text hidden inside
//! hex-encoded script fields.
//!
//! The library decodes candidate hex payloads to bytes, interprets them as
//! text, and surfaces those that consist entirely of printable ASCII as
//! labeled messages (`Coinbase:`, `ScriptSig:`, `OP_RETURN:`,
//! `ScriptPubKey:`), in a fixed deterministic order.

pub mod ascii;
pub mod codec;
pub mod scan;
pub mod tx;
