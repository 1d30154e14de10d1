//! The description of a contained fault.

use vstd::prelude::*;
use vstd::string::StringExecFns;
use crate::error::BridgeError;

verus! {

/// The text given for a fault whose payload is not a string.
pub open spec fn unknown_panic_text() -> Seq<char> {
    "break here to debug"@
}

/// The payload of a contained fault, as far as it can be described: a
/// string payload (`&str` or `String`) or anything else.
#[derive(Debug, Clone, PartialEq, Eq)]
pub enum PanicPayload {
    Text(String),
    Opaque,
}

/// The description of a payload: the string itself, or the fixed
/// placeholder for any other payload.
pub open spec fn panic_description(payload: PanicPayload) -> Seq<char> {
    match payload {
        PanicPayload::Text(s) => s@,
        PanicPayload::Opaque => unknown_panic_text(),
    }
}

/// Describes a contained fault.
pub fn describe_panic(payload: &PanicPayload) -> (r: String)
    ensures
        r@ == panic_description(*payload),
{
    match payload {
        PanicPayload::Text(s) => s.clone(),
        PanicPayload::Opaque => String::from_str("break here to debug"),
    }
}

/// The error that a recoverable call site returns for a contained fault.
pub fn panic_error(payload: &PanicPayload) -> (r: BridgeError)
    ensures
        r matches BridgeError::Panic(s) && s@ == panic_description(*payload),
{
    BridgeError::Panic(describe_panic(payload))
}

} // verus!
