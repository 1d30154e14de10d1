//! The error of a bridged call.

use vstd::prelude::*;

verus! {

/// The failure of a bridged call, as it is handed to a host.
#[derive(Debug, Clone, PartialEq, Eq)]
pub enum BridgeError {
    /// An argument could not be converted for the wrapped function.
    InvalidArgument,
    /// An internal fault was contained; the text describes it.
    Panic(String),
}

} // verus!
