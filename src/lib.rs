//! Bridge support for exposing one library function to several host
//! calling conventions: entry-point planning per target, the conditional
//! reshaping of results, panic description and log forwarding.

pub mod capture;
pub mod descriptor;
pub mod error;
pub mod ffi_bridge;
pub mod jni_bridge;
pub mod jni_logger;
pub mod levels;
pub mod logger;
pub mod node_bridge;
pub mod panic_guard;
pub mod scalar;
pub mod transform_helper;
