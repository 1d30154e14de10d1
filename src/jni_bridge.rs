//! The plan of a managed-runtime entry point.

use vstd::prelude::*;
use vstd::string::{StrSliceExecFns, StringExecFns};
use crate::descriptor::{
    Descriptor, GenError, GenErrorKind, InputArg, Location, ResultKind, inputs_of, inputs_ok,
    is_generation_error, lower_inputs, missing_result,
};

verus! {

/// How a managed-runtime entry point hands back the result.
#[derive(Debug, Clone, PartialEq, Eq)]
pub enum JniOutput {
    /// Nothing is returned.
    Nothing,
    /// Returned in the host form of `ty`.
    Typed { ty: String },
    /// Returned as a host byte array.
    ByteArray,
}

/// A planned managed-runtime entry point. Each input is borrowed against
/// the host environment and then loaded.
#[derive(Debug, Clone, PartialEq, Eq)]
pub struct JniEntryPoint {
    /// The exported symbol.
    pub symbol: String,
    /// The function it wraps.
    pub function: String,
    pub output: JniOutput,
    /// The host arguments after the environment and the class, in order.
    pub inputs: Vec<InputArg>,
    /// The environment is passed as the first argument.
    pub passes_env: bool,
    /// The wrapped function is async and is driven to completion at once.
    pub expect_ready: bool,
}

/// A name with every underscore written `_1`, as the host's symbol
/// mangling requires.
pub open spec fn jni_escaped(s: Seq<char>) -> Seq<char>
    decreases s.len(),
{
    if s.len() == 0 {
        seq![]
    } else {
        jni_escaped(s.drop_last()) + if s.last() == '_' {
            "_1"@
        } else {
            seq![s.last()]
        }
    }
}

/// The symbol of a managed-runtime entry point, from its escaped name.
pub open spec fn jni_symbol_text(escaped: Seq<char>) -> Seq<char> {
    "Java_org_signal_client_internal_Native_"@ + escaped
}

/// The output of a managed-runtime entry point; `None` where a result type
/// is missing.
pub open spec fn jni_output_spec(kind: ResultKind, return_type: Option<String>) -> Option<
    JniOutput,
> {
    match (kind, return_type) {
        (ResultKind::Regular, None) => Some(JniOutput::Nothing),
        (ResultKind::Regular, Some(ty)) => Some(JniOutput::Typed { ty }),
        (ResultKind::Void, _) => Some(JniOutput::Nothing),
        (ResultKind::Buffer, Some(_)) => Some(JniOutput::ByteArray),
        (ResultKind::Buffer, None) => None,
    }
}

/// The exported name of a function for the managed runtime: every
/// underscore doubled as `_1`.
pub fn name_from_ident(ident: &str) -> (r: String)
    ensures
        r@ == jni_escaped(ident@),
{
    let n = ident.unicode_len();
    let mut out = String::new();
    let mut i: usize = 0;
    while i < n
        invariant
            n == ident@.len(),
            0 <= i <= n,
            out@ == jni_escaped(ident@.take(i as int)),
        decreases n - i,
    {
        assert(ident@.take(i + 1).drop_last() =~= ident@.take(i as int));
        if ident.get_char(i) == '_' {
            out.append("_1");
        } else {
            let c = ident.substring_char(i, i + 1);
            assert(c@ =~= seq![ident@[i as int]]);
            out.append(c);
        }
        i = i + 1;
    }
    assert(ident@.take(n as int) =~= ident@);
    out
}

/// The symbol of a managed-runtime entry point, from its escaped name.
pub fn jni_symbol(escaped: &str) -> (r: String)
    ensures
        r@ == jni_symbol_text(escaped@),
{
    let mut symbol = String::from_str("Java_org_signal_client_internal_Native_");
    symbol.append(escaped);
    symbol
}

/// Picks the output of a managed-runtime entry point.
pub fn jni_output(kind: ResultKind, return_type: &Option<String>) -> (r: Result<JniOutput, GenError>)
    ensures
        match jni_output_spec(kind, *return_type) {
            Some(o) => r == Ok::<JniOutput, GenError>(o),
            None => r == Err::<JniOutput, GenError>(
                GenError { kind: GenErrorKind::MissingResultType, location: Location::Signature },
            ),
        },
{
    match (kind, return_type) {
        (ResultKind::Regular, None) => Ok(JniOutput::Nothing),
        (ResultKind::Regular, Some(ty)) => Ok(JniOutput::Typed { ty: ty.clone() }),
        (ResultKind::Void, _) => Ok(JniOutput::Nothing),
        (ResultKind::Buffer, Some(_)) => Ok(JniOutput::ByteArray),
        (ResultKind::Buffer, None) => Err(
            GenError { kind: GenErrorKind::MissingResultType, location: Location::Signature },
        ),
    }
}

/// Plans the managed-runtime entry point of a function: symbol with the
/// package prefix and the escaped name, one host argument per input, the
/// output chosen by the result kind, and the async flag carried over.
pub fn bridge_fn(d: &Descriptor) -> (r: Result<JniEntryPoint, GenError>)
    ensures
        r is Err <==> missing_result(*d) || !inputs_ok(*d),
        r matches Err(e) ==> is_generation_error(*d, e),
        r matches Ok(ep) ==> {
            &&& ep.symbol@ == jni_symbol_text(jni_escaped(d.name@))
            &&& ep.function == d.name
            &&& Some(ep.output) == jni_output_spec(d.result_kind, d.return_type)
            &&& ep.inputs@ == inputs_of(*d)
            &&& ep.passes_env == d.needs_env
            &&& ep.expect_ready == d.is_async
        },
{
    let output = jni_output(d.result_kind, &d.return_type)?;
    let inputs = lower_inputs(d)?;
    let escaped = name_from_ident(d.name.as_str());
    Ok(
        JniEntryPoint {
            symbol: jni_symbol(escaped.as_str()),
            function: d.name.clone(),
            output,
            inputs,
            passes_env: d.needs_env,
            expect_ready: d.is_async,
        },
    )
}

} // verus!
