//! The plan of an event-loop addon entry point.

use vstd::prelude::*;
use vstd::string::StringExecFns;
use crate::descriptor::{
    Descriptor, GenError, GenErrorKind, InputArg, Location, Param, ResultKind, inputs_of,
    inputs_ok, is_generation_error, lower_inputs, missing_result, skipped,
};

verus! {

/// How an addon entry point runs the wrapped function.
#[derive(Debug, Clone, Copy, PartialEq, Eq, Structural)]
pub enum NodeCall {
    /// Arguments are borrowed from the call context and the result is
    /// converted before returning.
    Sync,
    /// Arguments are captured in an owned form, a promise is returned, and
    /// the promise is settled when the wrapped function completes.
    Async,
}

/// A planned addon entry point.
#[derive(Debug, Clone, PartialEq, Eq)]
pub struct NodeEntryPoint {
    /// The name of the generated function.
    pub symbol: String,
    /// The name under which the function is registered with the host.
    pub registration: String,
    /// The function it wraps.
    pub function: String,
    /// The host arguments, by position.
    pub inputs: Vec<InputArg>,
    pub call: NodeCall,
    /// The context is passed as the first argument.
    pub passes_env: bool,
    /// The signature comment for static-analysis tools.
    pub annotation: String,
}

/// The declared result type in the annotation, before any promise wrapper;
/// `None` where a result type is missing.
pub open spec fn node_result_base(kind: ResultKind, return_type: Option<String>) -> Option<
    Seq<char>,
> {
    match (kind, return_type) {
        (ResultKind::Regular, None) => Some("()"@),
        (ResultKind::Regular, Some(ty)) => Some(ty@),
        (ResultKind::Void, _) => Some("()"@),
        (ResultKind::Buffer, Some(_)) => Some("Buffer"@),
        (ResultKind::Buffer, None) => None,
    }
}

/// The result type in the annotation: an async function's is a promise.
pub open spec fn node_result_text(base: Seq<char>, is_async: bool) -> Seq<char> {
    if is_async {
        "Promise<"@ + base + ">"@
    } else {
        base
    }
}

/// Texts joined with `, `.
pub open spec fn joined(s: Seq<Seq<char>>) -> Seq<char>
    decreases s.len(),
{
    if s.len() == 0 {
        seq![]
    } else if s.len() == 1 {
        s[0]
    } else {
        joined(s.drop_last()) + ", "@ + s.last()
    }
}

/// The source texts of the parameters `from..to`.
pub open spec fn sources(params: Seq<Param>, from: int, to: int) -> Seq<Seq<char>> {
    params.subrange(from, to).map_values(|p: Param| p.source@)
}

/// The annotation of a function: `ts: export function name(args): result`.
pub open spec fn annotation_text(name: Seq<char>, args: Seq<char>, result: Seq<char>) -> Seq<char> {
    "ts: export function "@ + name + "("@ + args + "): "@ + result
}

/// The registration name of a function for the addon target: its name.
pub fn name_from_ident(ident: &str) -> (r: String)
    ensures
        r@ == ident@,
{
    String::from_str(ident)
}

/// The name of the generated function: `node_` and the name.
pub fn node_symbol(name: &str) -> (r: String)
    ensures
        r@ == "node_"@ + name@,
{
    let mut symbol = String::from_str("node_");
    symbol.append(name);
    symbol
}

/// Writes the result type of the annotation.
pub fn node_result_type(kind: ResultKind, return_type: &Option<String>, is_async: bool) -> (r: Result<
    String,
    GenError,
>)
    ensures
        match node_result_base(kind, *return_type) {
            Some(base) => r matches Ok(t) && t@ == node_result_text(base, is_async),
            None => r == Err::<String, GenError>(
                GenError { kind: GenErrorKind::MissingResultType, location: Location::Signature },
            ),
        },
{
    let base = match (kind, return_type) {
        (ResultKind::Regular, None) => String::from_str("()"),
        (ResultKind::Regular, Some(ty)) => ty.clone(),
        (ResultKind::Void, _) => String::from_str("()"),
        (ResultKind::Buffer, Some(_)) => String::from_str("Buffer"),
        (ResultKind::Buffer, None) => {
            return Err(
                GenError { kind: GenErrorKind::MissingResultType, location: Location::Signature },
            );
        },
    };
    if is_async {
        let mut text = String::from_str("Promise<");
        text.append(base.as_str());
        text.append(">");
        Ok(text)
    } else {
        Ok(base)
    }
}

/// Joins the source texts of the parameters from `start` on with `, `.
pub fn join_sources(params: &Vec<Param>, start: usize) -> (r: String)
    requires
        start <= params@.len(),
    ensures
        r@ == joined(sources(params@, start as int, params@.len() as int)),
{
    let mut out = String::new();
    let mut i: usize = start;
    while i < params.len()
        invariant
            start <= i <= params@.len(),
            out@ == joined(sources(params@, start as int, i as int)),
        decreases params@.len() - i,
    {
        let ghost before = sources(params@, start as int, i as int);
        assert(sources(params@, start as int, i + 1) =~= before.push(params@[i as int].source@));
        assert(before.push(params@[i as int].source@).drop_last() =~= before);
        if i > start {
            out.append(", ");
        }
        out.append(params[i].source.as_str());
        i = i + 1;
    }
    out
}

/// Writes the annotation of a function.
pub fn annotation(name: &str, args: &str, result: &str) -> (r: String)
    ensures
        r@ == annotation_text(name@, args@, result@),
{
    let mut text = String::from_str("ts: export function ");
    text.append(name);
    text.append("(");
    text.append(args);
    text.append("): ");
    text.append(result);
    text
}

/// Plans the addon entry point of a function: registered under its own
/// name, one host argument per input, a promise for an async function, and
/// an annotation that lists the parameters as written and the result type.
pub fn bridge_fn(d: &Descriptor) -> (r: Result<NodeEntryPoint, GenError>)
    ensures
        r is Err <==> missing_result(*d) || !inputs_ok(*d),
        r matches Err(e) ==> is_generation_error(*d, e),
        r matches Ok(ep) ==> {
            &&& ep.symbol@ == "node_"@ + d.name@
            &&& ep.registration@ == d.name@
            &&& ep.function == d.name
            &&& ep.inputs@ == inputs_of(*d)
            &&& ep.call == if d.is_async {
                NodeCall::Async
            } else {
                NodeCall::Sync
            }
            &&& ep.passes_env == d.needs_env
            &&& ep.annotation@ == annotation_text(
                d.name@,
                joined(sources(d.params@, skipped(*d), d.params@.len() as int)),
                node_result_text(node_result_base(d.result_kind, d.return_type)->Some_0, d.is_async),
            )
        },
{
    let result = node_result_type(d.result_kind, &d.return_type, d.is_async)?;
    let inputs = lower_inputs(d)?;
    let start: usize = if d.needs_env && d.params.len() > 0 {
        1
    } else {
        0
    };
    let args = join_sources(&d.params, start);
    let registration = name_from_ident(d.name.as_str());
    Ok(
        NodeEntryPoint {
            symbol: node_symbol(d.name.as_str()),
            annotation: annotation(registration.as_str(), args.as_str(), result.as_str()),
            registration,
            function: d.name.clone(),
            inputs,
            call: if d.is_async {
                NodeCall::Async
            } else {
                NodeCall::Sync
            },
            passes_env: d.needs_env,
        },
    )
}

} // verus!
