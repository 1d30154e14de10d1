//! The plan of a C entry point.

use vstd::prelude::*;
use vstd::string::StringExecFns;
use crate::descriptor::{
    Descriptor, GenError, GenErrorKind, InputArg, Location, ResultKind, inputs_of, inputs_ok,
    is_generation_error, lower_inputs, missing_result,
};

verus! {

/// How a C entry point hands back the result.
#[derive(Debug, Clone, PartialEq, Eq)]
pub enum FfiOutput {
    /// No result.
    Nothing,
    /// Written through an out-parameter of the converted result type.
    OutParam { ty: String },
    /// Dropped after a failure is passed on.
    Discard,
    /// Written through a byte pointer and a length out-parameter.
    ByteBuffer,
}

/// A parameter of a C entry point.
#[derive(Debug, Clone, PartialEq, Eq)]
pub enum FfiParam {
    /// A value in the C form of `ty`; for a slice, its data pointer.
    Value { name: String, ty: String },
    /// The length that goes with the slice pointer before it.
    Length { name: String },
}

impl FfiParam {
    /// The name, and the declared type for a value.
    pub open spec fn view(self) -> (Seq<char>, Option<Seq<char>>) {
        match self {
            FfiParam::Value { name, ty } => (name@, Some(ty@)),
            FfiParam::Length { name } => (name@, None),
        }
    }
}

/// How an entry point rebuilds one argument of the wrapped function.
#[derive(Debug, Clone, PartialEq, Eq)]
pub enum FfiConversion {
    /// From a pointer and a length, into a sized view.
    Sized { name: String, ty: String, len_name: String },
    /// Borrowed into staging storage, then loaded from it.
    BorrowLoad { name: String, ty: String },
}

/// A planned C entry point.
#[derive(Debug, Clone, PartialEq, Eq)]
pub struct FfiEntryPoint {
    /// The exported symbol.
    pub symbol: String,
    /// The function it wraps.
    pub function: String,
    pub output: FfiOutput,
    pub params: Vec<FfiParam>,
    /// One for each argument of the wrapped function after the context, in order.
    pub conversions: Vec<FfiConversion>,
    /// The context is passed as the first argument.
    pub passes_env: bool,
    /// The wrapped function is async and is driven to completion at once.
    pub expect_ready: bool,
}

/// The name of the length parameter of a slice parameter.
pub open spec fn len_name(name: Seq<char>) -> Seq<char> {
    name + "_len"@
}

/// The output of a C entry point; `None` where a result type is missing.
pub open spec fn ffi_output_spec(kind: ResultKind, return_type: Option<String>) -> Option<
    FfiOutput,
> {
    match (kind, return_type) {
        (ResultKind::Regular, None) => Some(FfiOutput::Nothing),
        (ResultKind::Regular, Some(ty)) => Some(FfiOutput::OutParam { ty }),
        (ResultKind::Void, None) => Some(FfiOutput::Nothing),
        (ResultKind::Void, Some(_)) => Some(FfiOutput::Discard),
        (ResultKind::Buffer, Some(_)) => Some(FfiOutput::ByteBuffer),
        (ResultKind::Buffer, None) => None,
    }
}

/// The C parameters of one input: a slice becomes a pointer and a length.
pub open spec fn ffi_lowered(a: InputArg) -> Seq<(Seq<char>, Option<Seq<char>>)> {
    if a.is_slice {
        seq![(a.name@, Some(a.ty@)), (len_name(a.name@), None)]
    } else {
        seq![(a.name@, Some(a.ty@))]
    }
}

/// The C parameters of a list of inputs, in order.
pub open spec fn ffi_params_of(s: Seq<InputArg>) -> Seq<(Seq<char>, Option<Seq<char>>)>
    decreases s.len(),
{
    if s.len() == 0 {
        seq![]
    } else {
        ffi_params_of(s.drop_last()) + ffi_lowered(s.last())
    }
}

/// The conversion of one input.
pub open spec fn ffi_conversion_matches(c: FfiConversion, a: InputArg) -> bool {
    match c {
        FfiConversion::Sized { name, ty, len_name: l } => a.is_slice && name == a.name && ty
            == a.ty && l@ == len_name(a.name@),
        FfiConversion::BorrowLoad { name, ty } => !a.is_slice && name == a.name && ty == a.ty,
    }
}

/// The symbol of a C entry point, from the snake-case form of its name.
pub open spec fn ffi_symbol_text(snake_name: Seq<char>) -> Seq<char> {
    "signal_"@ + snake_name
}

/// What `heck` makes of a name in snake case.
pub uninterp spec fn snake_case_of(s: Seq<char>) -> Seq<char>;

/// Relies on `heck::SnakeCase::to_snake_case` for `str`: the words of the
/// name in lower case, joined by underscores; it depends on the text alone.
#[verifier::external_body]
fn snake_case(s: &str) -> (r: String)
    ensures
        r@ == snake_case_of(s@),
{
    heck::SnakeCase::to_snake_case(s)
}

/// The exported name of a function for the C target: its name in snake case.
pub fn name_from_ident(ident: &str) -> (r: String)
    ensures
        r@ == snake_case_of(ident@),
{
    snake_case(ident)
}

/// The symbol of a C entry point, from the snake-case form of its name.
pub fn ffi_symbol(snake_name: &str) -> (r: String)
    ensures
        r@ == ffi_symbol_text(snake_name@),
{
    let mut symbol = String::from_str("signal_");
    symbol.append(snake_name);
    symbol
}

/// Picks the output of a C entry point.
pub fn ffi_output(kind: ResultKind, return_type: &Option<String>) -> (r: Result<FfiOutput, GenError>)
    ensures
        match ffi_output_spec(kind, *return_type) {
            Some(o) => r == Ok::<FfiOutput, GenError>(o),
            None => r == Err::<FfiOutput, GenError>(
                GenError { kind: GenErrorKind::MissingResultType, location: Location::Signature },
            ),
        },
{
    match (kind, return_type) {
        (ResultKind::Regular, None) => Ok(FfiOutput::Nothing),
        (ResultKind::Regular, Some(ty)) => Ok(FfiOutput::OutParam { ty: ty.clone() }),
        (ResultKind::Void, None) => Ok(FfiOutput::Nothing),
        (ResultKind::Void, Some(_)) => Ok(FfiOutput::Discard),
        (ResultKind::Buffer, Some(_)) => Ok(FfiOutput::ByteBuffer),
        (ResultKind::Buffer, None) => Err(
            GenError { kind: GenErrorKind::MissingResultType, location: Location::Signature },
        ),
    }
}

/// Lowers the inputs to C parameters and to the conversions that rebuild
/// the arguments.
pub fn ffi_lower(inputs: &Vec<InputArg>) -> (r: (Vec<FfiParam>, Vec<FfiConversion>))
    ensures
        r.0@.map_values(|p: FfiParam| p.view()) == ffi_params_of(inputs@),
        r.1@.len() == inputs@.len(),
        forall|i: int| 0 <= i < inputs@.len() ==> ffi_conversion_matches(#[trigger] r.1@[i], inputs@[i]),
{
    let mut params: Vec<FfiParam> = Vec::new();
    let mut conversions: Vec<FfiConversion> = Vec::new();
    let mut i: usize = 0;
    while i < inputs.len()
        invariant
            0 <= i <= inputs@.len(),
            params@.map_values(|p: FfiParam| p.view()) == ffi_params_of(inputs@.take(i as int)),
            conversions@.len() == i,
            forall|j: int| 0 <= j < i ==> ffi_conversion_matches(#[trigger] conversions@[j], inputs@[j]),
        decreases inputs@.len() - i,
    {
        let a = &inputs[i];
        assert(inputs@.take(i + 1).drop_last() =~= inputs@.take(i as int));
        let ghost before = params@;
        if a.is_slice {
            let mut len = a.name.clone();
            len.append("_len");
            params.push(FfiParam::Value { name: a.name.clone(), ty: a.ty.clone() });
            params.push(FfiParam::Length { name: len.clone() });
            conversions.push(FfiConversion::Sized { name: a.name.clone(), ty: a.ty.clone(), len_name: len });
        } else {
            params.push(FfiParam::Value { name: a.name.clone(), ty: a.ty.clone() });
            conversions.push(FfiConversion::BorrowLoad { name: a.name.clone(), ty: a.ty.clone() });
        }
        assert(params@.map_values(|p: FfiParam| p.view()) =~= before.map_values(|p: FfiParam| p.view()) + ffi_lowered(inputs@[i as int]));
        i = i + 1;
    }
    assert(inputs@.take(inputs@.len() as int) =~= inputs@);
    (params, conversions)
}

/// Plans the C entry point of a function: symbol `signal_` and the name in
/// snake case, one C parameter per input (two for a slice), the output
/// chosen by the result kind, and the async flag carried over.
pub fn bridge_fn(d: &Descriptor) -> (r: Result<FfiEntryPoint, GenError>)
    ensures
        r is Err <==> missing_result(*d) || !inputs_ok(*d),
        r matches Err(e) ==> is_generation_error(*d, e),
        r matches Ok(ep) ==> {
            &&& ep.symbol@ == ffi_symbol_text(snake_case_of(d.name@))
            &&& ep.function == d.name
            &&& Some(ep.output) == ffi_output_spec(d.result_kind, d.return_type)
            &&& ep.params@.map_values(|p: FfiParam| p.view()) == ffi_params_of(inputs_of(*d))
            &&& ep.conversions@.len() == inputs_of(*d).len()
            &&& forall|i: int|
                0 <= i < inputs_of(*d).len() ==> ffi_conversion_matches(
                    #[trigger] ep.conversions@[i],
                    inputs_of(*d)[i],
                )
            &&& ep.passes_env == d.needs_env
            &&& ep.expect_ready == d.is_async
        },
{
    let output = ffi_output(d.result_kind, &d.return_type)?;
    let inputs = lower_inputs(d)?;
    let (params, conversions) = ffi_lower(&inputs);
    let snake = name_from_ident(d.name.as_str());
    Ok(
        FfiEntryPoint {
            symbol: ffi_symbol(snake.as_str()),
            function: d.name.clone(),
            output,
            params,
            conversions,
            passes_env: d.needs_env,
            expect_ready: d.is_async,
        },
    )
}

} // verus!
