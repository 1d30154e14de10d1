//! The signature descriptor that the generators take, and the lowering of
//! its parameters that all targets share.

use vstd::prelude::*;
use vstd::string::StringExecFns;

verus! {

/// How the result of a bridged function is handed back.
#[derive(Debug, Clone, Copy, PartialEq, Eq, Structural)]
pub enum ResultKind {
    /// Converted to the target's value.
    Regular,
    /// Dropped; only a failure is passed on.
    Void,
    /// Passed on as a byte buffer.
    Buffer,
}

/// The shape of one declared parameter.
#[derive(Debug, Clone, PartialEq, Eq)]
pub enum ParamShape {
    /// `name: ty`; `is_slice` when `ty` is a reference to a slice.
    Named { name: String, ty: String, is_slice: bool },
    /// A `self` parameter.
    Receiver,
    /// A destructuring pattern in place of a name.
    Pattern,
}

/// One declared parameter, with its source text.
#[derive(Debug, Clone, PartialEq, Eq)]
pub struct Param {
    pub shape: ParamShape,
    pub source: String,
}

/// The signature of a function to bridge: the sole input of the generators.
#[derive(Debug, Clone, PartialEq, Eq)]
pub struct Descriptor {
    pub name: String,
    pub params: Vec<Param>,
    pub return_type: Option<String>,
    pub is_async: bool,
    pub result_kind: ResultKind,
    /// The first parameter is the target's execution context, supplied by
    /// the entry point rather than by the host.
    pub needs_env: bool,
}

/// What is wrong with a descriptor.
#[derive(Debug, Clone, Copy, PartialEq, Eq, Structural)]
pub enum GenErrorKind {
    MissingResultType,
    ReceiverParameter,
    PatternParameter,
}

/// Where a defect stands: the signature as a whole, or a parameter by its
/// index among the declared parameters.
#[derive(Debug, Clone, Copy, PartialEq, Eq, Structural)]
pub enum Location {
    Signature,
    Parameter(usize),
}

/// A generation failure, attached to the construct at fault.
#[derive(Debug, Clone, Copy, PartialEq, Eq, Structural)]
pub struct GenError {
    pub kind: GenErrorKind,
    pub location: Location,
}

/// The diagnostic text of each kind of defect.
pub open spec fn gen_error_text(kind: GenErrorKind) -> Seq<char> {
    match kind {
        GenErrorKind::MissingResultType => "missing result type for bridge_fn_buffer"@,
        GenErrorKind::ReceiverParameter => "cannot have 'self' parameter"@,
        GenErrorKind::PatternParameter => "cannot use patterns in parameter"@,
    }
}

impl GenError {
    /// The diagnostic text.
    pub fn message(&self) -> (r: String)
        ensures
            r@ == gen_error_text(self.kind),
    {
        match self.kind {
            GenErrorKind::MissingResultType => String::from_str(
                "missing result type for bridge_fn_buffer",
            ),
            GenErrorKind::ReceiverParameter => String::from_str("cannot have 'self' parameter"),
            GenErrorKind::PatternParameter => String::from_str("cannot use patterns in parameter"),
        }
    }
}

/// A parameter that the host supplies: a plain name and its type.
#[derive(Debug, Clone, PartialEq, Eq)]
pub struct InputArg {
    pub name: String,
    pub ty: String,
    pub is_slice: bool,
}

/// How many leading parameters the entry point supplies itself.
pub open spec fn skipped(d: Descriptor) -> int {
    if d.needs_env && d.params@.len() > 0 {
        1
    } else {
        0
    }
}

/// The defect of a parameter, if it has one.
pub open spec fn param_defect(p: Param) -> Option<GenErrorKind> {
    match p.shape {
        ParamShape::Named { .. } => None,
        ParamShape::Receiver => Some(GenErrorKind::ReceiverParameter),
        ParamShape::Pattern => Some(GenErrorKind::PatternParameter),
    }
}

/// A `Buffer` result needs a result type.
pub open spec fn missing_result(d: Descriptor) -> bool {
    d.result_kind == ResultKind::Buffer && d.return_type is None
}

/// Every parameter that the host supplies has a plain name.
pub open spec fn inputs_ok(d: Descriptor) -> bool {
    forall|j: int| skipped(d) <= j < d.params@.len() ==> param_defect(#[trigger] d.params@[j]) is None
}

/// `e` is the defect of the first parameter supplied by the host that has one.
pub open spec fn is_first_defect(d: Descriptor, e: GenError) -> bool {
    exists|k: usize|
        {
            &&& e.location == Location::Parameter(k)
            &&& skipped(d) <= k < d.params@.len()
            &&& param_defect(d.params@[k as int]) == Some(e.kind)
            &&& forall|j: int| skipped(d) <= j < k ==> param_defect(#[trigger] d.params@[j]) is None
        }
}

/// The error a generator reports for a descriptor that it refuses: a
/// missing result type first, else the first malformed parameter.
pub open spec fn is_generation_error(d: Descriptor, e: GenError) -> bool {
    if missing_result(d) {
        e == GenError { kind: GenErrorKind::MissingResultType, location: Location::Signature }
    } else {
        is_first_defect(d, e)
    }
}

/// The input that a plainly named parameter gives.
pub open spec fn input_of(p: Param) -> InputArg {
    match p.shape {
        ParamShape::Named { name, ty, is_slice } => InputArg { name, ty, is_slice },
        _ => InputArg { name: arbitrary(), ty: arbitrary(), is_slice: false },
    }
}

/// The parameters that the host supplies, in declared order.
pub open spec fn inputs_of(d: Descriptor) -> Seq<InputArg> {
    d.params@.subrange(skipped(d), d.params@.len() as int).map_values(|p: Param| input_of(p))
}

/// Skips the context parameter where there is one, and takes the name and
/// type of every other parameter; a receiver or a pattern is refused at its
/// place.
pub fn lower_inputs(d: &Descriptor) -> (r: Result<Vec<InputArg>, GenError>)
    ensures
        r is Ok <==> inputs_ok(*d),
        r matches Ok(v) ==> v@ == inputs_of(*d),
        r matches Err(e) ==> is_first_defect(*d, e),
{
    let start: usize = if d.needs_env && d.params.len() > 0 {
        1
    } else {
        0
    };
    let mut inputs: Vec<InputArg> = Vec::new();
    let mut i: usize = start;
    while i < d.params.len()
        invariant
            start == skipped(*d),
            start <= i <= d.params@.len(),
            inputs@.len() == i - start,
            forall|j: int| start <= j < i ==> param_defect(#[trigger] d.params@[j]) is None,
            forall|j: int|
                0 <= j < inputs@.len() ==> #[trigger] inputs@[j] == input_of(d.params@[j + start]),
        decreases d.params@.len() - i,
    {
        match &d.params[i].shape {
            ParamShape::Named { name, ty, is_slice } => {
                inputs.push(InputArg { name: name.clone(), ty: ty.clone(), is_slice: *is_slice });
            },
            ParamShape::Receiver => {
                return Err(
                    GenError {
                        kind: GenErrorKind::ReceiverParameter,
                        location: Location::Parameter(i),
                    },
                );
            },
            ParamShape::Pattern => {
                return Err(
                    GenError {
                        kind: GenErrorKind::PatternParameter,
                        location: Location::Parameter(i),
                    },
                );
            },
        }
        i = i + 1;
    }
    assert(inputs@ =~= inputs_of(*d));
    Ok(inputs)
}

} // verus!
