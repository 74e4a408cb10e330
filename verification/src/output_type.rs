use vstd::prelude::*;

use crate::model::{GenericArgModel, PathArgsModel, ReturnTypeModel, TypeModel};
use crate::text::text_is;

verus! {

/// Why a polling method's return type is not `Poll<Output>`.
#[derive(Debug, Clone, Copy, PartialEq, Eq, Structural)]
pub enum OutputTypeError {
    /// The return type is not a path ending in `Poll`.
    NotPoll,
    /// `Poll<..>` has other than exactly one generic argument.
    WrongGenericCount,
    /// The single generic argument of `Poll<..>` is not a type.
    GenericNotType,
    /// `Poll` has no angle-bracketed argument.
    MissingOutput,
}

/// A return type the macro can read: a path return type has at least one segment.
pub open spec fn return_type_wf(ret: ReturnTypeModel) -> bool {
    ret matches ReturnTypeModel::Type(TypeModel::Path { segments, .. }) ==> segments@.len() > 0
}

/// The outcome of reading `Poll<Output>` off a return type: the handle of `Output`,
/// or why the return type has another shape.
pub open spec fn spec_output_type(ret: ReturnTypeModel) -> Result<usize, OutputTypeError> {
    match ret {
        ReturnTypeModel::Type(TypeModel::Path { segments, .. }) => {
            let last = segments@.last();
            if last.ident@ != "Poll"@ {
                Err(OutputTypeError::NotPoll)
            } else {
                match last.arguments {
                    PathArgsModel::AngleBracketed(args) => {
                        if args@.len() != 1 {
                            Err(OutputTypeError::WrongGenericCount)
                        } else {
                            match args@[0] {
                                GenericArgModel::Type { handle, .. } => Ok(handle),
                                GenericArgModel::Other => Err(OutputTypeError::GenericNotType),
                            }
                        }
                    },
                    _ => Err(OutputTypeError::MissingOutput),
                }
            }
        },
        _ => Err(OutputTypeError::NotPoll),
    }
}

impl OutputTypeError {
    /// The compile error message for this error.
    pub fn message(&self) -> (m: String)
        ensures
            m@ == match *self {
                OutputTypeError::NotPoll => "polling method must return a Poll value"@,
                OutputTypeError::WrongGenericCount => "Poll return type should have exactly 1 generic parameter"@,
                OutputTypeError::GenericNotType => "Error parsing generics of Poll type"@,
                OutputTypeError::MissingOutput => "Poll return type must include the <Output> type"@,
            },
    {
        match self {
            OutputTypeError::NotPoll => String::from_str("polling method must return a Poll value"),
            OutputTypeError::WrongGenericCount => String::from_str(
                "Poll return type should have exactly 1 generic parameter",
            ),
            OutputTypeError::GenericNotType => String::from_str("Error parsing generics of Poll type"),
            OutputTypeError::MissingOutput => String::from_str(
                "Poll return type must include the <Output> type",
            ),
        }
    }

    /// Whether the error points at the generic arguments of `Poll` rather
    /// than at the whole return type.
    pub fn at_generic_arguments(&self) -> (b: bool)
        ensures
            b == (*self is WrongGenericCount || *self is GenericNotType),
    {
        match self {
            OutputTypeError::WrongGenericCount | OutputTypeError::GenericNotType => true,
            _ => false,
        }
    }
}

/// Given a return type of the form `Poll<Output>`, gives the handle of `Output`,
/// or the error that says why the return type has another form.
pub fn extract_output_type(ret: &ReturnTypeModel) -> (r: Result<usize, OutputTypeError>)
    requires
        return_type_wf(*ret),
    ensures
        r == spec_output_type(*ret),
{
    match ret {
        ReturnTypeModel::Type(TypeModel::Path { segments, .. }) => {
            let last = &segments[segments.len() - 1];
            if !text_is(&last.ident, "Poll") {
                return Err(OutputTypeError::NotPoll);
            }
            match &last.arguments {
                PathArgsModel::AngleBracketed(args) => {
                    if args.len() != 1 {
                        Err(OutputTypeError::WrongGenericCount)
                    } else {
                        match &args[0] {
                            GenericArgModel::Type { handle, .. } => Ok(*handle),
                            GenericArgModel::Other => Err(OutputTypeError::GenericNotType),
                        }
                    }
                },
                _ => Err(OutputTypeError::MissingOutput),
            }
        },
        _ => Err(OutputTypeError::NotPoll),
    }
}

/// `ret` is `...::Poll<A>` with a single generic argument `A` that is a type
/// carrying `handle`, whatever `A` itself looks like.
pub open spec fn is_poll_of(ret: ReturnTypeModel, handle: usize) -> bool {
    match ret {
        ReturnTypeModel::Type(TypeModel::Path { segments, .. }) => {
            &&& segments@.len() > 0
            &&& segments@[segments@.len() - 1].ident@ == "Poll"@
            &&& match segments@[segments@.len() - 1].arguments {
                PathArgsModel::AngleBracketed(args) => {
                    &&& args@.len() == 1
                    &&& match args@[0] {
                        GenericArgModel::Type { handle: h, .. } => h == handle,
                        GenericArgModel::Other => false,
                    }
                },
                _ => false,
            }
        },
        _ => false,
    }
}

/// The output of a polling method is the single argument of its `Poll`
/// return type, taken as a whole: reading succeeds with a handle exactly when
/// the return type is `Poll` of a type carrying that handle.
pub proof fn law_output_is_the_poll_argument(ret: ReturnTypeModel, handle: usize)
    requires
        return_type_wf(ret),
    ensures
        (spec_output_type(ret) == Ok::<usize, OutputTypeError>(handle)) == is_poll_of(ret, handle),
{
}

/// A return type that does not end in `Poll`, or has no return type at all,
/// is refused as not being a `Poll` value.
pub proof fn law_non_poll_is_refused(ret: ReturnTypeModel)
    requires
        return_type_wf(ret),
        !(ret matches ReturnTypeModel::Type(TypeModel::Path { segments, .. })
            && segments@[segments@.len() - 1].ident@ == "Poll"@),
    ensures
        spec_output_type(ret) == Err::<usize, OutputTypeError>(OutputTypeError::NotPoll),
{
}

} // verus!
