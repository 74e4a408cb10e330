use vstd::prelude::*;

use crate::model::{path_ident, FnArgModel, GenericArgModel, PatModel, PathArgsModel, TypeModel};
use crate::text::text_is;

verus! {

/// How a polling method takes its receiver.
#[derive(Debug, Clone, Copy, PartialEq, Eq, Structural)]
pub enum PollMethodReceiverType {
    /// `&self`
    Ref,
    /// `&mut self`
    MutRef,
    /// `self: Pin<&mut Self>`
    Pinned,
}

/// `ty` is `Self` written as a bare path.
pub open spec fn is_self_type(ty: TypeModel) -> bool {
    match ty {
        TypeModel::Path { qself, leading_colon, segments } => !qself && path_ident(
            leading_colon,
            segments@,
        ) == Some("Self"@),
        _ => false,
    }
}

/// `ty` is a path without a qualified self whose last segment is
/// `Pin<&mut Self>`.
pub open spec fn is_pin_mut_self(ty: TypeModel) -> bool {
    match ty {
        TypeModel::Path { qself, segments, .. } => {
            &&& !qself
            &&& segments@.len() > 0
            &&& segments@.last().ident@ == "Pin"@
            &&& match segments@.last().arguments {
                PathArgsModel::AngleBracketed(args) => {
                    &&& args@.len() == 1
                    &&& match args@[0] {
                        GenericArgModel::Type { ty: TypeModel::Reference { mutable, elem }, .. } => {
                            mutable && is_self_type(*elem)
                        },
                        _ => false,
                    }
                },
                _ => false,
            }
        },
        _ => false,
    }
}

/// `pat` is the plain identifier pattern `self`.
pub open spec fn is_plain_self_pat(pat: PatModel) -> bool {
    match pat {
        PatModel::Ident { by_ref, has_subpat, ident } => !by_ref && !has_subpat && ident@ == "self"@,
        PatModel::Other => false,
    }
}

/// The receiver kind of a signature with inputs `inputs`: `&self`, `&mut self`
/// or `self: Pin<&mut Self>` as the first input, and none otherwise.
pub open spec fn spec_receiver_type(inputs: Seq<FnArgModel>) -> Option<PollMethodReceiverType> {
    if inputs.len() == 0 {
        None
    } else {
        match inputs[0] {
            FnArgModel::Receiver { reference, mutable } => {
                if !reference {
                    None
                } else if mutable {
                    Some(PollMethodReceiverType::MutRef)
                } else {
                    Some(PollMethodReceiverType::Ref)
                }
            },
            FnArgModel::Typed { pat, ty } => {
                if is_plain_self_pat(pat) && is_pin_mut_self(ty) {
                    Some(PollMethodReceiverType::Pinned)
                } else {
                    None
                }
            },
        }
    }
}

/// Whether `ty` is `Self` written as a bare path.
fn check_self_type(ty: &TypeModel) -> (b: bool)
    ensures
        b == is_self_type(*ty),
{
    match ty {
        TypeModel::Path { qself, leading_colon, segments } => {
            if *qself || *leading_colon || segments.len() != 1 {
                return false;
            }
            match &segments[0].arguments {
                PathArgsModel::NoArguments => text_is(&segments[0].ident, "Self"),
                _ => false,
            }
        },
        _ => false,
    }
}

/// Whether `ty` is `Pin<&mut Self>`.
fn check_pin_mut_self(ty: &TypeModel) -> (b: bool)
    ensures
        b == is_pin_mut_self(*ty),
{
    match ty {
        TypeModel::Path { qself, segments, .. } => {
            if *qself || segments.len() == 0 {
                return false;
            }
            let last = &segments[segments.len() - 1];
            if !text_is(&last.ident, "Pin") {
                return false;
            }
            match &last.arguments {
                PathArgsModel::AngleBracketed(args) => {
                    if args.len() != 1 {
                        return false;
                    }
                    match &args[0] {
                        GenericArgModel::Type { ty: TypeModel::Reference { mutable, elem }, .. } => {
                            *mutable && check_self_type(elem)
                        },
                        _ => false,
                    }
                },
                _ => false,
            }
        },
        _ => false,
    }
}

/// Given the inputs of a method signature, determines the receiver type.
/// Accepts `&self`, `&mut self`, and `self: Pin<&mut Self>`.
pub fn extract_poll_self_type(inputs: &Vec<FnArgModel>) -> (r: Option<PollMethodReceiverType>)
    ensures
        r == spec_receiver_type(inputs@),
{
    if inputs.len() == 0 {
        return None;
    }
    match &inputs[0] {
        FnArgModel::Receiver { reference, mutable } => {
            if !*reference {
                None
            } else if *mutable {
                Some(PollMethodReceiverType::MutRef)
            } else {
                Some(PollMethodReceiverType::Ref)
            }
        },
        FnArgModel::Typed { pat, ty } => {
            let self_pat = match pat {
                PatModel::Ident { by_ref, has_subpat, ident } => !*by_ref && !*has_subpat
                    && text_is(ident, "self"),
                PatModel::Other => false,
            };
            if self_pat && check_pin_mut_self(ty) {
                Some(PollMethodReceiverType::Pinned)
            } else {
                None
            }
        },
    }
}

/// Only the first input decides the receiver: `&self` is shared, `&mut self`
/// is exclusive, `self` taken by value and a method without inputs are
/// refused, and a typed first input is accepted only as
/// `self: Pin<&mut Self>`, which is pinned.
pub proof fn law_receiver_from_first_input(inputs: Seq<FnArgModel>)
    ensures
        inputs.len() == 0 ==> spec_receiver_type(inputs) is None,
        inputs.len() > 0 ==> spec_receiver_type(inputs) == spec_receiver_type(seq![inputs[0]]),
        inputs.len() > 0 && inputs[0] == (FnArgModel::Receiver { reference: true, mutable: false })
            ==> spec_receiver_type(inputs) == Some(PollMethodReceiverType::Ref),
        inputs.len() > 0 && inputs[0] == (FnArgModel::Receiver { reference: true, mutable: true })
            ==> spec_receiver_type(inputs) == Some(PollMethodReceiverType::MutRef),
        inputs.len() > 0 && (inputs[0] is Receiver && !inputs[0]->Receiver_reference)
            ==> spec_receiver_type(inputs) is None,
        (spec_receiver_type(inputs) == Some(PollMethodReceiverType::Pinned)) == (inputs.len() > 0
            && inputs[0] is Typed && is_plain_self_pat(inputs[0]->Typed_pat) && is_pin_mut_self(
            inputs[0]->Typed_ty,
        )),
{
}

} // verus!
