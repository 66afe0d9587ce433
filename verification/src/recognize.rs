//! Wrapper recognition: is a type some wrapper applied to one inner type?

use vstd::prelude::*;
use crate::descriptor::{
    ArgumentModel, ArgumentsModel, GenericArgument, PathArguments, ShapeModel, TypeExpr,
    TypeModel, TypeShape,
};

verus! {

/// The inner type of `ty` where `ty` is `wrapper` applied to exactly one
/// type: a path whose last segment is named `wrapper` and carries, between
/// angle brackets, a single generic argument that is a type. `None` for
/// every other shape.
pub open spec fn unwrapped(wrapper: Seq<char>, ty: TypeModel) -> Option<TypeModel> {
    match ty.shape {
        ShapeModel::Path(segments) => {
            if segments.len() > 0 && segments.last().ident == wrapper {
                match segments.last().arguments {
                    ArgumentsModel::AngleBracketed(arguments) => {
                        if arguments.len() == 1 {
                            match arguments[0] {
                                ArgumentModel::Type(inner) => Some(inner),
                                ArgumentModel::Other => None,
                            }
                        } else {
                            None
                        }
                    },
                    _ => None,
                }
            } else {
                None
            }
        },
        ShapeModel::Other => None,
    }
}

/// Recognizes `wrapper` applied to one type and hands out that inner type.
///
/// Only the outermost level is looked at: the inner type is returned as it
/// is, whatever its own shape.
pub fn unwrap_type<'a>(wrapper: String, ty: &'a TypeExpr) -> (inner: Option<&'a TypeExpr>)
    ensures
        match inner {
            Some(found) => unwrapped(wrapper@, ty@) == Some(found@),
            None => unwrapped(wrapper@, ty@) is None,
        },
{
    if let TypeShape::Path(segments) = &ty.shape {
        if segments.len() == 0 {
            return None;
        }
        let segment = &segments[segments.len() - 1];
        if segment.ident != wrapper {
            return None;
        }
        if let PathArguments::AngleBracketed(arguments) = &segment.arguments {
            if arguments.len() != 1 {
                return None;
            }
            if let GenericArgument::Type(found) = &arguments[0] {
                return Some(found);
            }
        }
    }
    None
}

} // verus!
