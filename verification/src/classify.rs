//! The field classifier: decides how the builder treats each field.

use vstd::prelude::*;
use crate::attribute::{
    attribute_result, parse_attribute, AttrModel, AttrResult, Diagnostic, DiagnosticModel,
    EachConfig, EachModel,
};
use crate::descriptor::{FieldDescriptor, FieldModel, TypeExpr, TypeModel};
use crate::recognize::{unwrap_type, unwrapped};

verus! {

/// How the builder treats a field. Exactly one of these holds of a field
/// whose configuration is not malformed.
#[derive(Debug, PartialEq, Eq)]
pub enum Classification<'a> {
    /// The field must be set before the record can be built.
    Required { declared_type: &'a TypeExpr },
    /// The field was declared as `Option` of `inner_type` and may stay unset.
    Optional { inner_type: &'a TypeExpr },
    /// The field was declared as `Vec` of `inner_type` and starts out empty.
    /// With an `element_config` it can be filled one element at a time.
    Repeated { inner_type: &'a TypeExpr, element_config: Option<EachConfig> },
}

/// View of a [`Classification`].
pub enum ClassModel {
    Required { declared_type: TypeModel },
    Optional { inner_type: TypeModel },
    Repeated { inner_type: TypeModel, element_config: Option<EachModel> },
}

impl<'a> View for Classification<'a> {
    type V = ClassModel;

    open spec fn view(&self) -> ClassModel {
        match self {
            Classification::Required { declared_type } => ClassModel::Required {
                declared_type: declared_type@,
            },
            Classification::Optional { inner_type } => ClassModel::Optional {
                inner_type: inner_type@,
            },
            Classification::Repeated { inner_type, element_config } => ClassModel::Repeated {
                inner_type: inner_type@,
                element_config: match element_config {
                    Some(config) => Some(config@),
                    None => None,
                },
            },
        }
    }
}

/// The view of what [`classify`] returns.
pub open spec fn outcome_model(outcome: Result<Classification<'_>, Diagnostic>) -> Result<
    ClassModel,
    DiagnosticModel,
> {
    match outcome {
        Ok(classification) => Ok(classification@),
        Err(diagnostic) => Err(diagnostic@),
    }
}

/// The wrapper that makes a field optional.
pub open spec fn optional_wrapper() -> Seq<char> {
    "Option"@
}

/// The wrapper that makes a field repeated.
pub open spec fn repeated_wrapper() -> Seq<char> {
    "Vec"@
}

/// The classification of a field from its declared type alone, given what
/// the attribute parser found and that it was not an error.
pub open spec fn class_by_shape(field: FieldModel, found: AttrModel) -> ClassModel {
    match unwrapped(optional_wrapper(), field.declared_type) {
        Some(inner_type) => ClassModel::Optional { inner_type },
        None => match unwrapped(repeated_wrapper(), field.declared_type) {
            Some(inner_type) => ClassModel::Repeated {
                inner_type,
                element_config: match found {
                    AttrModel::Valid(config) => Some(config),
                    _ => None,
                },
            },
            None => ClassModel::Required { declared_type: field.declared_type },
        },
    }
}

/// The classification of a field, or the configuration error that takes its
/// place.
///
/// A malformed configuration attribute is an error whatever the declared
/// type is. Otherwise `Option` of one type is optional; failing that, `Vec`
/// of one type is repeated, with the element setter of a valid attribute;
/// anything else is required. A valid attribute on a field that is not
/// repeated has no effect.
pub open spec fn classification_of(field: FieldModel) -> Result<ClassModel, DiagnosticModel> {
    match attribute_result(field) {
        AttrModel::Invalid(diagnostic) => Err(diagnostic),
        found => Ok(class_by_shape(field, found)),
    }
}

/// Classifies one field.
pub fn classify<'a>(field: &'a FieldDescriptor) -> (outcome: Result<
    Classification<'a>,
    Diagnostic,
>)
    ensures
        outcome_model(outcome) == classification_of(field@),
{
    let element_config = match parse_attribute(field) {
        AttrResult::Invalid(diagnostic) => {
            return Err(diagnostic);
        },
        AttrResult::Valid(config) => Some(config),
        AttrResult::Absent => None,
    };
    if let Some(inner_type) = unwrap_type("Option".to_owned(), &field.declared_type) {
        Ok(Classification::Optional { inner_type })
    } else if let Some(inner_type) = unwrap_type("Vec".to_owned(), &field.declared_type) {
        Ok(Classification::Repeated { inner_type, element_config })
    } else {
        Ok(Classification::Required { declared_type: &field.declared_type })
    }
}

} // verus!
