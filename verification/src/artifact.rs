//! What derivation produces: the description of a builder.
//!
//! A [`BuilderArtifact`] lists, for every field that synthesized, the four
//! coordinated pieces of the builder: the storage member, its initial value,
//! its setters and the way `build` extracts the field. Fields whose
//! configuration is malformed contribute an [`ErrorArtifact`] instead.

use vstd::prelude::*;

verus! {

/// What a setter does with its argument.
#[derive(Debug, Clone, Copy, PartialEq, Eq)]
pub enum Action {
    /// Stores the argument as the field's value: the field is now set.
    Store,
    /// Replaces the whole collection by the argument.
    Replace,
    /// Appends the argument to the collection.
    Append,
}

/// The value a storage member has in a fresh builder.
#[derive(Debug, Clone, Copy, PartialEq, Eq)]
pub enum Initial {
    /// The unset marker.
    Unset,
    /// The empty collection.
    Empty,
}

/// One setter method of the builder.
#[derive(Debug, Clone, PartialEq, Eq)]
pub struct Setter {
    /// The method's name, which is also the name of its parameter.
    pub name: String,
    /// The type of the parameter, as source text.
    pub parameter_type: String,
    pub action: Action,
}

/// How `build` obtains a field of the record from its storage member.
#[derive(Debug, Clone, PartialEq, Eq)]
pub enum Extraction {
    /// Takes the stored value; fails with `message` while the member is
    /// unset.
    Required { message: String },
    /// Takes whatever is stored; never fails.
    Always,
}

/// The pieces of the builder that belong to one field.
#[derive(Debug, Clone, PartialEq, Eq)]
pub struct FieldArtifact {
    /// The field's name, which is also the name of its storage member.
    pub name: String,
    /// The type of the storage member, as source text.
    pub storage_type: String,
    pub initial: Initial,
    /// The setters that write to the storage member, in the order in which
    /// they are emitted.
    pub setters: Vec<Setter>,
    pub extraction: Extraction,
}

/// A configuration error, placed in the record: a message and the attribute
/// it is anchored at.
#[derive(Debug, Clone, PartialEq, Eq)]
pub struct ErrorArtifact {
    pub message: String,
    /// The position of the field among the record's fields.
    pub field: usize,
    /// The position of the attribute among that field's attributes.
    pub attribute: usize,
}

/// The description of the builder of one record type.
#[derive(Debug, Clone, PartialEq, Eq)]
pub struct BuilderArtifact {
    /// The name of the record type.
    pub record_name: String,
    /// The name of the builder type.
    pub builder_name: String,
    /// The fields that synthesized, in declaration order.
    pub fields: Vec<FieldArtifact>,
    /// The configuration errors, in declaration order of their fields.
    pub error_artifacts: Vec<ErrorArtifact>,
}

/// View of a [`Setter`].
#[verifier::ext_equal]
pub struct SetterModel {
    pub name: Seq<char>,
    pub parameter_type: Seq<char>,
    pub action: Action,
}

/// View of an [`Extraction`].
#[verifier::ext_equal]
pub enum ExtractionModel {
    Required { message: Seq<char> },
    Always,
}

/// View of a [`FieldArtifact`].
#[verifier::ext_equal]
pub struct FieldArtifactModel {
    pub name: Seq<char>,
    pub storage_type: Seq<char>,
    pub initial: Initial,
    pub setters: Seq<SetterModel>,
    pub extraction: ExtractionModel,
}

/// View of an [`ErrorArtifact`].
#[verifier::ext_equal]
pub struct ErrorModel {
    pub message: Seq<char>,
    pub field: int,
    pub attribute: int,
}

/// View of a [`BuilderArtifact`].
#[verifier::ext_equal]
pub struct ArtifactModel {
    pub record_name: Seq<char>,
    pub builder_name: Seq<char>,
    pub fields: Seq<FieldArtifactModel>,
    pub error_artifacts: Seq<ErrorModel>,
}

/// The views of a run of setters.
pub open spec fn setter_models(setters: Seq<Setter>) -> Seq<SetterModel> {
    Seq::new(setters.len(), |i: int| setters[i]@)
}

/// The views of a run of field artifacts.
pub open spec fn field_models(fields: Seq<FieldArtifact>) -> Seq<FieldArtifactModel> {
    Seq::new(fields.len(), |i: int| fields[i]@)
}

/// The views of a run of error artifacts.
pub open spec fn error_models(errors: Seq<ErrorArtifact>) -> Seq<ErrorModel> {
    Seq::new(errors.len(), |i: int| errors[i]@)
}

impl View for Setter {
    type V = SetterModel;

    open spec fn view(&self) -> SetterModel {
        SetterModel {
            name: self.name@,
            parameter_type: self.parameter_type@,
            action: self.action,
        }
    }
}

impl View for Extraction {
    type V = ExtractionModel;

    open spec fn view(&self) -> ExtractionModel {
        match self {
            Extraction::Required { message } => ExtractionModel::Required { message: message@ },
            Extraction::Always => ExtractionModel::Always,
        }
    }
}

impl View for FieldArtifact {
    type V = FieldArtifactModel;

    open spec fn view(&self) -> FieldArtifactModel {
        FieldArtifactModel {
            name: self.name@,
            storage_type: self.storage_type@,
            initial: self.initial,
            setters: setter_models(self.setters@),
            extraction: self.extraction@,
        }
    }
}

impl View for ErrorArtifact {
    type V = ErrorModel;

    open spec fn view(&self) -> ErrorModel {
        ErrorModel {
            message: self.message@,
            field: self.field as int,
            attribute: self.attribute as int,
        }
    }
}

impl View for BuilderArtifact {
    type V = ArtifactModel;

    open spec fn view(&self) -> ArtifactModel {
        ArtifactModel {
            record_name: self.record_name@,
            builder_name: self.builder_name@,
            fields: field_models(self.fields@),
            error_artifacts: error_models(self.error_artifacts@),
        }
    }
}

} // verus!
