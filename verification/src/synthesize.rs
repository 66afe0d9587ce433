//! The code synthesizer: from classified fields to the builder artifact.

use vstd::prelude::*;
use crate::artifact::{
    error_models, field_models, setter_models, Action, ArtifactModel, BuilderArtifact,
    ErrorArtifact, ErrorModel, Extraction, ExtractionModel, FieldArtifact, FieldArtifactModel,
    Initial, Setter, SetterModel,
};
use crate::attribute::{Diagnostic, DiagnosticModel, EachConfig};
use crate::classify::{classification_of, classify, outcome_model, ClassModel, Classification};
use crate::descriptor::{DescriptorModel, FieldDescriptor, FieldModel, TypeDescriptor, TypeExpr};

verus! {

/// A field together with the outcome of classifying it.
#[derive(Debug, PartialEq, Eq)]
pub struct ClassifiedField<'a> {
    pub field: &'a FieldDescriptor,
    pub outcome: Result<Classification<'a>, Diagnostic>,
}

/// View of a [`ClassifiedField`].
pub struct ClassifiedModel {
    pub field: FieldModel,
    pub outcome: Result<ClassModel, DiagnosticModel>,
}

impl<'a> View for ClassifiedField<'a> {
    type V = ClassifiedModel;

    open spec fn view(&self) -> ClassifiedModel {
        ClassifiedModel { field: self.field@, outcome: outcome_model(self.outcome) }
    }
}

/// The views of a run of classified fields.
pub open spec fn classified_models(fields: Seq<ClassifiedField<'_>>) -> Seq<ClassifiedModel> {
    Seq::new(fields.len(), |i: int| fields[i]@)
}

/// The message with which `build` fails while the required field `name` is
/// unset.
pub open spec fn missing_message(name: Seq<char>) -> Seq<char> {
    "field `"@ + name + "` is not set"@
}

/// The storage type of a required field declared with type `declared`: the
/// declared type, wrapped so that it can be unset.
pub open spec fn unset_capable(declared: Seq<char>) -> Seq<char> {
    "Option<"@ + declared + ">"@
}

/// The name of the builder of the record `record_name`.
pub open spec fn builder_name_of(record_name: Seq<char>) -> Seq<char> {
    record_name + "Builder"@
}

/// The setters of a repeated field named `field`, declared as `declared`
/// with elements of type `inner`, whose element setter is to be called
/// `element`.
///
/// The element setter comes first. Unless it takes the field's own name, a
/// setter under that name follows, which replaces the whole collection.
pub open spec fn each_setters(
    field: Seq<char>,
    inner: Seq<char>,
    declared: Seq<char>,
    element: Seq<char>,
) -> Seq<SetterModel> {
    let append = SetterModel { name: element, parameter_type: inner, action: Action::Append };
    if element == field {
        seq![append]
    } else {
        seq![
            append,
            SetterModel { name: field, parameter_type: declared, action: Action::Replace },
        ]
    }
}

/// The pieces of the builder that belong to `field`, classified as `class`.
pub open spec fn field_artifact(field: FieldModel, class: ClassModel) -> FieldArtifactModel {
    match class {
        ClassModel::Required { declared_type } => FieldArtifactModel {
            name: field.name,
            storage_type: unset_capable(declared_type.text),
            initial: Initial::Unset,
            setters: seq![
                SetterModel {
                    name: field.name,
                    parameter_type: declared_type.text,
                    action: Action::Store,
                },
            ],
            extraction: ExtractionModel::Required { message: missing_message(field.name) },
        },
        ClassModel::Optional { inner_type } => FieldArtifactModel {
            name: field.name,
            storage_type: field.declared_type.text,
            initial: Initial::Unset,
            setters: seq![
                SetterModel {
                    name: field.name,
                    parameter_type: inner_type.text,
                    action: Action::Store,
                },
            ],
            extraction: ExtractionModel::Always,
        },
        ClassModel::Repeated { inner_type, element_config } => FieldArtifactModel {
            name: field.name,
            storage_type: field.declared_type.text,
            initial: Initial::Empty,
            setters: match element_config {
                Some(config) => each_setters(
                    field.name,
                    inner_type.text,
                    field.declared_type.text,
                    config.element_setter_name,
                ),
                None => seq![
                    SetterModel {
                        name: field.name,
                        parameter_type: field.declared_type.text,
                        action: Action::Replace,
                    },
                ],
            },
            extraction: ExtractionModel::Always,
        },
    }
}

/// The error artifact for a diagnostic on the field at position `field`.
pub open spec fn reported(diagnostic: DiagnosticModel, field: int) -> ErrorModel {
    ErrorModel { message: diagnostic.message, field, attribute: diagnostic.attribute }
}

/// The artifacts of the fields among the first `upto` that classified, in
/// order.
pub open spec fn kept_fields(classified: Seq<ClassifiedModel>, upto: int) -> Seq<
    FieldArtifactModel,
>
    decreases upto,
{
    if upto <= 0 {
        Seq::empty()
    } else {
        let before = kept_fields(classified, upto - 1);
        match classified[upto - 1].outcome {
            Ok(class) => before.push(field_artifact(classified[upto - 1].field, class)),
            Err(_) => before,
        }
    }
}

/// The error artifacts of the fields among the first `upto` whose
/// configuration is malformed, in order.
pub open spec fn kept_errors(classified: Seq<ClassifiedModel>, upto: int) -> Seq<ErrorModel>
    decreases upto,
{
    if upto <= 0 {
        Seq::empty()
    } else {
        let before = kept_errors(classified, upto - 1);
        match classified[upto - 1].outcome {
            Ok(_) => before,
            Err(diagnostic) => before.push(reported(diagnostic, upto - 1)),
        }
    }
}

/// The builder artifact for the record `record_name` with the given
/// classified fields.
///
/// Every field contributes either its pieces or an error artifact, never
/// both, and what one field contributes does not depend on the others.
pub open spec fn synthesized(
    record_name: Seq<char>,
    classified: Seq<ClassifiedModel>,
) -> ArtifactModel {
    ArtifactModel {
        record_name,
        builder_name: builder_name_of(record_name),
        fields: kept_fields(classified, classified.len() as int),
        error_artifacts: kept_errors(classified, classified.len() as int),
    }
}

/// Every field of a record with the outcome of classifying it.
pub open spec fn classified(fields: Seq<FieldModel>) -> Seq<ClassifiedModel> {
    Seq::new(
        fields.len(),
        |i: int| ClassifiedModel { field: fields[i], outcome: classification_of(fields[i]) },
    )
}

/// The builder artifact derived from a record.
pub open spec fn derived(input: DescriptorModel) -> ArtifactModel {
    synthesized(input.name, classified(input.fields))
}

/// Turns a diagnostic on the field at position `field` into an error
/// artifact.
pub fn report(diagnostic: &Diagnostic, field: usize) -> (error: ErrorArtifact)
    ensures
        error@ == reported(diagnostic@, field as int),
{
    ErrorArtifact { message: diagnostic.message.clone(), field, attribute: diagnostic.attribute }
}

/// Synthesizes the setters of a repeated field with an element setter.
pub fn builder_each_setter(
    field: &FieldDescriptor,
    inner_type: &TypeExpr,
    config: &EachConfig,
) -> (setters: Vec<Setter>)
    ensures
        setter_models(setters@) == each_setters(
            field@.name,
            inner_type@.text,
            field@.declared_type.text,
            config@.element_setter_name,
        ),
{
    let mut setters = Vec::new();
    setters.push(
        Setter {
            name: config.element_setter_name.clone(),
            parameter_type: inner_type.text.clone(),
            action: Action::Append,
        },
    );
    if config.element_setter_name != field.name {
        setters.push(
            Setter {
                name: field.name.clone(),
                parameter_type: field.declared_type.text.clone(),
                action: Action::Replace,
            },
        );
    }
    assert(setter_models(setters@) =~= each_setters(
        field@.name,
        inner_type@.text,
        field@.declared_type.text,
        config@.element_setter_name,
    ));
    setters
}

/// A single setter under the field's own name.
fn own_setter(field: &FieldDescriptor, parameter_type: &TypeExpr, action: Action) -> (setters:
    Vec<Setter>)
    ensures
        setter_models(setters@) == seq![
            SetterModel { name: field@.name, parameter_type: parameter_type@.text, action },
        ],
{
    let mut setters = Vec::new();
    setters.push(
        Setter { name: field.name.clone(), parameter_type: parameter_type.text.clone(), action },
    );
    assert(setter_models(setters@) =~= seq![
        SetterModel { name: field@.name, parameter_type: parameter_type@.text, action },
    ]);
    setters
}

/// Synthesizes the pieces of the builder that belong to one field.
pub fn synthesize_field(field: &FieldDescriptor, classification: &Classification<'_>) -> (artifact:
    FieldArtifact)
    ensures
        artifact@ == field_artifact(field@, classification@),
{
    match classification {
        Classification::Required { declared_type } => {
            let mut storage_type = "Option<".to_owned();
            storage_type.append(declared_type.text.as_str());
            storage_type.append(">");
            let mut message = "field `".to_owned();
            message.append(field.name.as_str());
            message.append("` is not set");
            FieldArtifact {
                name: field.name.clone(),
                storage_type,
                initial: Initial::Unset,
                setters: own_setter(field, declared_type, Action::Store),
                extraction: Extraction::Required { message },
            }
        },
        Classification::Optional { inner_type } => FieldArtifact {
            name: field.name.clone(),
            storage_type: field.declared_type.text.clone(),
            initial: Initial::Unset,
            setters: own_setter(field, inner_type, Action::Store),
            extraction: Extraction::Always,
        },
        Classification::Repeated { inner_type, element_config } => FieldArtifact {
            name: field.name.clone(),
            storage_type: field.declared_type.text.clone(),
            initial: Initial::Empty,
            setters: match element_config {
                Some(config) => builder_each_setter(field, inner_type, config),
                None => own_setter(field, &field.declared_type, Action::Replace),
            },
            extraction: Extraction::Always,
        },
    }
}

/// Classifies every field of a record, in declaration order.
pub fn classify_fields<'a>(input: &'a TypeDescriptor) -> (fields: Vec<ClassifiedField<'a>>)
    ensures
        classified_models(fields@) == classified(input@.fields),
{
    let mut fields: Vec<ClassifiedField<'a>> = Vec::new();
    let mut at: usize = 0;
    while at < input.fields.len()
        invariant
            at <= input.fields.len(),
            fields@.len() == at,
            forall|i: int|
                0 <= i < at ==> (#[trigger] fields@[i])@ == (ClassifiedModel {
                    field: input@.fields[i],
                    outcome: classification_of(input@.fields[i]),
                }),
        decreases input.fields.len() - at,
    {
        let field = &input.fields[at];
        fields.push(ClassifiedField { field, outcome: classify(field) });
        at += 1;
    }
    assert(classified_models(fields@) =~= classified(input@.fields));
    fields
}

/// Assembles the builder artifact from the classified fields of the record
/// `record_name`.
///
/// A field whose configuration is malformed contributes an error artifact
/// and nothing else; the other fields synthesize as they would without it.
pub fn synthesize(record_name: &str, classified: &Vec<ClassifiedField<'_>>) -> (artifact:
    BuilderArtifact)
    ensures
        artifact@ == synthesized(record_name@, classified_models(classified@)),
{
    let ghost models = classified_models(classified@);
    let mut fields: Vec<FieldArtifact> = Vec::new();
    let mut error_artifacts: Vec<ErrorArtifact> = Vec::new();
    let mut at: usize = 0;
    while at < classified.len()
        invariant
            at <= classified.len(),
            models == classified_models(classified@),
            field_models(fields@) == kept_fields(models, at as int),
            error_models(error_artifacts@) == kept_errors(models, at as int),
        decreases classified.len() - at,
    {
        let ghost fields_before = field_models(fields@);
        let ghost errors_before = error_models(error_artifacts@);
        let entry = &classified[at];
        match &entry.outcome {
            Ok(classification) => {
                let artifact = synthesize_field(entry.field, classification);
                fields.push(artifact);
                assert(field_models(fields@) =~= fields_before.push(artifact@));
            },
            Err(diagnostic) => {
                let error = report(diagnostic, at);
                error_artifacts.push(error);
                assert(error_models(error_artifacts@) =~= errors_before.push(error@));
            },
        }
        at += 1;
    }
    let mut builder_name = record_name.to_owned();
    builder_name.append("Builder");
    BuilderArtifact { record_name: record_name.to_owned(), builder_name, fields, error_artifacts }
}

} // verus!
