//! Source text of the builder: the fragments that the artifact stands for.
//!
//! The text is plain Rust. Names and types are written out as they stand in
//! the artifact, so the text is well formed where the record's names are
//! identifiers and its types are types.

use vstd::prelude::*;
use crate::artifact::{
    field_models, setter_models, Action, ArtifactModel, BuilderArtifact, Extraction,
    ExtractionModel, FieldArtifact, FieldArtifactModel, Initial, Setter, SetterModel,
};

verus! {

/// The declaration of one storage member.
pub open spec fn storage_line(field: FieldArtifactModel) -> Seq<char> {
    "    "@ + field.name + ": "@ + field.storage_type + ",\n"@
}

/// The declarations of the first `upto` storage members.
pub open spec fn storage_lines(fields: Seq<FieldArtifactModel>, upto: int) -> Seq<char>
    decreases upto,
{
    if upto <= 0 {
        Seq::empty()
    } else {
        storage_lines(fields, upto - 1) + storage_line(fields[upto - 1])
    }
}

/// The definition of the builder type.
pub open spec fn storage_decl_text(artifact: ArtifactModel) -> Seq<char> {
    "pub struct "@ + artifact.builder_name + " {\n"@ + storage_lines(
        artifact.fields,
        artifact.fields.len() as int,
    ) + "}\n"@
}

/// The expression for an initial value.
pub open spec fn initial_text(initial: Initial) -> Seq<char> {
    match initial {
        Initial::Unset => "None"@,
        Initial::Empty => "std::vec::Vec::new()"@,
    }
}

/// The initialization of one storage member.
pub open spec fn initial_line(field: FieldArtifactModel) -> Seq<char> {
    "            "@ + field.name + ": "@ + initial_text(field.initial) + ",\n"@
}

/// The initializations of the first `upto` storage members.
pub open spec fn initial_lines(fields: Seq<FieldArtifactModel>, upto: int) -> Seq<char>
    decreases upto,
{
    if upto <= 0 {
        Seq::empty()
    } else {
        initial_lines(fields, upto - 1) + initial_line(fields[upto - 1])
    }
}

/// The constructor on the record type: `builder()` returns a builder with
/// every storage member at its initial value.
pub open spec fn constructor_text(artifact: ArtifactModel) -> Seq<char> {
    "impl "@ + artifact.record_name + " {\n    pub fn builder() -> "@ + artifact.builder_name
        + " {\n        "@ + artifact.builder_name + " {\n"@ + initial_lines(
        artifact.fields,
        artifact.fields.len() as int,
    ) + "        }\n    }\n}\n"@
}

/// The statement with which a setter writes its argument to the storage
/// member `field`.
pub open spec fn action_text(field: Seq<char>, setter: SetterModel) -> Seq<char> {
    match setter.action {
        Action::Store => "self."@ + field + " = Some("@ + setter.name + ");"@,
        Action::Replace => "self."@ + field + " = "@ + setter.name + ";"@,
        Action::Append => "self."@ + field + ".push("@ + setter.name + ");"@,
    }
}

/// One setter method. It returns the builder, so that calls can be chained.
pub open spec fn setter_text(field: Seq<char>, setter: SetterModel) -> Seq<char> {
    "    fn "@ + setter.name + "(&mut self, "@ + setter.name + ": "@ + setter.parameter_type
        + ") -> &mut Self {\n        "@ + action_text(field, setter)
        + "\n        self\n    }\n\n"@
}

/// The first `upto` setters of one field.
pub open spec fn field_setters_text(field: FieldArtifactModel, upto: int) -> Seq<char>
    decreases upto,
{
    if upto <= 0 {
        Seq::empty()
    } else {
        field_setters_text(field, upto - 1) + setter_text(field.name, field.setters[upto - 1])
    }
}

/// The setters of the first `upto` fields.
pub open spec fn setters_upto(fields: Seq<FieldArtifactModel>, upto: int) -> Seq<char>
    decreases upto,
{
    if upto <= 0 {
        Seq::empty()
    } else {
        setters_upto(fields, upto - 1) + field_setters_text(
            fields[upto - 1],
            fields[upto - 1].setters.len() as int,
        )
    }
}

/// All setter methods, field by field.
pub open spec fn setters_text(artifact: ArtifactModel) -> Seq<char> {
    setters_upto(artifact.fields, artifact.fields.len() as int)
}

/// The expression with which `build` extracts one field.
pub open spec fn extraction_text(field: FieldArtifactModel) -> Seq<char> {
    match field.extraction {
        ExtractionModel::Required { message } => "self."@ + field.name + ".clone().ok_or(\""@
            + message + "\")?"@,
        ExtractionModel::Always => "self."@ + field.name + ".clone()"@,
    }
}

/// The extraction of one field, as a member of the record under
/// construction.
pub open spec fn extraction_line(field: FieldArtifactModel) -> Seq<char> {
    "            "@ + field.name + ": "@ + extraction_text(field) + ",\n"@
}

/// The extractions of the first `upto` fields.
pub open spec fn extraction_lines(fields: Seq<FieldArtifactModel>, upto: int) -> Seq<char>
    decreases upto,
{
    if upto <= 0 {
        Seq::empty()
    } else {
        extraction_lines(fields, upto - 1) + extraction_line(fields[upto - 1])
    }
}

/// The `build` method: extracts every field in order, returns at the first
/// extraction that fails, and otherwise returns the record.
pub open spec fn build_body_text(artifact: ArtifactModel) -> Seq<char> {
    "    pub fn build(&mut self) -> Result<"@ + artifact.record_name
        + ", Box<dyn std::error::Error>> {\n        Ok("@ + artifact.record_name + " {\n"@
        + extraction_lines(artifact.fields, artifact.fields.len() as int)
        + "        })\n    }\n"@
}

/// The whole source text: the builder type, the constructor on the record
/// type, and the builder's methods.
pub open spec fn source_text(artifact: ArtifactModel) -> Seq<char> {
    storage_decl_text(artifact) + "\n"@ + constructor_text(artifact) + "\nimpl "@
        + artifact.builder_name + " {\n"@ + setters_text(artifact) + build_body_text(artifact)
        + "}\n"@
}

fn render_storage_line(field: &FieldArtifact) -> (line: String)
    ensures
        line@ == storage_line(field@),
{
    let mut line = "    ".to_owned();
    line.append(field.name.as_str());
    line.append(": ");
    line.append(field.storage_type.as_str());
    line.append(",\n");
    line
}

fn render_initial_line(field: &FieldArtifact) -> (line: String)
    ensures
        line@ == initial_line(field@),
{
    let mut line = "            ".to_owned();
    line.append(field.name.as_str());
    line.append(": ");
    match field.initial {
        Initial::Unset => line.append("None"),
        Initial::Empty => line.append("std::vec::Vec::new()"),
    }
    line.append(",\n");
    line
}

fn render_action(field: &str, setter: &Setter) -> (statement: String)
    ensures
        statement@ == action_text(field@, setter@),
{
    let mut statement = "self.".to_owned();
    statement.append(field);
    match setter.action {
        Action::Store => {
            statement.append(" = Some(");
            statement.append(setter.name.as_str());
            statement.append(");");
        },
        Action::Replace => {
            statement.append(" = ");
            statement.append(setter.name.as_str());
            statement.append(";");
        },
        Action::Append => {
            statement.append(".push(");
            statement.append(setter.name.as_str());
            statement.append(");");
        },
    }
    statement
}

fn render_setter(field: &str, setter: &Setter) -> (method: String)
    ensures
        method@ == setter_text(field@, setter@),
{
    let statement = render_action(field, setter);
    let mut method = "    fn ".to_owned();
    method.append(setter.name.as_str());
    method.append("(&mut self, ");
    method.append(setter.name.as_str());
    method.append(": ");
    method.append(setter.parameter_type.as_str());
    method.append(") -> &mut Self {\n        ");
    method.append(statement.as_str());
    method.append("\n        self\n    }\n\n");
    method
}

fn render_field_setters(field: &FieldArtifact) -> (methods: String)
    ensures
        methods@ == field_setters_text(field@, field@.setters.len() as int),
{
    let mut methods = String::new();
    let mut at: usize = 0;
    while at < field.setters.len()
        invariant
            at <= field.setters.len(),
            methods@ == field_setters_text(field@, at as int),
        decreases field.setters.len() - at,
    {
        let method = render_setter(field.name.as_str(), &field.setters[at]);
        methods.append(method.as_str());
        at += 1;
    }
    methods
}

fn render_extraction_line(field: &FieldArtifact) -> (line: String)
    ensures
        line@ == extraction_line(field@),
{
    let mut expression = "self.".to_owned();
    expression.append(field.name.as_str());
    match &field.extraction {
        Extraction::Required { message } => {
            expression.append(".clone().ok_or(\"");
            expression.append(message.as_str());
            expression.append("\")?");
        },
        Extraction::Always => {
            expression.append(".clone()");
        },
    }
    let mut line = "            ".to_owned();
    line.append(field.name.as_str());
    line.append(": ");
    line.append(expression.as_str());
    line.append(",\n");
    line
}

impl BuilderArtifact {
    /// The definition of the builder type, with one storage member per
    /// field.
    pub fn storage_decl(&self) -> (text: String)
        ensures
            text@ == storage_decl_text(self@),
    {
        let mut lines = String::new();
        let mut at: usize = 0;
        while at < self.fields.len()
            invariant
                at <= self.fields.len(),
                lines@ == storage_lines(self@.fields, at as int),
            decreases self.fields.len() - at,
        {
            let line = render_storage_line(&self.fields[at]);
            lines.append(line.as_str());
            at += 1;
        }
        let mut text = "pub struct ".to_owned();
        text.append(self.builder_name.as_str());
        text.append(" {\n");
        text.append(lines.as_str());
        text.append("}\n");
        text
    }

    /// The constructor `builder()` on the record type.
    pub fn constructor(&self) -> (text: String)
        ensures
            text@ == constructor_text(self@),
    {
        let mut lines = String::new();
        let mut at: usize = 0;
        while at < self.fields.len()
            invariant
                at <= self.fields.len(),
                lines@ == initial_lines(self@.fields, at as int),
            decreases self.fields.len() - at,
        {
            let line = render_initial_line(&self.fields[at]);
            lines.append(line.as_str());
            at += 1;
        }
        let mut text = "impl ".to_owned();
        text.append(self.record_name.as_str());
        text.append(" {\n    pub fn builder() -> ");
        text.append(self.builder_name.as_str());
        text.append(" {\n        ");
        text.append(self.builder_name.as_str());
        text.append(" {\n");
        text.append(lines.as_str());
        text.append("        }\n    }\n}\n");
        text
    }

    /// The setter methods of the builder.
    pub fn setters(&self) -> (text: String)
        ensures
            text@ == setters_text(self@),
    {
        let mut text = String::new();
        let mut at: usize = 0;
        while at < self.fields.len()
            invariant
                at <= self.fields.len(),
                text@ == setters_upto(self@.fields, at as int),
            decreases self.fields.len() - at,
        {
            let methods = render_field_setters(&self.fields[at]);
            text.append(methods.as_str());
            at += 1;
        }
        text
    }

    /// The `build` method of the builder.
    pub fn build_body(&self) -> (text: String)
        ensures
            text@ == build_body_text(self@),
    {
        let mut lines = String::new();
        let mut at: usize = 0;
        while at < self.fields.len()
            invariant
                at <= self.fields.len(),
                lines@ == extraction_lines(self@.fields, at as int),
            decreases self.fields.len() - at,
        {
            let line = render_extraction_line(&self.fields[at]);
            lines.append(line.as_str());
            at += 1;
        }
        let mut text = "    pub fn build(&mut self) -> Result<".to_owned();
        text.append(self.record_name.as_str());
        text.append(", Box<dyn std::error::Error>> {\n        Ok(");
        text.append(self.record_name.as_str());
        text.append(" {\n");
        text.append(lines.as_str());
        text.append("        })\n    }\n");
        text
    }

    /// The whole source text of the builder. The error artifacts are not
    /// part of it.
    pub fn source(&self) -> (text: String)
        ensures
            text@ == source_text(self@),
    {
        let mut text = self.storage_decl();
        text.append("\n");
        text.append(self.constructor().as_str());
        text.append("\nimpl ");
        text.append(self.builder_name.as_str());
        text.append(" {\n");
        text.append(self.setters().as_str());
        text.append(self.build_body().as_str());
        text.append("}\n");
        text
    }
}

} // verus!
