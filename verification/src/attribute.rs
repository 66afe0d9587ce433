//! The attribute parser: finds the configuration attribute of a field and
//! reads the element setter it asks for.
//!
//! The configuration attribute is the first attribute of a field whose path
//! is `builder`. Its arguments must be the single pair `each = "<name>"`:
//! the identifier `each`, an equals sign and a string literal, and nothing
//! else. Anything else under that path is a configuration error, reported
//! with a fixed message at the attribute.

use vstd::prelude::*;
use crate::descriptor::{AttributeModel, FieldDescriptor, FieldModel, Token, TokenModel};

verus! {

/// The view of an optional string.
pub open spec fn text_of(text: Option<String>) -> Option<Seq<char>> {
    match text {
        Some(text) => Some(text@),
        None => None,
    }
}

/// The string that `syn` reads out of the source form `source` of a string
/// literal, with the escapes resolved; `None` where `source` is not one
/// string literal.
pub uninterp spec fn literal_value(source: Seq<char>) -> Option<Seq<char>>;

/// Whether the source form of a literal begins like a string literal: with
/// the quote of a string or the `r` of a raw string.
pub open spec fn begins_like_string(source: Seq<char>) -> bool {
    source.len() > 0 && (source[0] == '"' || source[0] == 'r')
}

/// Reads the value of a string literal from its source form, by
/// `syn::parse_str::<syn::LitStr>` and `syn::LitStr::value`.
///
/// Not verified. The contract gives the outcome a name, [`literal_value`]:
/// the same source form always yields the same value. The source must begin
/// like a string literal, because `syn` panics on a literal of a kind it
/// does not know, and it knows every literal that begins so.
#[verifier::external_body]
fn string_literal_value(source: &str) -> (value: Option<String>)
    requires
        begins_like_string(source@),
    ensures
        text_of(value) == literal_value(source@),
{
    match syn::parse_str::<syn::LitStr>(source) {
        Ok(literal) => Some(literal.value()),
        Err(_) => None,
    }
}

/// The configuration read from a valid `each` attribute.
#[derive(Debug, Clone, PartialEq, Eq)]
pub struct EachConfig {
    /// The name of the setter that appends one element.
    pub element_setter_name: String,
}

/// View of an [`EachConfig`].
pub struct EachModel {
    pub element_setter_name: Seq<char>,
}

impl View for EachConfig {
    type V = EachModel;

    open spec fn view(&self) -> EachModel {
        EachModel { element_setter_name: self.element_setter_name@ }
    }
}

/// A configuration error: a message, anchored at one attribute of the field.
#[derive(Debug, Clone, PartialEq, Eq)]
pub struct Diagnostic {
    pub message: String,
    /// The position of the offending attribute among the field's attributes.
    pub attribute: usize,
}

/// View of a [`Diagnostic`].
pub struct DiagnosticModel {
    pub message: Seq<char>,
    pub attribute: int,
}

impl View for Diagnostic {
    type V = DiagnosticModel;

    open spec fn view(&self) -> DiagnosticModel {
        DiagnosticModel { message: self.message@, attribute: self.attribute as int }
    }
}

/// What the attribute parser found on a field.
#[derive(Debug, Clone, PartialEq, Eq)]
pub enum AttrResult {
    /// The field has no configuration attribute.
    Absent,
    /// The configuration attribute is `each = "<name>"`.
    Valid(EachConfig),
    /// The configuration attribute is there and is anything else.
    Invalid(Diagnostic),
}

/// View of an [`AttrResult`].
pub enum AttrModel {
    Absent,
    Valid(EachModel),
    Invalid(DiagnosticModel),
}

impl View for AttrResult {
    type V = AttrModel;

    open spec fn view(&self) -> AttrModel {
        match self {
            AttrResult::Absent => AttrModel::Absent,
            AttrResult::Valid(config) => AttrModel::Valid(config@),
            AttrResult::Invalid(diagnostic) => AttrModel::Invalid(diagnostic@),
        }
    }
}

/// The path that marks the configuration attribute.
pub open spec fn marker() -> Seq<char> {
    "builder"@
}

/// The only key the configuration attribute accepts.
pub open spec fn each_key() -> Seq<char> {
    "each"@
}

/// The message of every configuration error.
pub open spec fn expected_each() -> Seq<char> {
    "expected `builder(each = \"...\")`"@
}

/// The configuration error at attribute number `attribute`.
pub open spec fn malformed_at(attribute: int) -> DiagnosticModel {
    DiagnosticModel { message: expected_each(), attribute }
}

/// The position of the first attribute at or after `start` whose path is the
/// marker.
pub open spec fn first_marker_from(attributes: Seq<AttributeModel>, start: int) -> Option<int>
    decreases attributes.len() - start,
{
    if start < 0 || start >= attributes.len() {
        None
    } else if attributes[start].path == marker() {
        Some(start)
    } else {
        first_marker_from(attributes, start + 1)
    }
}

/// The position of the configuration attribute: the first attribute whose
/// path is the marker.
pub open spec fn first_marker(attributes: Seq<AttributeModel>) -> Option<int> {
    first_marker_from(attributes, 0)
}

/// The string that a literal stands for, where it is a string literal.
pub open spec fn string_of_literal(source: Seq<char>) -> Option<Seq<char>> {
    if begins_like_string(source) {
        literal_value(source)
    } else {
        None
    }
}

/// The element setter name that the pair `key = value` asks for, where
/// `value` is the string that the value literal stands for, if any.
pub open spec fn pair_name(key: Seq<char>, value: Option<Seq<char>>) -> Option<Seq<char>> {
    if key == each_key() {
        value
    } else {
        None
    }
}

/// The element setter name that an argument list asks for: the value of the
/// pair, where the list is exactly one pair of the key `each` and a string
/// literal.
pub open spec fn each_name(arguments: Seq<TokenModel>) -> Option<Seq<char>> {
    if arguments.len() == 3 && arguments[1] == TokenModel::Punct('=') {
        match (arguments[0], arguments[2]) {
            (TokenModel::Ident(key), TokenModel::Literal(source)) => pair_name(
                key,
                string_of_literal(source),
            ),
            _ => None,
        }
    } else {
        None
    }
}

/// What a configuration attribute at position `attribute` amounts to, given
/// the element setter name that its arguments ask for, if they do.
pub open spec fn name_result(name: Option<Seq<char>>, attribute: int) -> AttrModel {
    match name {
        Some(name) => AttrModel::Valid(EachModel { element_setter_name: name }),
        None => AttrModel::Invalid(malformed_at(attribute)),
    }
}

/// What the attribute parser finds on `field`.
pub open spec fn attribute_result(field: FieldModel) -> AttrModel {
    match first_marker(field.attributes) {
        None => AttrModel::Absent,
        Some(at) => match field.attributes[at].arguments {
            Some(arguments) => name_result(each_name(arguments), at),
            None => AttrModel::Invalid(malformed_at(at)),
        },
    }
}

/// The configuration error for the attribute at position `attribute`.
pub fn malformed(attribute: usize) -> (diagnostic: Diagnostic)
    ensures
        diagnostic@ == malformed_at(attribute as int),
{
    Diagnostic { message: "expected `builder(each = \"...\")`".to_owned(), attribute }
}

/// Reads a literal as a string literal: the string it stands for, or `None`
/// where it is a literal of another kind or no literal at all.
pub fn literal_string(source: &str) -> (value: Option<String>)
    ensures
        text_of(value) == string_of_literal(source@),
{
    if source.is_empty() {
        return None;
    }
    let first = source.get_char(0);
    if first == '"' || first == 'r' {
        string_literal_value(source)
    } else {
        None
    }
}

/// Judges the pair `key = value`, where `value` is the string that the value
/// literal stands for, if it is a string literal: the pair names an element
/// setter exactly when the key is `each` and the value is a string.
pub fn interpret_pair(key: &String, value: Option<String>) -> (name: Option<String>)
    ensures
        text_of(name) == pair_name(key@, text_of(value)),
{
    if *key == "each".to_owned() {
        value
    } else {
        None
    }
}

/// Reads the element setter name out of an argument list.
pub fn each_setter_name(arguments: &Vec<Token>) -> (name: Option<String>)
    ensures
        text_of(name) == each_name(crate::descriptor::token_models(arguments@)),
{
    if arguments.len() != 3 {
        return None;
    }
    match &arguments[1] {
        Token::Punct(character) => {
            if *character != '=' {
                return None;
            }
        },
        _ => {
            return None;
        },
    }
    match (&arguments[0], &arguments[2]) {
        (Token::Ident(key), Token::Literal(source)) => interpret_pair(
            key,
            literal_string(source.as_str()),
        ),
        _ => None,
    }
}

/// Runs the attribute parser on one field.
///
/// Only the first attribute under the marker path is looked at.
pub fn parse_attribute(field: &FieldDescriptor) -> (result: AttrResult)
    ensures
        result@ == attribute_result(field@),
{
    let marker_path = "builder".to_owned();
    let mut at: usize = 0;
    while at < field.attributes.len()
        invariant
            at <= field.attributes.len(),
            marker_path@ == marker(),
            first_marker(field@.attributes) == first_marker_from(field@.attributes, at as int),
        decreases field.attributes.len() - at,
    {
        let attribute = &field.attributes[at];
        if attribute.path == marker_path {
            let name = match &attribute.arguments {
                Some(arguments) => each_setter_name(arguments),
                None => None,
            };
            return match name {
                Some(element_setter_name) => AttrResult::Valid(
                    EachConfig { element_setter_name },
                ),
                None => AttrResult::Invalid(malformed(at)),
            };
        }
        at += 1;
    }
    AttrResult::Absent
}

} // verus!
