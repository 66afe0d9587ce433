//! The structural description of a record type that derivation starts from.
//!
//! A [`TypeDescriptor`] names a record and lists its fields in declaration
//! order. Each field carries its name, the type it was declared with and the
//! attributes attached to it. Types are kept as small syntax trees: enough to
//! tell whether a type is some wrapper applied to exactly one inner type, and
//! to write the type back out.
//!
//! Every type here has a view, a purely mathematical copy of the value in
//! which strings are sequences of characters and vectors are sequences. The
//! contracts of the library speak of these views.

use vstd::prelude::*;

verus! {

/// A type as it was written in a field declaration.
#[derive(Debug, PartialEq, Eq)]
pub struct TypeExpr {
    /// The type's own source text, used wherever the type is written out.
    pub text: String,
    /// The part of the type's structure that wrapper recognition reads.
    pub shape: TypeShape,
}

/// The syntactic shape of a type.
#[derive(Debug, PartialEq, Eq)]
pub enum TypeShape {
    /// A named type: a path of one or more segments, such as `Vec<u8>` or
    /// `std::option::Option<String>`.
    Path(Vec<PathSegment>),
    /// Anything else: a reference, a tuple, an array, a function pointer.
    Other,
}

/// One segment of a path, with the arguments that follow its name.
#[derive(Debug, PartialEq, Eq)]
pub struct PathSegment {
    pub ident: String,
    pub arguments: PathArguments,
}

/// What follows the name of a path segment.
#[derive(Debug, PartialEq, Eq)]
pub enum PathArguments {
    /// Nothing: a bare name.
    Plain,
    /// Generic arguments between angle brackets.
    AngleBracketed(Vec<GenericArgument>),
    /// Function-style arguments between parentheses.
    Parenthesized,
}

/// One generic argument between angle brackets.
#[derive(Debug, PartialEq, Eq)]
pub enum GenericArgument {
    /// A type.
    Type(TypeExpr),
    /// A lifetime, a constant, a binding or a constraint.
    Other,
}

/// One token of an attribute's arguments.
#[derive(Debug, Clone, PartialEq, Eq)]
pub enum Token {
    /// An identifier, as written.
    Ident(String),
    /// A single punctuation character.
    Punct(char),
    /// A literal in its source form: `"x"` with its quotes, `5`, `b'a'`.
    Literal(String),
    /// A group between delimiters. What stands inside never matters here.
    Group,
}

/// An attribute attached to a field.
#[derive(Debug, Clone, PartialEq, Eq)]
pub struct AttributeTag {
    /// The attribute's path as written: `builder` in `#[builder(each = "x")]`.
    pub path: String,
    /// The tokens between the delimiters that follow the path: the three
    /// tokens `each`, `=` and `"x"` in `#[builder(each = "x")]`. `None` when
    /// the path is not followed by exactly one delimited group.
    pub arguments: Option<Vec<Token>>,
}

/// One field of a record.
#[derive(Debug, PartialEq, Eq)]
pub struct FieldDescriptor {
    pub name: String,
    pub declared_type: TypeExpr,
    pub attributes: Vec<AttributeTag>,
}

/// A record type: its name and its fields in declaration order.
#[derive(Debug, PartialEq, Eq)]
pub struct TypeDescriptor {
    pub name: String,
    pub fields: Vec<FieldDescriptor>,
}

/// View of a [`TypeExpr`].
pub struct TypeModel {
    pub text: Seq<char>,
    pub shape: ShapeModel,
}

/// View of a [`TypeShape`].
pub enum ShapeModel {
    Path(Seq<SegmentModel>),
    Other,
}

/// View of a [`PathSegment`].
pub struct SegmentModel {
    pub ident: Seq<char>,
    pub arguments: ArgumentsModel,
}

/// View of a [`PathArguments`].
pub enum ArgumentsModel {
    Plain,
    AngleBracketed(Seq<ArgumentModel>),
    Parenthesized,
}

/// View of a [`GenericArgument`].
pub enum ArgumentModel {
    Type(TypeModel),
    Other,
}

/// View of a [`Token`].
pub enum TokenModel {
    Ident(Seq<char>),
    Punct(char),
    Literal(Seq<char>),
    Group,
}

/// View of an [`AttributeTag`].
pub struct AttributeModel {
    pub path: Seq<char>,
    pub arguments: Option<Seq<TokenModel>>,
}

/// View of a [`FieldDescriptor`].
pub struct FieldModel {
    pub name: Seq<char>,
    pub declared_type: TypeModel,
    pub attributes: Seq<AttributeModel>,
}

/// View of a [`TypeDescriptor`].
pub struct DescriptorModel {
    pub name: Seq<char>,
    pub fields: Seq<FieldModel>,
}

impl View for TypeExpr {
    type V = TypeModel;

    open spec fn view(&self) -> TypeModel
        decreases self,
    {
        TypeModel { text: self.text@, shape: self.shape@ }
    }
}

impl View for TypeShape {
    type V = ShapeModel;

    open spec fn view(&self) -> ShapeModel
        decreases self,
    {
        match self {
            TypeShape::Path(segments) => ShapeModel::Path(
                Seq::new(
                    segments@.len(),
                    |i: int|
                        if 0 <= i < segments@.len() {
                            segments@[i]@
                        } else {
                            arbitrary()
                        },
                ),
            ),
            TypeShape::Other => ShapeModel::Other,
        }
    }
}

impl View for PathSegment {
    type V = SegmentModel;

    open spec fn view(&self) -> SegmentModel
        decreases self,
    {
        SegmentModel { ident: self.ident@, arguments: self.arguments@ }
    }
}

impl View for PathArguments {
    type V = ArgumentsModel;

    open spec fn view(&self) -> ArgumentsModel
        decreases self,
    {
        match self {
            PathArguments::Plain => ArgumentsModel::Plain,
            PathArguments::AngleBracketed(arguments) => ArgumentsModel::AngleBracketed(
                Seq::new(
                    arguments@.len(),
                    |i: int|
                        if 0 <= i < arguments@.len() {
                            arguments@[i]@
                        } else {
                            arbitrary()
                        },
                ),
            ),
            PathArguments::Parenthesized => ArgumentsModel::Parenthesized,
        }
    }
}

impl View for GenericArgument {
    type V = ArgumentModel;

    open spec fn view(&self) -> ArgumentModel
        decreases self,
    {
        match self {
            GenericArgument::Type(ty) => ArgumentModel::Type(ty@),
            GenericArgument::Other => ArgumentModel::Other,
        }
    }
}

impl View for Token {
    type V = TokenModel;

    open spec fn view(&self) -> TokenModel {
        match self {
            Token::Ident(name) => TokenModel::Ident(name@),
            Token::Punct(character) => TokenModel::Punct(*character),
            Token::Literal(source) => TokenModel::Literal(source@),
            Token::Group => TokenModel::Group,
        }
    }
}

/// The views of a run of tokens.
pub open spec fn token_models(tokens: Seq<Token>) -> Seq<TokenModel> {
    Seq::new(tokens.len(), |i: int| tokens[i]@)
}

impl View for AttributeTag {
    type V = AttributeModel;

    open spec fn view(&self) -> AttributeModel {
        AttributeModel {
            path: self.path@,
            arguments: match self.arguments {
                Some(tokens) => Some(token_models(tokens@)),
                None => None,
            },
        }
    }
}

impl View for FieldDescriptor {
    type V = FieldModel;

    open spec fn view(&self) -> FieldModel {
        FieldModel {
            name: self.name@,
            declared_type: self.declared_type@,
            attributes: Seq::new(self.attributes@.len(), |i: int| self.attributes@[i]@),
        }
    }
}

impl View for TypeDescriptor {
    type V = DescriptorModel;

    open spec fn view(&self) -> DescriptorModel {
        DescriptorModel {
            name: self.name@,
            fields: Seq::new(self.fields@.len(), |i: int| self.fields@[i]@),
        }
    }
}

} // verus!
