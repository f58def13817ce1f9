//! The annotated type definition, as the declaration front end hands it over.

use vstd::prelude::*;

verus! {

/// What kind of item carries the annotations.
#[derive(Clone, Copy, Debug, PartialEq, Eq, Structural)]
pub enum Shape {
    /// A struct with named fields.
    NamedStruct,
    /// A struct with positional fields.
    TupleStruct,
    /// A struct without fields.
    UnitStruct,
    /// An enum.
    Enum,
    /// A union.
    Union,
}

/// One token of an annotation's argument list.
#[derive(Clone, Debug, PartialEq, Eq)]
pub enum Token {
    /// An identifier or keyword.
    Ident(String),
    /// One punctuation character.
    Punct(char),
    /// A string literal, plain or raw: what it denotes, without its quotes
    /// and with its escapes resolved.
    Str(String),
    /// Any other literal, in its source form.
    Literal(String),
    /// A delimited group of further tokens.
    Group,
}

/// The mathematical value of a [`Token`].
pub enum TokenView {
    Ident(Seq<char>),
    Punct(char),
    Str(Seq<char>),
    Literal(Seq<char>),
    Group,
}

impl View for Token {
    type V = TokenView;

    open spec fn view(&self) -> TokenView {
        match self {
            Token::Ident(word) => TokenView::Ident(word@),
            Token::Punct(c) => TokenView::Punct(*c),
            Token::Str(content) => TokenView::Str(content@),
            Token::Literal(text) => TokenView::Literal(text@),
            Token::Group => TokenView::Group,
        }
    }
}

impl DeepView for Token {
    type V = TokenView;

    open spec fn deep_view(&self) -> TokenView {
        self.view()
    }
}

/// One annotation attached to a type or to a field.
#[derive(Clone, Debug, PartialEq, Eq)]
pub struct Annotation {
    /// The annotation's path, its segments joined by `::`.
    pub name: String,
    /// The tokens of the argument list of `#[name(...)]`; `None` for the
    /// forms `#[name]` and `#[name = ...]`, which have no argument list.
    pub arguments: Option<Vec<Token>>,
}

/// The mathematical value of an [`Annotation`].
pub struct AnnotationView {
    pub name: Seq<char>,
    pub arguments: Option<Seq<TokenView>>,
}

impl View for Annotation {
    type V = AnnotationView;

    open spec fn view(&self) -> AnnotationView {
        AnnotationView { name: self.name@, arguments: self.arguments.deep_view() }
    }
}

impl DeepView for Annotation {
    type V = AnnotationView;

    open spec fn deep_view(&self) -> AnnotationView {
        self.view()
    }
}

/// One field of the target type.
#[derive(Clone, Debug, PartialEq, Eq)]
pub struct FieldDefinition {
    /// The field's name.
    pub name: String,
    /// The field's annotations, in source order.
    pub annotations: Vec<Annotation>,
}

/// The mathematical value of a [`FieldDefinition`].
pub struct FieldDefinitionView {
    pub name: Seq<char>,
    pub annotations: Seq<AnnotationView>,
}

impl View for FieldDefinition {
    type V = FieldDefinitionView;

    open spec fn view(&self) -> FieldDefinitionView {
        FieldDefinitionView { name: self.name@, annotations: self.annotations.deep_view() }
    }
}

impl DeepView for FieldDefinition {
    type V = FieldDefinitionView;

    open spec fn deep_view(&self) -> FieldDefinitionView {
        self.view()
    }
}

/// The target type's definition: its name, what kind of item it is, its own
/// annotations and its fields in declaration order.
#[derive(Clone, Debug, PartialEq, Eq)]
pub struct TypeDefinition {
    /// The type's name.
    pub name: String,
    /// The kind of item.
    pub shape: Shape,
    /// The annotations on the type itself, in source order.
    pub annotations: Vec<Annotation>,
    /// The named fields, in declaration order; empty for any other shape.
    pub fields: Vec<FieldDefinition>,
}

/// The mathematical value of a [`TypeDefinition`].
pub struct TypeDefinitionView {
    pub name: Seq<char>,
    pub shape: Shape,
    pub annotations: Seq<AnnotationView>,
    pub fields: Seq<FieldDefinitionView>,
}

impl View for TypeDefinition {
    type V = TypeDefinitionView;

    open spec fn view(&self) -> TypeDefinitionView {
        TypeDefinitionView {
            name: self.name@,
            shape: self.shape,
            annotations: self.annotations.deep_view(),
            fields: self.fields.deep_view(),
        }
    }
}

} // verus!
