//! The directive model: what the annotations of a type say, once parsed.

use crate::identifier::identifier;
use crate::path::identifier_chain;
use vstd::prelude::*;

verus! {

/// The source type that the target narrows, by name.
#[derive(Clone, Debug, PartialEq, Eq)]
pub struct SourceTypeReference {
    pub name: String,
}

impl View for SourceTypeReference {
    type V = Seq<char>;

    open spec fn view(&self) -> Seq<char> {
        self.name@
    }
}

impl DeepView for SourceTypeReference {
    type V = Seq<char>;

    open spec fn deep_view(&self) -> Seq<char> {
        self.view()
    }
}

/// The keys that a field annotation may use.
#[derive(Clone, Copy, Debug, PartialEq, Eq, Structural)]
pub enum DirectiveKey {
    /// `alias = "field"`: read a differently named field of the source.
    Alias,
    /// `path = "field.field"`: read through nested fields of the source.
    Path,
}

/// One target field with the directive values attached to it.
#[derive(Clone, Debug, PartialEq, Eq)]
pub struct FieldDescriptor {
    /// The target field's own name.
    pub name: String,
    /// The value of the last `alias` directive, if there is one.
    pub alias: Option<String>,
    /// The value of the last `path` directive, if there is one.
    pub path: Option<String>,
}

/// The mathematical value of a [`FieldDescriptor`].
pub struct FieldDescriptorView {
    pub name: Seq<char>,
    pub alias: Option<Seq<char>>,
    pub path: Option<Seq<char>>,
}

impl View for FieldDescriptor {
    type V = FieldDescriptorView;

    open spec fn view(&self) -> FieldDescriptorView {
        FieldDescriptorView {
            name: self.name@,
            alias: self.alias.deep_view(),
            path: self.path.deep_view(),
        }
    }
}

impl DeepView for FieldDescriptor {
    type V = FieldDescriptorView;

    open spec fn deep_view(&self) -> FieldDescriptorView {
        self.view()
    }
}

impl FieldDescriptorView {
    /// Whether the directive in force has its form: an alias names a field;
    /// without an alias, a path names a chain of fields. A path beside an
    /// alias is never read and may hold anything.
    pub open spec fn well_formed(self) -> bool {
        match self.alias {
            Some(name) => identifier(name),
            None => match self.path {
                Some(path) => identifier_chain(path),
                None => true,
            },
        }
    }
}

/// Everything that the annotations of one type say: the source type and,
/// for every field in declaration order, its descriptor.
#[derive(Clone, Debug, PartialEq, Eq)]
pub struct DirectiveModel {
    pub source: SourceTypeReference,
    pub fields: Vec<FieldDescriptor>,
}

/// The mathematical value of a [`DirectiveModel`].
pub struct DirectiveModelView {
    pub source: Seq<char>,
    pub fields: Seq<FieldDescriptorView>,
}

impl View for DirectiveModel {
    type V = DirectiveModelView;

    open spec fn view(&self) -> DirectiveModelView {
        DirectiveModelView { source: self.source@, fields: self.fields.deep_view() }
    }
}

impl DeepView for DirectiveModel {
    type V = DirectiveModelView;

    open spec fn deep_view(&self) -> DirectiveModelView {
        self.view()
    }
}

impl DirectiveModelView {
    /// Whether the model can be resolved and emitted as it stands: the
    /// source type is an identifier and every field's directive in force has
    /// its form.
    pub open spec fn well_formed(self) -> bool {
        &&& identifier(self.source)
        &&& forall|i: int| 0 <= i < self.fields.len() ==> (#[trigger] self.fields[i]).well_formed()
    }
}

/// The directive that decides where a field is read from.
#[derive(Clone, Debug, PartialEq, Eq)]
pub enum MappingDirective {
    /// No directive: the source field has the target field's name.
    Default,
    /// The source field has this name.
    Alias(String),
    /// The source field is reached through these nested fields, outermost
    /// first.
    Path(Vec<String>),
}

/// The mathematical value of a [`MappingDirective`].
pub enum MappingDirectiveView {
    Default,
    Alias(Seq<char>),
    Path(Seq<Seq<char>>),
}

impl View for MappingDirective {
    type V = MappingDirectiveView;

    open spec fn view(&self) -> MappingDirectiveView {
        match self {
            MappingDirective::Default => MappingDirectiveView::Default,
            MappingDirective::Alias(name) => MappingDirectiveView::Alias(name@),
            MappingDirective::Path(fields) => MappingDirectiveView::Path(fields.deep_view()),
        }
    }
}

/// A target field paired with the chain of source fields that supplies it:
/// the expression `source.a.b` is held as the fields `a`, `b`.
#[derive(Clone, Debug, PartialEq, Eq)]
pub struct ResolvedMapping {
    /// The target field's name.
    pub target: String,
    /// The fields to go through, starting at the source value.
    pub access: Vec<String>,
}

/// The mathematical value of a [`ResolvedMapping`].
pub struct ResolvedMappingView {
    pub target: Seq<char>,
    pub access: Seq<Seq<char>>,
}

impl View for ResolvedMapping {
    type V = ResolvedMappingView;

    open spec fn view(&self) -> ResolvedMappingView {
        ResolvedMappingView { target: self.target@, access: self.access.deep_view() }
    }
}

impl DeepView for ResolvedMapping {
    type V = ResolvedMappingView;

    open spec fn deep_view(&self) -> ResolvedMappingView {
        self.view()
    }
}

} // verus!
