//! Diagnostics: what went wrong, in words, and where.

use vstd::prelude::*;
use vstd::string::StringExecFns;

verus! {

/// Which derive is being expanded. The two share one engine and differ in
/// the annotation namespace, the marker trait and the wording of messages.
#[derive(Clone, Copy, Debug, PartialEq, Eq, Structural)]
pub enum Derive {
    /// `#[derive(Subset)]` with `#[subset(...)]` annotations.
    Subset,
    /// `#[derive(Typelater)]` with `#[typelater(...)]` annotations.
    Typelater,
}

/// The ways in which generation fails.
#[derive(Clone, Copy, Debug, PartialEq, Eq, Structural)]
pub enum ErrorKind {
    /// The type-level `from` directive is absent or does not name a type.
    MissingSourceType,
    /// The annotated item is not a struct with named fields.
    NotANamedStruct,
    /// A field annotation uses something other than `alias` or `path` as key.
    UnsupportedDirective,
    /// A field directive's value is not a string literal that names a field
    /// or a chain of fields.
    MalformedDirectiveValue,
}

/// The source location that a diagnostic points at.
#[derive(Clone, Copy, Debug, PartialEq, Eq, Structural)]
pub enum Anchor {
    /// The name of the annotated type.
    TypeName,
    /// An annotation of a field, both counted from zero in source order.
    Annotation { field: usize, annotation: usize },
    /// A token in the argument list of a field's annotation, all three
    /// counted from zero: the key of the offending directive.
    Directive { field: usize, annotation: usize, token: usize },
}

/// A diagnostic for the host's renderer.
#[derive(Clone, Debug, PartialEq, Eq)]
pub struct Diagnostic {
    pub kind: ErrorKind,
    pub message: String,
    pub anchor: Anchor,
}

/// The mathematical value of a [`Diagnostic`].
pub struct DiagnosticView {
    pub kind: ErrorKind,
    pub message: Seq<char>,
    pub anchor: Anchor,
}

impl View for Diagnostic {
    type V = DiagnosticView;

    open spec fn view(&self) -> DiagnosticView {
        DiagnosticView { kind: self.kind, message: self.message@, anchor: self.anchor }
    }
}

impl DeepView for Diagnostic {
    type V = DiagnosticView;

    open spec fn deep_view(&self) -> DiagnosticView {
        self.view()
    }
}

/// The mathematical value of a result: that of its value, or that of its
/// error.
pub open spec fn outcome_view<T: DeepView, E: DeepView>(outcome: Result<T, E>) -> Result<
    T::V,
    E::V,
> {
    match outcome {
        Ok(value) => Ok(value.deep_view()),
        Err(error) => Err(error.deep_view()),
    }
}

/// The namespace under which a derive reads its annotations.
pub open spec fn namespace(derive: Derive) -> Seq<char> {
    match derive {
        Derive::Subset => "subset"@,
        Derive::Typelater => "typelater"@,
    }
}

/// The path of the marker trait that a derive implements.
pub open spec fn marker_path(derive: Derive) -> Seq<char> {
    match derive {
        Derive::Subset => "subset::Subset"@,
        Derive::Typelater => "typelater::Typelater"@,
    }
}

/// The wording of each kind of failure.
pub open spec fn message_text(derive: Derive, kind: ErrorKind) -> Seq<char> {
    match derive {
        Derive::Subset => match kind {
            ErrorKind::MissingSourceType => "Expected #[subset(from = \"SourceType\")]"@,
            ErrorKind::NotANamedStruct => "Subset can only be derived on structs with named fields"@,
            ErrorKind::UnsupportedDirective =>
                "unsupported subset attribute; expected `alias` or `path`"@,
            ErrorKind::MalformedDirectiveValue =>
                "malformed subset attribute; expected `alias = \"field\"` or `path = \"field.field\"`"@,
        },
        Derive::Typelater => match kind {
            ErrorKind::MissingSourceType => "Expected #[typelater(from = \"SourceType\")]"@,
            ErrorKind::NotANamedStruct =>
                "Typelater can only be derived on structs with named fields"@,
            ErrorKind::UnsupportedDirective =>
                "unsupported typelater attribute; expected `alias` or `path`"@,
            ErrorKind::MalformedDirectiveValue =>
                "malformed typelater attribute; expected `alias = \"field\"` or `path = \"field.field\"`"@,
        },
    }
}

/// The diagnostic of a given kind at a given place.
pub open spec fn diagnostic(derive: Derive, kind: ErrorKind, anchor: Anchor) -> DiagnosticView {
    DiagnosticView { kind, message: message_text(derive, kind), anchor }
}

impl Derive {
    /// The namespace under which this derive reads its annotations.
    pub fn namespace(self) -> (name: String)
        ensures
            name@ == namespace(self),
    {
        match self {
            Derive::Subset => String::from_str("subset"),
            Derive::Typelater => String::from_str("typelater"),
        }
    }

    /// The path of the marker trait that this derive implements.
    pub fn marker_path(self) -> (path: String)
        ensures
            path@ == marker_path(self),
    {
        match self {
            Derive::Subset => String::from_str("subset::Subset"),
            Derive::Typelater => String::from_str("typelater::Typelater"),
        }
    }
}

impl Diagnostic {
    /// Builds the diagnostic of a given kind at a given place.
    pub fn new(derive: Derive, kind: ErrorKind, anchor: Anchor) -> (made: Diagnostic)
        ensures
            made@ == diagnostic(derive, kind, anchor),
    {
        let message = match derive {
            Derive::Subset => match kind {
                ErrorKind::MissingSourceType => String::from_str(
                    "Expected #[subset(from = \"SourceType\")]",
                ),
                ErrorKind::NotANamedStruct => String::from_str(
                    "Subset can only be derived on structs with named fields",
                ),
                ErrorKind::UnsupportedDirective => String::from_str(
                    "unsupported subset attribute; expected `alias` or `path`",
                ),
                ErrorKind::MalformedDirectiveValue => String::from_str(
                    "malformed subset attribute; expected `alias = \"field\"` or `path = \"field.field\"`",
                ),
            },
            Derive::Typelater => match kind {
                ErrorKind::MissingSourceType => String::from_str(
                    "Expected #[typelater(from = \"SourceType\")]",
                ),
                ErrorKind::NotANamedStruct => String::from_str(
                    "Typelater can only be derived on structs with named fields",
                ),
                ErrorKind::UnsupportedDirective => String::from_str(
                    "unsupported typelater attribute; expected `alias` or `path`",
                ),
                ErrorKind::MalformedDirectiveValue => String::from_str(
                    "malformed typelater attribute; expected `alias = \"field\"` or `path = \"field.field\"`",
                ),
            },
        };
        Diagnostic { kind, message, anchor }
    }
}

} // verus!
