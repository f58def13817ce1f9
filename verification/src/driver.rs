//! The driver: one pass from a type definition to generated text or to a
//! diagnostic.

use crate::definition::{Shape, TypeDefinition, TypeDefinitionView};
use crate::diagnostic::{
    diagnostic, outcome_view, Anchor, Derive, Diagnostic, DiagnosticView, ErrorKind,
};
use crate::directive::{
    DirectiveModel, DirectiveModelView, ResolvedMapping, ResolvedMappingView, SourceTypeReference,
};
use crate::emitter::{emit, generated_text};
use crate::parser::{parse_annotations, parsed_model};
use crate::resolver::{resolve_fields, resolved_all};
use vstd::prelude::*;

verus! {

/// What one pass over a type definition yields: the generated text, or the
/// first diagnostic in the order shape, type-level directive, fields in
/// declaration order.
pub open spec fn expansion(definition: TypeDefinitionView, derive: Derive) -> Result<
    Seq<char>,
    DiagnosticView,
> {
    if definition.shape != Shape::NamedStruct {
        Err(diagnostic(derive, ErrorKind::NotANamedStruct, Anchor::TypeName))
    } else {
        match parsed_model(definition, derive) {
            Ok(model) => Ok(
                generated_text(derive, model.source, definition.name, resolved_all(model.fields)),
            ),
            Err(error) => Err(error),
        }
    }
}

/// The stages of a pass.
#[derive(Clone, Debug, PartialEq, Eq)]
pub enum Driver {
    /// Nothing has been looked at.
    Start { definition: TypeDefinition },
    /// The item is a struct with named fields; its annotations are next.
    Parsing { definition: TypeDefinition },
    /// The annotations are parsed; the fields are to be resolved.
    Resolving { target: String, model: DirectiveModel },
    /// Every field is resolved; the text is to be written.
    Emitting { target: String, source: SourceTypeReference, mappings: Vec<ResolvedMapping> },
    /// The pass ended with generated text.
    Done { code: String },
    /// The pass ended with a diagnostic.
    Errored { diagnostic: Diagnostic },
}

/// The mathematical value of a [`Driver`].
pub enum DriverView {
    Start { definition: TypeDefinitionView },
    Parsing { definition: TypeDefinitionView },
    Resolving { target: Seq<char>, model: DirectiveModelView },
    Emitting { target: Seq<char>, source: Seq<char>, mappings: Seq<ResolvedMappingView> },
    Done { code: Seq<char> },
    Errored { diagnostic: DiagnosticView },
}

impl View for Driver {
    type V = DriverView;

    open spec fn view(&self) -> DriverView {
        match self {
            Driver::Start { definition } => DriverView::Start { definition: definition@ },
            Driver::Parsing { definition } => DriverView::Parsing { definition: definition@ },
            Driver::Resolving { target, model } => DriverView::Resolving {
                target: target@,
                model: model@,
            },
            Driver::Emitting { target, source, mappings } => DriverView::Emitting {
                target: target@,
                source: source@,
                mappings: mappings.deep_view(),
            },
            Driver::Done { code } => DriverView::Done { code: code@ },
            Driver::Errored { diagnostic } => DriverView::Errored { diagnostic: diagnostic@ },
        }
    }
}

impl DriverView {
    /// The stage that follows this one. The two final stages stay as they
    /// are.
    pub open spec fn step(self, derive: Derive) -> DriverView {
        match self {
            DriverView::Start { definition } => {
                if definition.shape == Shape::NamedStruct {
                    DriverView::Parsing { definition }
                } else {
                    DriverView::Errored {
                        diagnostic: diagnostic(
                            derive,
                            ErrorKind::NotANamedStruct,
                            Anchor::TypeName,
                        ),
                    }
                }
            },
            DriverView::Parsing { definition } => {
                match parsed_model(definition, derive) {
                    Ok(model) => DriverView::Resolving { target: definition.name, model },
                    Err(error) => DriverView::Errored { diagnostic: error },
                }
            },
            DriverView::Resolving { target, model } => DriverView::Emitting {
                target,
                source: model.source,
                mappings: resolved_all(model.fields),
            },
            DriverView::Emitting { target, source, mappings } => DriverView::Done {
                code: generated_text(derive, source, target, mappings),
            },
            DriverView::Done { code } => self,
            DriverView::Errored { diagnostic } => self,
        }
    }

    /// Whether the pass has ended.
    pub open spec fn is_final(self) -> bool {
        self is Done || self is Errored
    }

    /// How many steps lie between this stage and a final one, at most.
    pub open spec fn remaining(self) -> nat {
        match self {
            DriverView::Start { .. } => 4,
            DriverView::Parsing { .. } => 3,
            DriverView::Resolving { .. } => 2,
            DriverView::Emitting { .. } => 1,
            DriverView::Done { .. } => 0,
            DriverView::Errored { .. } => 0,
        }
    }

    /// What the pass yields when it is driven on from this stage.
    pub open spec fn completed(self, derive: Derive) -> Result<Seq<char>, DiagnosticView>
        decreases self.remaining(),
    {
        match self {
            DriverView::Done { code } => Ok(code),
            DriverView::Errored { diagnostic } => Err(diagnostic),
            _ => self.step(derive).completed(derive),
        }
    }
}

impl Driver {
    /// The first stage of a pass over `definition`.
    pub fn start(definition: TypeDefinition) -> (state: Driver)
        ensures
            state@ == (DriverView::Start { definition: definition@ }),
    {
        Driver::Start { definition }
    }

    /// Takes one step.
    pub fn advance(self, derive: Derive) -> (next: Driver)
        ensures
            next@ == self@.step(derive),
    {
        match self {
            Driver::Start { definition } => {
                match definition.shape {
                    Shape::NamedStruct => Driver::Parsing { definition },
                    _ => Driver::Errored {
                        diagnostic: Diagnostic::new(
                            derive,
                            ErrorKind::NotANamedStruct,
                            Anchor::TypeName,
                        ),
                    },
                }
            },
            Driver::Parsing { definition } => {
                match parse_annotations(&definition, derive) {
                    Ok(model) => Driver::Resolving { target: definition.name, model },
                    Err(error) => Driver::Errored { diagnostic: error },
                }
            },
            Driver::Resolving { target, model } => {
                let mappings = resolve_fields(&model.fields);
                Driver::Emitting { target, source: model.source, mappings }
            },
            Driver::Emitting { target, source, mappings } => {
                let code = emit(derive, &source, &target, &mappings);
                Driver::Done { code }
            },
            Driver::Done { code } => Driver::Done { code },
            Driver::Errored { diagnostic } => Driver::Errored { diagnostic },
        }
    }

    /// Drives the pass on to its end.
    pub fn finish(self, derive: Derive) -> (outcome: Result<String, Diagnostic>)
        ensures
            outcome_view(outcome) == self@.completed(derive),
        decreases self@.remaining(),
    {
        match self {
            Driver::Done { code } => Ok(code),
            Driver::Errored { diagnostic } => Err(diagnostic),
            unfinished => unfinished.advance(derive).finish(derive),
        }
    }
}

/// A pass from the first stage yields the expansion of its definition.
pub proof fn lemma_pass_yields_expansion(definition: TypeDefinitionView, derive: Derive)
    ensures
        (DriverView::Start { definition }).completed(derive) == expansion(definition, derive),
{
    reveal_with_fuel(DriverView::completed, 5);
}

/// Runs one pass over a type definition.
pub fn expand(definition: TypeDefinition, derive: Derive) -> (outcome: Result<String, Diagnostic>)
    ensures
        outcome_view(outcome) == expansion(definition@, derive),
{
    proof {
        lemma_pass_yields_expansion(definition@, derive);
    }
    Driver::start(definition).finish(derive)
}

/// Expands `#[derive(Subset)]` on a type definition.
pub fn impl_subset(input: TypeDefinition) -> (outcome: Result<String, Diagnostic>)
    ensures
        outcome_view(outcome) == expansion(input@, Derive::Subset),
{
    expand(input, Derive::Subset)
}

/// Expands `#[derive(Typelater)]` on a type definition.
pub fn impl_typelater(input: TypeDefinition) -> (outcome: Result<String, Diagnostic>)
    ensures
        outcome_view(outcome) == expansion(input@, Derive::Typelater),
{
    expand(input, Derive::Typelater)
}

} // verus!
