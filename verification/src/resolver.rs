//! Field resolution: from a field's directives to the source fields it reads.

use crate::directive::{
    FieldDescriptor, FieldDescriptorView, MappingDirective, MappingDirectiveView, ResolvedMapping,
    ResolvedMappingView,
};
use crate::path::{segments, split_path};
use vstd::prelude::*;

verus! {

/// The directive in force for a field: an alias if there is one, whatever
/// else the field carries; failing that a path, split at its dots; failing
/// that the default.
pub open spec fn effective_directive(descriptor: FieldDescriptorView) -> MappingDirectiveView {
    match descriptor.alias {
        Some(name) => MappingDirectiveView::Alias(name),
        None => match descriptor.path {
            Some(path) => MappingDirectiveView::Path(segments(path)),
            None => MappingDirectiveView::Default,
        },
    }
}

/// The source fields that a directive reads for the target field `target`.
pub open spec fn access_of(target: Seq<char>, directive: MappingDirectiveView) -> Seq<Seq<char>> {
    match directive {
        MappingDirectiveView::Default => seq![target],
        MappingDirectiveView::Alias(name) => seq![name],
        MappingDirectiveView::Path(fields) => fields,
    }
}

/// The mapping that a field's descriptor resolves to.
pub open spec fn resolved(descriptor: FieldDescriptorView) -> ResolvedMappingView {
    ResolvedMappingView {
        target: descriptor.name,
        access: access_of(descriptor.name, effective_directive(descriptor)),
    }
}

/// The mappings of all fields, in their order.
pub open spec fn resolved_all(descriptors: Seq<FieldDescriptorView>) -> Seq<ResolvedMappingView> {
    Seq::new(descriptors.len(), |i: int| resolved(descriptors[i]))
}

impl FieldDescriptor {
    /// The directive in force for this field.
    pub fn directive(&self) -> (directive: MappingDirective)
        ensures
            directive@ == effective_directive(self@),
    {
        match &self.alias {
            Some(name) => MappingDirective::Alias(name.clone()),
            None => match &self.path {
                Some(path) => MappingDirective::Path(split_path(path.as_str())),
                None => MappingDirective::Default,
            },
        }
    }
}

/// Pairs the target field `target` with the source fields that `directive`
/// reads for it.
pub fn resolve(target: &String, directive: MappingDirective) -> (mapping: ResolvedMapping)
    ensures
        mapping@ == (ResolvedMappingView {
            target: target@,
            access: access_of(target@, directive@),
        }),
{
    let access = match directive {
        MappingDirective::Default => {
            let mut own: Vec<String> = Vec::new();
            own.push(target.clone());
            assert(own.deep_view() =~= seq![target@]);
            own
        },
        MappingDirective::Alias(name) => {
            let mut renamed: Vec<String> = Vec::new();
            renamed.push(name);
            assert(renamed.deep_view() =~= seq![directive@->Alias_0]);
            renamed
        },
        MappingDirective::Path(fields) => fields,
    };
    ResolvedMapping { target: target.clone(), access }
}

/// Resolves one field.
pub fn resolve_field(descriptor: &FieldDescriptor) -> (mapping: ResolvedMapping)
    ensures
        mapping@ == resolved(descriptor@),
{
    resolve(&descriptor.name, descriptor.directive())
}

/// Resolves every field, in order.
pub fn resolve_fields(descriptors: &Vec<FieldDescriptor>) -> (mappings: Vec<ResolvedMapping>)
    ensures
        mappings.deep_view() == resolved_all(descriptors.deep_view()),
{
    let mut mappings: Vec<ResolvedMapping> = Vec::new();
    let mut index: usize = 0;
    while index < descriptors.len()
        invariant
            index <= descriptors.len(),
            mappings.len() == index,
            forall|i: int|
                0 <= i < index ==> (#[trigger] mappings@[i])@ == resolved(descriptors@[i]@),
        decreases descriptors.len() - index,
    {
        mappings.push(resolve_field(&descriptors[index]));
        index += 1;
    }
    mappings
}

} // verus!
