//! Code emission: the text of the conversion routine and of the marker.

use crate::diagnostic::{marker_path, Derive};
use crate::directive::{ResolvedMapping, ResolvedMappingView, SourceTypeReference};
use vstd::prelude::*;
use vstd::string::StringExecFns;

verus! {

/// The expression that reads through `access`, starting at the binding
/// `source`: one `.field` per entry, left to right.
pub open spec fn access_expression(access: Seq<Seq<char>>) -> Seq<char>
    decreases access.len(),
{
    if access.len() == 0 {
        "source"@
    } else {
        access_expression(access.drop_last()) + "."@ + access.last()
    }
}

/// What initializes one target field: the field, a colon, the expression.
pub open spec fn initializer(mapping: ResolvedMappingView) -> Seq<char> {
    mapping.target + ": "@ + access_expression(mapping.access)
}

/// The initializers of all target fields, in their order: each on a line of
/// its own, with a comma between neighbours and none after the last.
pub open spec fn initializers(mappings: Seq<ResolvedMappingView>) -> Seq<char>
    decreases mappings.len(),
{
    if mappings.len() == 0 {
        Seq::<char>::empty()
    } else if mappings.len() == 1 {
        "\n            "@ + initializer(mappings.last())
    } else {
        initializers(mappings.drop_last()) + ",\n            "@ + initializer(mappings.last())
    }
}

/// The conversion routine: `From<source>` for `target`, building the target
/// field by field.
pub open spec fn conversion_text(
    source: Seq<char>,
    target: Seq<char>,
    mappings: Seq<ResolvedMappingView>,
) -> Seq<char> {
    "impl From<"@ + source + "> for "@ + target + " {\n    fn from(source: "@ + source
        + ") -> Self {\n        Self {"@ + initializers(mappings) + "\n        }\n    }\n}\n"@
}

/// The marker: an empty impl of the derive's marker trait.
pub open spec fn marker_text(derive: Derive, source: Seq<char>, target: Seq<char>) -> Seq<char> {
    "impl "@ + marker_path(derive) + "<"@ + source + "> for "@ + target + " {}\n"@
}

/// Everything that is generated for one target type: the conversion
/// routine, an empty line, the marker.
pub open spec fn generated_text(
    derive: Derive,
    source: Seq<char>,
    target: Seq<char>,
    mappings: Seq<ResolvedMappingView>,
) -> Seq<char> {
    conversion_text(source, target, mappings) + "\n"@ + marker_text(derive, source, target)
}

/// Writes the expression that reads through `access`.
pub fn emit_access(access: &Vec<String>) -> (text: String)
    ensures
        text@ == access_expression(access.deep_view()),
{
    let mut text = String::from_str("source");
    let mut index: usize = 0;
    while index < access.len()
        invariant
            index <= access.len(),
            text@ == access_expression(access.deep_view().take(index as int)),
        decreases access.len() - index,
    {
        assert(access.deep_view().take(index + 1).drop_last() =~= access.deep_view().take(
            index as int,
        ));
        text.append(".");
        text.append(access[index].as_str());
        index += 1;
    }
    assert(access.deep_view().take(access.len() as int) =~= access.deep_view());
    text
}

/// Writes the initializers of all target fields.
pub fn emit_initializers(mappings: &Vec<ResolvedMapping>) -> (text: String)
    ensures
        text@ == initializers(mappings.deep_view()),
{
    let mut text = String::new();
    let mut index: usize = 0;
    while index < mappings.len()
        invariant
            index <= mappings.len(),
            text@ == initializers(mappings.deep_view().take(index as int)),
        decreases mappings.len() - index,
    {
        assert(mappings.deep_view().take(index + 1).drop_last() =~= mappings.deep_view().take(
            index as int,
        ));
        let mapping = &mappings[index];
        let expression = emit_access(&mapping.access);
        if index == 0 {
            text.append("\n            ");
        } else {
            text.append(",\n            ");
        }
        text.append(mapping.target.as_str());
        text.append(": ");
        text.append(expression.as_str());
        index += 1;
    }
    assert(mappings.deep_view().take(mappings.len() as int) =~= mappings.deep_view());
    text
}

/// Writes the conversion routine.
pub fn emit_conversion(
    source: &SourceTypeReference,
    target: &String,
    mappings: &Vec<ResolvedMapping>,
) -> (text: String)
    ensures
        text@ == conversion_text(source@, target@, mappings.deep_view()),
{
    let body = emit_initializers(mappings);
    let mut text = String::from_str("impl From<");
    text.append(source.name.as_str());
    text.append("> for ");
    text.append(target.as_str());
    text.append(" {\n    fn from(source: ");
    text.append(source.name.as_str());
    text.append(") -> Self {\n        Self {");
    text.append(body.as_str());
    text.append("\n        }\n    }\n}\n");
    text
}

/// Writes the marker declaration.
pub fn emit_marker(derive: Derive, source: &SourceTypeReference, target: &String) -> (text: String)
    ensures
        text@ == marker_text(derive, source@, target@),
{
    let marker = derive.marker_path();
    let mut text = String::from_str("impl ");
    text.append(marker.as_str());
    text.append("<");
    text.append(source.name.as_str());
    text.append("> for ");
    text.append(target.as_str());
    text.append(" {}\n");
    text
}

/// Writes everything that is generated for one target type.
pub fn emit(
    derive: Derive,
    source: &SourceTypeReference,
    target: &String,
    mappings: &Vec<ResolvedMapping>,
) -> (text: String)
    ensures
        text@ == generated_text(derive, source@, target@, mappings.deep_view()),
{
    let marker = emit_marker(derive, source, target);
    let mut text = emit_conversion(source, target, mappings);
    text.append("\n");
    text.append(marker.as_str());
    text
}

} // verus!
