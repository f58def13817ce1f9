//! What holds of every expansion.

use crate::definition::{
    AnnotationView, FieldDefinitionView, Shape, TokenView, TypeDefinition, TypeDefinitionView,
};
use crate::diagnostic::{
    diagnostic, namespace, outcome_view, Anchor, Derive, Diagnostic, DiagnosticView, ErrorKind,
};
use crate::directive::{DirectiveKey, FieldDescriptorView, ResolvedMappingView};
use crate::driver::{expansion, DriverView};
use crate::emitter::{
    access_expression, generated_text, initializer, initializers, marker_text,
};
use crate::identifier::identifier;
use crate::parser::{
    entry_at, parsed_field, parsed_fields, parsed_fields_from, parsed_model, scan_annotations,
    scan_entries, source_type, source_type_from, EntryView, GatheredView, LocatedView,
};
use crate::path::{dot_free, dotted, identifier_chain, lemma_dotted_segments,
    lemma_segments_dotted, segments};
use crate::resolver::{resolved, resolved_all};
use vstd::prelude::*;

verus! {

// ---------------------------------------------------------------------------
// Fields without directives
// ---------------------------------------------------------------------------

/// A field none of whose annotations belongs to the derive's namespace.
pub open spec fn undirected(field: FieldDefinitionView, derive: Derive) -> bool {
    forall|j: int|
        0 <= j < field.annotations.len() ==> (#[trigger] field.annotations[j]).name != namespace(
            derive,
        )
}

/// The descriptor of a field that carries no directive.
pub open spec fn plain(name: Seq<char>) -> FieldDescriptorView {
    FieldDescriptorView { name, alias: None, path: None }
}

/// The mapping that reads the source field `field` for the target field
/// `target`.
pub open spec fn single_field_mapping(target: Seq<char>, field: Seq<char>) -> ResolvedMappingView {
    ResolvedMappingView { target, access: seq![field] }
}

/// The mapping that reads the source field of the target field's own name.
pub open spec fn same_name_mapping(name: Seq<char>) -> ResolvedMappingView {
    single_field_mapping(name, name)
}

/// Each field paired with the source field of its own name.
pub open spec fn same_name_mappings(fields: Seq<FieldDefinitionView>) -> Seq<ResolvedMappingView> {
    Seq::new(fields.len(), |i: int| same_name_mapping(fields[i].name))
}

proof fn lemma_undirected_scan(
    annotations: Seq<AnnotationView>,
    from: int,
    derive: Derive,
    field: usize,
    gathered: GatheredView,
)
    requires
        0 <= from,
        forall|j: int|
            from <= j < annotations.len() ==> (#[trigger] annotations[j]).name != namespace(derive),
    ensures
        scan_annotations(annotations, from, derive, field, gathered) == Ok::<
            GatheredView,
            DiagnosticView,
        >(gathered),
    decreases annotations.len() - from,
{
    if from < annotations.len() {
        lemma_undirected_scan(annotations, from + 1, derive, field, gathered);
    }
}

proof fn lemma_undirected_fields(
    fields: Seq<FieldDefinitionView>,
    from: int,
    derive: Derive,
    done: Seq<FieldDescriptorView>,
)
    requires
        0 <= from <= fields.len(),
        done.len() == from,
        forall|i: int| 0 <= i < fields.len() ==> undirected(#[trigger] fields[i], derive),
        forall|i: int| 0 <= i < from ==> #[trigger] done[i] == plain(fields[i].name),
    ensures
        parsed_fields_from(fields, from, derive, done) matches Ok(all) && all.len() == fields.len()
            && forall|i: int| 0 <= i < fields.len() ==> #[trigger] all[i] == plain(fields[i].name),
    decreases fields.len() - from,
{
    if from < fields.len() {
        lemma_undirected_scan(
            fields[from].annotations,
            0,
            derive,
            from as usize,
            GatheredView::empty(),
        );
        lemma_undirected_fields(fields, from + 1, derive, done.push(plain(fields[from].name)));
    }
}

/// Reading through one field `name` is written `source.name`.
pub proof fn lemma_single_access(name: Seq<char>)
    ensures
        access_expression(seq![name]) == "source"@ + "."@ + name,
{
    reveal_with_fuel(access_expression, 2);
}

/// Where no field carries a directive, every target field is read from the
/// source field of the same name: the generated text initializes field `f`
/// with `source.f`, for each field, in declaration order.
pub proof fn law_fields_without_directives_keep_their_names(
    definition: TypeDefinitionView,
    derive: Derive,
    source: Seq<char>,
)
    requires
        definition.shape == Shape::NamedStruct,
        source_type(definition.annotations, derive) == Some(source),
        forall|i: int|
            0 <= i < definition.fields.len() ==> undirected(
                #[trigger] definition.fields[i],
                derive,
            ),
    ensures
        expansion(definition, derive) == Ok::<Seq<char>, DiagnosticView>(
            generated_text(derive, source, definition.name, same_name_mappings(definition.fields)),
        ),
        forall|name: Seq<char>| #[trigger]
            initializer(same_name_mapping(name)) == name + ": "@ + ("source"@ + "."@ + name),
{
    let fields = definition.fields;
    lemma_undirected_fields(fields, 0, derive, Seq::<FieldDescriptorView>::empty());
    let all = parsed_fields(fields, derive)->Ok_0;
    assert(resolved_all(all) =~= same_name_mappings(fields));
    assert forall|name: Seq<char>| #[trigger]
        initializer(same_name_mapping(name)) == name + ": "@ + ("source"@ + "."@ + name) by {
        lemma_single_access(name);
    }
}

// ---------------------------------------------------------------------------
// Aliases and paths
// ---------------------------------------------------------------------------

/// The argument list that holds the one directive `key = "value"`.
pub open spec fn one_directive(key: Seq<char>, value: Seq<char>) -> Seq<TokenView> {
    seq![TokenView::Ident(key), TokenView::Punct('='), TokenView::Str(value)]
}

/// A field with an alias is read from the source field that the alias
/// names, whatever the target field is called and whatever path the field
/// carries besides.
pub proof fn law_alias_decides(descriptor: FieldDescriptorView, alias: Seq<char>)
    requires
        descriptor.alias == Some(alias),
    ensures
        resolved(descriptor) == single_field_mapping(descriptor.name, alias),
        access_expression(resolved(descriptor).access) == "source"@ + "."@ + alias,
{
    lemma_single_access(alias);
}

/// An alias beside a path wins without a word: what the path holds is
/// neither read nor held to any form, and no diagnostic comes of it.
pub proof fn law_alias_wins_over_any_path(
    name: Seq<char>,
    alias: LocatedView,
    path: Option<LocatedView>,
    derive: Derive,
)
    requires
        identifier(alias.value),
    ensures
        (GatheredView { alias: Some(alias), path }).settled(name, derive) matches Ok(descriptor)
            && resolved(descriptor) == single_field_mapping(name, alias.value),
{
}

/// The annotation `alias = "x"` on a field gives the field the alias `x`:
/// the field is read from `source.x`.
pub proof fn law_alias_annotation_reads_named_field(
    field: FieldDefinitionView,
    index: usize,
    derive: Derive,
    alias: Seq<char>,
)
    requires
        field.annotations == seq![
            AnnotationView {
                name: namespace(derive),
                arguments: Some(one_directive("alias"@, alias)),
            },
        ],
        identifier(alias),
    ensures
        parsed_field(field, index, derive) matches Ok(descriptor) && resolved(descriptor)
            == single_field_mapping(field.name, alias),
{
    reveal_with_fuel(scan_entries, 2);
    reveal_with_fuel(scan_annotations, 2);
}

/// Reading through one or more fields is written as `source.` followed by
/// the fields with dots between them.
pub proof fn lemma_access_is_dotted(access: Seq<Seq<char>>)
    requires
        access.len() >= 1,
    ensures
        access_expression(access) == "source"@ + "."@ + dotted(access),
    decreases access.len(),
{
    reveal_strlit(".");
    if access.len() == 1 {
        lemma_single_access(access[0]);
        assert(access =~= seq![access[0]]);
    } else {
        lemma_access_is_dotted(access.drop_last());
    }
}

/// A field with a path and no alias is read through the segments of the
/// path, outermost first: the expression is `source.` followed by the path
/// as it was written.
pub proof fn law_path_is_followed(descriptor: FieldDescriptorView, path: Seq<char>)
    requires
        descriptor.alias is None,
        descriptor.path == Some(path),
    ensures
        resolved(descriptor) == (ResolvedMappingView {
            target: descriptor.name,
            access: segments(path),
        }),
        access_expression(segments(path)) == "source"@ + "."@ + path,
{
    lemma_segments_dotted(path);
    lemma_access_is_dotted(segments(path));
}

/// The path `a.b` reads the field `b` of the field `a` of the source.
pub proof fn law_two_segment_path(
    descriptor: FieldDescriptorView,
    outer: Seq<char>,
    inner: Seq<char>,
)
    requires
        descriptor.alias is None,
        descriptor.path == Some(outer + seq!['.'] + inner),
        dot_free(outer),
        dot_free(inner),
    ensures
        resolved(descriptor).access == seq![outer, inner],
{
    reveal_with_fuel(dotted, 2);
    lemma_dotted_segments(seq![outer, inner]);
}

/// A path of one segment is an alias by another name: it is accepted exactly
/// when the alias would be, and resolves to the same mapping.
pub proof fn law_single_segment_path_is_alias(
    name: Seq<char>,
    field: LocatedView,
    derive: Derive,
)
    requires
        dot_free(field.value),
    ensures
        identifier_chain(field.value) == identifier(field.value),
        (GatheredView { alias: None, path: Some(field) }).settled(name, derive) is Ok == (
        GatheredView { alias: Some(field), path: None }).settled(name, derive) is Ok,
        (GatheredView { alias: None, path: Some(field) }).settled(name, derive) is Err ==> (
        GatheredView { alias: None, path: Some(field) }).settled(name, derive)->Err_0 == (
        GatheredView { alias: Some(field), path: None }).settled(name, derive)->Err_0,
        resolved(FieldDescriptorView { name, alias: None, path: Some(field.value) }) == resolved(
            FieldDescriptorView { name, alias: Some(field.value), path: None },
        ),
{
    lemma_dotted_segments(seq![field.value]);
    assert(identifier_chain(field.value) == identifier(field.value));
}

// ---------------------------------------------------------------------------
// Whole expansions
// ---------------------------------------------------------------------------

/// The annotation of the derive's namespace that holds the one directive
/// `key = "value"`.
pub open spec fn directive_annotation(derive: Derive, key: Seq<char>, value: Seq<char>)
    -> AnnotationView {
    AnnotationView { name: namespace(derive), arguments: Some(one_directive(key, value)) }
}

/// The struct `target` with named fields `fields`, declared to narrow
/// `source`.
pub open spec fn narrowing(
    derive: Derive,
    target: Seq<char>,
    source: Seq<char>,
    fields: Seq<FieldDefinitionView>,
) -> TypeDefinitionView {
    TypeDefinitionView {
        name: target,
        shape: Shape::NamedStruct,
        annotations: seq![directive_annotation(derive, "from"@, source)],
        fields,
    }
}

/// A field that carries the one directive `key = "value"`.
pub open spec fn directed_field(derive: Derive, name: Seq<char>, key: Seq<char>, value: Seq<char>)
    -> FieldDefinitionView {
    FieldDefinitionView { name, annotations: seq![directive_annotation(derive, key, value)] }
}

/// A field without annotations.
pub open spec fn bare_field(name: Seq<char>) -> FieldDefinitionView {
    FieldDefinitionView { name, annotations: Seq::<AnnotationView>::empty() }
}

/// A target with one renamed field is converted by reading the field that
/// the alias names: for the field `name` with `alias = "username"` the
/// generated routine holds the one initializer `name: source.username`.
pub proof fn law_renamed_field_is_converted(
    derive: Derive,
    target: Seq<char>,
    source: Seq<char>,
    field: Seq<char>,
    alias: Seq<char>,
)
    requires
        identifier(source),
        identifier(alias),
    ensures
        expansion(
            narrowing(derive, target, source, seq![directed_field(derive, field, "alias"@, alias)]),
            derive,
        ) == Ok::<Seq<char>, DiagnosticView>(
            "impl From<"@ + source + "> for "@ + target + " {\n    fn from(source: "@ + source
                + ") -> Self {\n        Self {"@ + ("\n            "@ + (field + ": "@ + ("source"@
                + "."@ + alias))) + "\n        }\n    }\n}\n"@ + "\n"@ + marker_text(
                derive,
                source,
                target,
            ),
        ),
{
    let renamed = directed_field(derive, field, "alias"@, alias);
    let definition = narrowing(derive, target, source, seq![renamed]);
    reveal_with_fuel(source_type_from, 2);
    reveal_with_fuel(parsed_fields_from, 2);
    reveal_with_fuel(initializers, 2);
    law_alias_annotation_reads_named_field(renamed, 0, derive, alias);
    lemma_single_access(alias);
    let descriptor = parsed_field(renamed, 0, derive)->Ok_0;
    assert(parsed_fields(definition.fields, derive) == Ok::<
        Seq<FieldDescriptorView>,
        DiagnosticView,
    >(seq![descriptor]));
    assert(resolved_all(seq![descriptor]) =~= seq![single_field_mapping(field, alias)]);
}

/// A target with one field of its own name and one nested field is
/// converted by reading the first under its name and the second through the
/// path: for the fields `username` and `followers` with
/// `path = "metadata.followers"` the generated routine holds the two
/// initializers `username: source.username` and
/// `followers: source.metadata.followers`.
pub proof fn law_nested_field_is_converted(
    derive: Derive,
    target: Seq<char>,
    source: Seq<char>,
    same: Seq<char>,
    nested: Seq<char>,
    outer: Seq<char>,
    inner: Seq<char>,
)
    requires
        identifier(source),
        identifier(outer),
        identifier(inner),
        dot_free(outer),
        dot_free(inner),
    ensures
        expansion(
            narrowing(
                derive,
                target,
                source,
                seq![
                    bare_field(same),
                    directed_field(derive, nested, "path"@, outer + seq!['.'] + inner),
                ],
            ),
            derive,
        ) == Ok::<Seq<char>, DiagnosticView>(
            "impl From<"@ + source + "> for "@ + target + " {\n    fn from(source: "@ + source
                + ") -> Self {\n        Self {"@ + ("\n            "@ + (same + ": "@ + ("source"@
                + "."@ + same)) + ",\n            "@ + (nested + ": "@ + ("source"@ + "."@ + outer
                + "."@ + inner))) + "\n        }\n    }\n}\n"@ + "\n"@ + marker_text(
                derive,
                source,
                target,
            ),
        ),
{
    let path = outer + seq!['.'] + inner;
    let first = bare_field(same);
    let second = directed_field(derive, nested, "path"@, path);
    let definition = narrowing(derive, target, source, seq![first, second]);
    reveal_strlit("alias");
    reveal_strlit("path");
    reveal_with_fuel(source_type_from, 2);
    reveal_with_fuel(scan_entries, 2);
    reveal_with_fuel(scan_annotations, 2);
    reveal_with_fuel(parsed_fields_from, 3);
    reveal_with_fuel(initializers, 3);
    reveal_with_fuel(access_expression, 3);
    reveal_with_fuel(dotted, 2);
    lemma_dotted_segments(seq![outer, inner]);
    assert(segments(path) == seq![outer, inner]);
    assert("path"@.len() == 4 && "alias"@.len() == 5);
    let plain_descriptor = plain(same);
    let path_descriptor = FieldDescriptorView { name: nested, alias: None, path: Some(path) };
    assert(parsed_field(first, 0, derive) == Ok::<FieldDescriptorView, DiagnosticView>(
        plain_descriptor,
    ));
    assert(parsed_field(second, 1, derive) == Ok::<FieldDescriptorView, DiagnosticView>(
        path_descriptor,
    ));
    let empty = Seq::<FieldDescriptorView>::empty();
    assert(definition.fields[0] == first && definition.fields[1] == second);
    assert(parsed_fields(definition.fields, derive) == Ok::<
        Seq<FieldDescriptorView>,
        DiagnosticView,
    >(empty.push(plain_descriptor).push(path_descriptor)));
    assert(empty.push(plain_descriptor).push(path_descriptor) =~= seq![
        plain_descriptor,
        path_descriptor,
    ]);
    let mappings = seq![
        single_field_mapping(same, same),
        ResolvedMappingView { target: nested, access: seq![outer, inner] },
    ];
    assert(resolved_all(seq![plain_descriptor, path_descriptor]) =~= mappings);
    assert(mappings.drop_last() =~= seq![single_field_mapping(same, same)]);
    assert(seq![outer, inner].drop_last() =~= seq![outer]);
    assert(seq![outer].drop_last() =~= Seq::<Seq<char>>::empty());
    assert(seq![same].drop_last() =~= Seq::<Seq<char>>::empty());
}

// ---------------------------------------------------------------------------
// Failures
// ---------------------------------------------------------------------------

/// A type none of whose annotations belongs to the derive's namespace.
pub open spec fn undeclared(definition: TypeDefinitionView, derive: Derive) -> bool {
    forall|j: int|
        0 <= j < definition.annotations.len() ==> (#[trigger] definition.annotations[j]).name
            != namespace(derive)
}

proof fn lemma_undeclared_source(annotations: Seq<AnnotationView>, from: int, derive: Derive)
    requires
        0 <= from,
        forall|j: int|
            from <= j < annotations.len() ==> (#[trigger] annotations[j]).name != namespace(derive),
    ensures
        source_type_from(annotations, from, derive) is None,
    decreases annotations.len() - from,
{
    if from < annotations.len() {
        lemma_undeclared_source(annotations, from + 1, derive);
    }
}

/// A struct with named fields that lacks the type-level `from` directive
/// fails with `MissingSourceType` at the type's name. Whatever the item is,
/// nothing is generated for it.
pub proof fn law_missing_from_directive(definition: TypeDefinitionView, derive: Derive)
    requires
        undeclared(definition, derive),
    ensures
        expansion(definition, derive) is Err,
        definition.shape == Shape::NamedStruct ==> expansion(definition, derive) == Err::<
            Seq<char>,
            DiagnosticView,
        >(diagnostic(derive, ErrorKind::MissingSourceType, Anchor::TypeName)),
{
    lemma_undeclared_source(definition.annotations, 0, derive);
}

/// Anything but a struct with named fields fails with `NotANamedStruct` at
/// the type's name, whatever its annotations say.
pub proof fn law_only_named_structs(definition: TypeDefinitionView, derive: Derive)
    requires
        definition.shape != Shape::NamedStruct,
    ensures
        expansion(definition, derive) == Err::<Seq<char>, DiagnosticView>(
            diagnostic(derive, ErrorKind::NotANamedStruct, Anchor::TypeName),
        ),
{
}

/// Whether the scan of an argument list, begun at position `from`, comes to
/// expect a directive at position `position`: every entry on the way is a
/// directive.
pub open spec fn reaches(tokens: Seq<TokenView>, from: int, position: int) -> bool
    decreases tokens.len() - from,
{
    from == position || match entry_at(tokens, from) {
        EntryView::Found { key, value, next } => reaches(tokens, next, position),
        _ => false,
    }
}

proof fn lemma_scan_stops_at_unsupported(
    tokens: Seq<TokenView>,
    from: int,
    position: int,
    derive: Derive,
    field: usize,
    annotation: usize,
    gathered: GatheredView,
)
    requires
        reaches(tokens, from, position),
        entry_at(tokens, position) is Unsupported,
    ensures
        scan_entries(tokens, from, derive, field, annotation, gathered) == Err::<
            GatheredView,
            DiagnosticView,
        >(
            diagnostic(
                derive,
                ErrorKind::UnsupportedDirective,
                Anchor::Directive { field, annotation, token: position as usize },
            ),
        ),
    decreases tokens.len() - from,
{
    if from != position {
        match entry_at(tokens, from) {
            EntryView::Found { key, value, next } => {
                let here = Anchor::Directive { field, annotation, token: from as usize };
                lemma_scan_stops_at_unsupported(
                    tokens,
                    next,
                    position,
                    derive,
                    field,
                    annotation,
                    gathered.with(key, value, here),
                );
            },
            _ => {},
        }
    }
}

proof fn lemma_annotations_prefix(
    annotations: Seq<AnnotationView>,
    from: int,
    upto: int,
    derive: Derive,
    field: usize,
    gathered: GatheredView,
)
    requires
        0 <= from <= upto <= annotations.len(),
    ensures
        scan_annotations(annotations, from, derive, field, gathered) == match scan_annotations(
            annotations.take(upto),
            from,
            derive,
            field,
            gathered,
        ) {
            Ok(extended) => scan_annotations(annotations, upto, derive, field, extended),
            Err(error) => Err(error),
        },
    decreases upto - from,
{
    if from < upto {
        if annotations[from].name != namespace(derive) {
            lemma_annotations_prefix(annotations, from + 1, upto, derive, field, gathered);
        } else {
            match annotations[from].arguments {
                Some(tokens) => {
                    match scan_entries(tokens, 0, derive, field, from as usize, gathered) {
                        Ok(extended) => {
                            lemma_annotations_prefix(
                                annotations,
                                from + 1,
                                upto,
                                derive,
                                field,
                                extended,
                            );
                        },
                        Err(_) => {},
                    }
                },
                None => {},
            }
        }
    }
}

proof fn lemma_fields_stop_at_error(
    fields: Seq<FieldDefinitionView>,
    from: int,
    failing: int,
    derive: Derive,
    done: Seq<FieldDescriptorView>,
)
    requires
        0 <= from <= failing < fields.len(),
        forall|k: int| from <= k < failing ==> parsed_field(fields[k], k as usize, derive) is Ok,
        parsed_field(fields[failing], failing as usize, derive) is Err,
    ensures
        parsed_fields_from(fields, from, derive, done) == Err::<
            Seq<FieldDescriptorView>,
            DiagnosticView,
        >(parsed_field(fields[failing], failing as usize, derive)->Err_0),
    decreases failing - from,
{
    if from < failing {
        let descriptor = parsed_field(fields[from], from as usize, derive)->Ok_0;
        lemma_fields_stop_at_error(fields, from + 1, failing, derive, done.push(descriptor));
    }
}

proof fn lemma_fields_fail_with_any(
    fields: Seq<FieldDefinitionView>,
    from: int,
    failing: int,
    derive: Derive,
    done: Seq<FieldDescriptorView>,
)
    requires
        0 <= from <= failing < fields.len(),
        parsed_field(fields[failing], failing as usize, derive) is Err,
    ensures
        parsed_fields_from(fields, from, derive, done) is Err,
    decreases failing - from,
{
    if from < failing {
        match parsed_field(fields[from], from as usize, derive) {
            Ok(descriptor) => {
                lemma_fields_fail_with_any(
                    fields,
                    from + 1,
                    failing,
                    derive,
                    done.push(descriptor),
                );
            },
            Err(_) => {},
        }
    }
}

/// One field that fails suppresses the whole expansion: nothing is
/// generated, however well formed the other fields are.
pub proof fn law_one_failing_field_suppresses_emission(
    definition: TypeDefinitionView,
    derive: Derive,
    failing: int,
)
    requires
        0 <= failing < definition.fields.len(),
        parsed_field(definition.fields[failing], failing as usize, derive) is Err,
    ensures
        expansion(definition, derive) is Err,
{
    lemma_fields_fail_with_any(
        definition.fields,
        0,
        failing,
        derive,
        Seq::<FieldDescriptorView>::empty(),
    );
}

/// The failure of the first failing field is the failure of the expansion.
pub proof fn law_first_failing_field_wins(
    definition: TypeDefinitionView,
    derive: Derive,
    failing: int,
)
    requires
        definition.shape == Shape::NamedStruct,
        source_type(definition.annotations, derive) is Some,
        0 <= failing < definition.fields.len(),
        forall|k: int|
            0 <= k < failing ==> parsed_field(definition.fields[k], k as usize, derive) is Ok,
        parsed_field(definition.fields[failing], failing as usize, derive) is Err,
    ensures
        expansion(definition, derive) == Err::<Seq<char>, DiagnosticView>(
            parsed_field(definition.fields[failing], failing as usize, derive)->Err_0,
        ),
{
    lemma_fields_stop_at_error(
        definition.fields,
        0,
        failing,
        derive,
        Seq::<FieldDescriptorView>::empty(),
    );
}

/// A key other than `alias` and `path`, met where a directive is expected,
/// makes its field fail with `UnsupportedDirective` at that key. This holds
/// where the scan comes that far: where the annotations before it on the
/// same field are scanned without failure, and the directives before it in
/// the same annotation.
pub proof fn law_unknown_key_is_unsupported(
    field: FieldDefinitionView,
    index: usize,
    derive: Derive,
    annotation: int,
    position: int,
)
    requires
        0 <= annotation < field.annotations.len(),
        field.annotations[annotation].name == namespace(derive),
        field.annotations[annotation].arguments is Some,
        scan_annotations(
            field.annotations.take(annotation),
            0,
            derive,
            index,
            GatheredView::empty(),
        ) is Ok,
        reaches(field.annotations[annotation].arguments->Some_0, 0, position),
        entry_at(field.annotations[annotation].arguments->Some_0, position) is Unsupported,
    ensures
        parsed_field(field, index, derive) == Err::<FieldDescriptorView, DiagnosticView>(
            diagnostic(
                derive,
                ErrorKind::UnsupportedDirective,
                Anchor::Directive {
                    field: index,
                    annotation: annotation as usize,
                    token: position as usize,
                },
            ),
        ),
{
    let tokens = field.annotations[annotation].arguments->Some_0;
    lemma_annotations_prefix(
        field.annotations,
        0,
        annotation,
        derive,
        index,
        GatheredView::empty(),
    );
    let before = scan_annotations(
        field.annotations.take(annotation),
        0,
        derive,
        index,
        GatheredView::empty(),
    )->Ok_0;
    lemma_scan_stops_at_unsupported(
        tokens,
        0,
        position,
        derive,
        index,
        annotation as usize,
        before,
    );
}

/// An unknown key on a field makes the expansion fail with
/// `UnsupportedDirective` at that key and nothing is generated, where the
/// type declares its source, the fields before are well formed, and the scan
/// of the key's own field comes as far as the key.
pub proof fn law_unknown_key_suppresses_emission(
    definition: TypeDefinitionView,
    derive: Derive,
    failing: int,
    annotation: int,
    position: int,
)
    requires
        definition.shape == Shape::NamedStruct,
        source_type(definition.annotations, derive) is Some,
        0 <= failing < definition.fields.len(),
        forall|k: int|
            0 <= k < failing ==> parsed_field(definition.fields[k], k as usize, derive) is Ok,
        0 <= annotation < definition.fields[failing].annotations.len(),
        definition.fields[failing].annotations[annotation].name == namespace(derive),
        definition.fields[failing].annotations[annotation].arguments is Some,
        scan_annotations(
            definition.fields[failing].annotations.take(annotation),
            0,
            derive,
            failing as usize,
            GatheredView::empty(),
        ) is Ok,
        reaches(definition.fields[failing].annotations[annotation].arguments->Some_0, 0, position),
        entry_at(definition.fields[failing].annotations[annotation].arguments->Some_0, position)
            is Unsupported,
    ensures
        expansion(definition, derive) == Err::<Seq<char>, DiagnosticView>(
            diagnostic(
                derive,
                ErrorKind::UnsupportedDirective,
                Anchor::Directive {
                    field: failing as usize,
                    annotation: annotation as usize,
                    token: position as usize,
                },
            ),
        ),
{
    law_unknown_key_is_unsupported(
        definition.fields[failing],
        failing as usize,
        derive,
        annotation,
        position,
    );
    law_first_failing_field_wins(definition, derive, failing);
}

// ---------------------------------------------------------------------------
// What parsing yields
// ---------------------------------------------------------------------------

/// The descriptor that a field parses to keeps the field's name, and its
/// directive in force has its form.
pub proof fn law_parsed_field_is_well_formed(
    field: FieldDefinitionView,
    index: usize,
    derive: Derive,
)
    ensures
        parsed_field(field, index, derive) matches Ok(descriptor) ==> descriptor.well_formed()
            && descriptor.name == field.name,
{
}

proof fn lemma_fields_in_order(
    fields: Seq<FieldDefinitionView>,
    from: int,
    derive: Derive,
    done: Seq<FieldDescriptorView>,
)
    requires
        0 <= from <= fields.len(),
        done.len() == from,
        forall|i: int|
            0 <= i < from ==> parsed_field(fields[i], i as usize, derive) == Ok::<
                FieldDescriptorView,
                DiagnosticView,
            >(#[trigger] done[i]),
    ensures
        parsed_fields_from(fields, from, derive, done) matches Ok(all) ==> all.len()
            == fields.len() && forall|i: int|
            0 <= i < fields.len() ==> parsed_field(fields[i], i as usize, derive) == Ok::<
                FieldDescriptorView,
                DiagnosticView,
            >(#[trigger] all[i]),
    decreases fields.len() - from,
{
    if from < fields.len() {
        match parsed_field(fields[from], from as usize, derive) {
            Ok(descriptor) => {
                lemma_fields_in_order(fields, from + 1, derive, done.push(descriptor));
            },
            Err(_) => {},
        }
    }
}

/// Parsing keeps the fields as they are declared: one descriptor per field,
/// in declaration order, each the descriptor of its own field.
pub proof fn law_fields_keep_their_order(fields: Seq<FieldDefinitionView>, derive: Derive)
    ensures
        parsed_fields(fields, derive) matches Ok(all) ==> all.len() == fields.len() && forall|
            i: int,
        |
            0 <= i < fields.len() ==> parsed_field(fields[i], i as usize, derive) == Ok::<
                FieldDescriptorView,
                DiagnosticView,
            >(#[trigger] all[i]),
{
    lemma_fields_in_order(fields, 0, derive, Seq::<FieldDescriptorView>::empty());
}

proof fn lemma_declared_source_is_identifier(
    annotations: Seq<AnnotationView>,
    from: int,
    derive: Derive,
)
    requires
        0 <= from,
    ensures
        source_type_from(annotations, from, derive) matches Some(source) ==> identifier(source),
    decreases annotations.len() - from,
{
    if from < annotations.len() && annotations[from].name != namespace(derive) {
        lemma_declared_source_is_identifier(annotations, from + 1, derive);
    }
}

/// The model that a type parses to is well formed, and holds one descriptor
/// per field of the type, in declaration order and under the field's name.
pub proof fn law_parsed_model_is_well_formed(definition: TypeDefinitionView, derive: Derive)
    ensures
        parsed_model(definition, derive) matches Ok(model) ==> model.well_formed()
            && model.fields.len() == definition.fields.len() && forall|i: int|
            0 <= i < definition.fields.len() ==> (#[trigger] model.fields[i]).name
                == definition.fields[i].name,
{
    lemma_declared_source_is_identifier(definition.annotations, 0, derive);
    law_fields_keep_their_order(definition.fields, derive);
    if let Ok(model) = parsed_model(definition, derive) {
        assert forall|i: int| 0 <= i < definition.fields.len() implies (
        #[trigger] model.fields[i]).well_formed() && model.fields[i].name
            == definition.fields[i].name by {
            law_parsed_field_is_well_formed(definition.fields[i], i as usize, derive);
        }
    }
}

/// A well-formed descriptor resolves to a chain of at least one field, and
/// every field of the chain is an identifier when the target field's own
/// name is.
pub proof fn law_resolution_yields_identifiers(descriptor: FieldDescriptorView)
    requires
        descriptor.well_formed(),
        identifier(descriptor.name),
    ensures
        resolved(descriptor).target == descriptor.name,
        resolved(descriptor).access.len() >= 1,
        forall|k: int|
            0 <= k < resolved(descriptor).access.len() ==> identifier(
                #[trigger] resolved(descriptor).access[k],
            ),
{
    if descriptor.alias is None && descriptor.path is Some {
        lemma_segments_dotted(descriptor.path->Some_0);
    }
}

/// Whether an anchor points at an annotation of the field at index `index`
/// that has no argument list, or at a token of the argument list of one of
/// the field's annotations.
pub open spec fn anchored_in(field: FieldDefinitionView, index: usize, anchor: Anchor) -> bool {
    match anchor {
        Anchor::TypeName => false,
        Anchor::Annotation { field: at, annotation } => {
            &&& at == index
            &&& annotation < field.annotations.len()
            &&& field.annotations[annotation as int].arguments is None
        },
        Anchor::Directive { field: at, annotation, token } => {
            &&& at == index
            &&& annotation < field.annotations.len()
            &&& field.annotations[annotation as int].arguments matches Some(tokens)
            &&& token < tokens.len()
        },
    }
}

/// The annotations, and the tokens of every argument list, can be counted in
/// a `usize`.
pub open spec fn countable(annotations: Seq<AnnotationView>) -> bool {
    &&& annotations.len() <= usize::MAX
    &&& forall|j: int|
        0 <= j < annotations.len() ==> ((#[trigger] annotations[j]).arguments matches Some(tokens)
            ==> tokens.len() <= usize::MAX)
}

/// Whether each gathered value has its key on the field at index `index`.
pub open spec fn gathered_in(field: FieldDefinitionView, index: usize, gathered: GatheredView)
    -> bool {
    &&& gathered.alias matches Some(alias) ==> anchored_in(field, index, alias.key)
    &&& gathered.path matches Some(path) ==> anchored_in(field, index, path.key)
}

/// A failure of a field: of one of the two kinds that a field can fail
/// with, in the derive's wording, at a place on the field.
pub open spec fn field_failure(
    field: FieldDefinitionView,
    index: usize,
    derive: Derive,
    error: DiagnosticView,
) -> bool {
    &&& error.kind == ErrorKind::UnsupportedDirective || error.kind
        == ErrorKind::MalformedDirectiveValue
    &&& error == diagnostic(derive, error.kind, error.anchor)
    &&& anchored_in(field, index, error.anchor)
}

proof fn lemma_entries_stay_inside(
    field: FieldDefinitionView,
    index: usize,
    annotation: int,
    position: int,
    derive: Derive,
    gathered: GatheredView,
)
    requires
        0 <= position,
        0 <= annotation < field.annotations.len(),
        countable(field.annotations),
        field.annotations[annotation].arguments is Some,
        gathered_in(field, index, gathered),
    ensures
        match scan_entries(
            field.annotations[annotation].arguments->Some_0,
            position,
            derive,
            index,
            annotation as usize,
            gathered,
        ) {
            Ok(extended) => gathered_in(field, index, extended),
            Err(error) => field_failure(field, index, derive, error),
        },
    decreases field.annotations[annotation].arguments->Some_0.len() - position,
{
    let tokens = field.annotations[annotation].arguments->Some_0;
    let here = Anchor::Directive {
        field: index,
        annotation: annotation as usize,
        token: position as usize,
    };
    match entry_at(tokens, position) {
        EntryView::Found { key, value, next } => {
            lemma_entries_stay_inside(
                field,
                index,
                annotation,
                next,
                derive,
                gathered.with(key, value, here),
            );
        },
        _ => {},
    }
}

proof fn lemma_annotations_stay_inside(
    field: FieldDefinitionView,
    index: usize,
    from: int,
    derive: Derive,
    gathered: GatheredView,
)
    requires
        0 <= from,
        countable(field.annotations),
        gathered_in(field, index, gathered),
    ensures
        match scan_annotations(field.annotations, from, derive, index, gathered) {
            Ok(extended) => gathered_in(field, index, extended),
            Err(error) => field_failure(field, index, derive, error),
        },
    decreases field.annotations.len() - from,
{
    let annotations = field.annotations;
    if from < annotations.len() {
        if annotations[from].name != namespace(derive) {
            lemma_annotations_stay_inside(field, index, from + 1, derive, gathered);
        } else {
            match annotations[from].arguments {
                Some(tokens) => {
                    lemma_entries_stay_inside(field, index, from, 0, derive, gathered);
                    match scan_entries(tokens, 0, derive, index, from as usize, gathered) {
                        Ok(extended) => {
                            lemma_annotations_stay_inside(field, index, from + 1, derive, extended);
                        },
                        Err(_) => {},
                    }
                },
                None => {},
            }
        }
    }
}

/// A field fails with `UnsupportedDirective` or `MalformedDirectiveValue`,
/// in the derive's wording, at a place that exists on that field.
pub proof fn law_field_failures_point_into_the_field(
    field: FieldDefinitionView,
    index: usize,
    derive: Derive,
)
    requires
        countable(field.annotations),
    ensures
        parsed_field(field, index, derive) matches Err(error) ==> field_failure(
            field,
            index,
            derive,
            error,
        ),
{
    lemma_annotations_stay_inside(field, index, 0, derive, GatheredView::empty());
}

proof fn lemma_fields_fail_inside(
    fields: Seq<FieldDefinitionView>,
    from: int,
    derive: Derive,
    done: Seq<FieldDescriptorView>,
)
    requires
        0 <= from,
        fields.len() <= usize::MAX,
        forall|i: int| 0 <= i < fields.len() ==> countable((#[trigger] fields[i]).annotations),
    ensures
        parsed_fields_from(fields, from, derive, done) matches Err(error) ==> exists|i: int|
            0 <= i < fields.len() && #[trigger] field_failure(fields[i], i as usize, derive, error),
    decreases fields.len() - from,
{
    if from < fields.len() {
        law_field_failures_point_into_the_field(fields[from], from as usize, derive);
        match parsed_field(fields[from], from as usize, derive) {
            Ok(descriptor) => {
                lemma_fields_fail_inside(fields, from + 1, derive, done.push(descriptor));
            },
            Err(error) => {
            },
        }
    }
}

/// Every failure is anchored where it arose: a failure of the shape or of
/// the type-level directive at the type's name, a failure of a field at a
/// place that exists on that field. The message is the derive's wording for
/// the kind of failure.
pub proof fn law_failures_are_anchored(definition: TypeDefinitionView, derive: Derive)
    requires
        definition.fields.len() <= usize::MAX,
        forall|i: int|
            0 <= i < definition.fields.len() ==> countable(
                (#[trigger] definition.fields[i]).annotations,
            ),
    ensures
        expansion(definition, derive) matches Err(error) ==> error == diagnostic(
            derive,
            error.kind,
            error.anchor,
        ) && match error.kind {
            ErrorKind::NotANamedStruct => error.anchor == Anchor::TypeName,
            ErrorKind::MissingSourceType => error.anchor == Anchor::TypeName,
            _ => exists|i: int|
                0 <= i < definition.fields.len() && #[trigger] field_failure(
                    definition.fields[i],
                    i as usize,
                    derive,
                    error,
                ),
        },
{
    lemma_fields_fail_inside(definition.fields, 0, derive, Seq::<FieldDescriptorView>::empty());
}

// ---------------------------------------------------------------------------
// The pass as a whole
// ---------------------------------------------------------------------------

/// Two passes over definitions of equal value end alike: the same text,
/// character for character, or the same diagnostic. This holds of any two
/// results that a pass may hand out.
pub proof fn law_equal_input_equal_output(
    first: TypeDefinition,
    second: TypeDefinition,
    derive: Derive,
    first_outcome: Result<String, Diagnostic>,
    second_outcome: Result<String, Diagnostic>,
)
    requires
        first@ == second@,
        outcome_view(first_outcome) == expansion(first@, derive),
        outcome_view(second_outcome) == expansion(second@, derive),
    ensures
        outcome_view(first_outcome) == outcome_view(second_outcome),
        first_outcome matches Ok(one) ==> second_outcome matches Ok(other) && one@ == other@,
        first_outcome matches Err(one) ==> second_outcome matches Err(other) && one@ == other@,
{
}

/// A pass that has ended stays as it is, and a pass that ended with a
/// diagnostic holds no text.
pub proof fn law_final_stages_absorb(state: DriverView, derive: Derive)
    requires
        state.is_final(),
    ensures
        state.step(derive) == state,
        state is Errored ==> state.completed(derive) is Err,
        state is Done ==> state.completed(derive) is Ok,
{
}

/// Every pass ends within four steps.
pub proof fn law_pass_ends(state: DriverView, derive: Derive)
    ensures
        state.step(derive).remaining() <= state.remaining(),
        !state.is_final() ==> state.step(derive).remaining() < state.remaining(),
        state.step(derive).step(derive).step(derive).step(derive).is_final(),
        state.remaining() == 0 <==> state.is_final(),
{
}

} // verus!
