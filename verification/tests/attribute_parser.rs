//! The attribute parser: which annotations are accepted, what they yield,
//! and which diagnostic each malformed annotation gets.

use subset_derive::parser::{
    accept_source, directive_key, is_path_separator, is_punct, is_word, parse_annotations,
    parse_arguments, parse_field, parse_fields, parse_source_type, read_entry,
    read_source_literal, Entry, Gathered, Located,
};
use subset_derive::resolver::resolve_field;
use subset_derive::{
    impl_subset, impl_typelater, Anchor, Annotation, Derive, Diagnostic, DirectiveKey,
    DirectiveModel, ErrorKind, FieldDefinition, FieldDescriptor, Shape, SourceTypeReference,
    Token, TypeDefinition,
};

fn ident(word: &str) -> Token {
    Token::Ident(word.to_string())
}

fn punct(mark: char) -> Token {
    Token::Punct(mark)
}

fn literal(source_form: &str) -> Token {
    Token::Literal(source_form.to_string())
}

fn string(content: &str) -> Token {
    Token::Str(content.to_string())
}

fn directive(key: &str, value: &str) -> Vec<Token> {
    vec![ident(key), punct('='), string(value)]
}

fn list(namespace: &str, arguments: Vec<Token>) -> Annotation {
    Annotation { name: namespace.to_string(), arguments: Some(arguments) }
}

fn word(namespace: &str) -> Annotation {
    Annotation { name: namespace.to_string(), arguments: None }
}

fn field(name: &str, annotations: Vec<Annotation>) -> FieldDefinition {
    FieldDefinition { name: name.to_string(), annotations }
}

fn named_struct(annotations: Vec<Annotation>, fields: Vec<FieldDefinition>) -> TypeDefinition {
    TypeDefinition { name: "Target".to_string(), shape: Shape::NamedStruct, annotations, fields }
}

fn from_source() -> Annotation {
    list("subset", directive("from", "Source"))
}

fn descriptor(name: &str, alias: Option<&str>, path: Option<&str>) -> FieldDescriptor {
    FieldDescriptor {
        name: name.to_string(),
        alias: alias.map(str::to_string),
        path: path.map(str::to_string),
    }
}

fn source(name: &str) -> Option<SourceTypeReference> {
    Some(SourceTypeReference { name: name.to_string() })
}

fn source_type(annotations: &Vec<Annotation>, derive: Derive) -> Option<SourceTypeReference> {
    match parse_source_type(annotations, derive) {
        Ok(found) => Some(found),
        Err(diagnostic) => {
            assert_eq!(diagnostic.kind, ErrorKind::MissingSourceType);
            assert_eq!(diagnostic.anchor, Anchor::TypeName);
            None
        }
    }
}

fn missing_source_type() -> Diagnostic {
    Diagnostic {
        kind: ErrorKind::MissingSourceType,
        message: "Expected #[subset(from = \"SourceType\")]".to_string(),
        anchor: Anchor::TypeName,
    }
}

fn unsupported(field: usize, annotation: usize, token: usize) -> Diagnostic {
    Diagnostic {
        kind: ErrorKind::UnsupportedDirective,
        message: "unsupported subset attribute; expected `alias` or `path`".to_string(),
        anchor: Anchor::Directive { field, annotation, token },
    }
}

fn malformed(anchor: Anchor) -> Diagnostic {
    Diagnostic {
        kind: ErrorKind::MalformedDirectiveValue,
        message:
            "malformed subset attribute; expected `alias = \"field\"` or `path = \"field.field\"`"
                .to_string(),
        anchor,
    }
}

fn malformed_at(field: usize, annotation: usize, token: usize) -> Diagnostic {
    malformed(Anchor::Directive { field, annotation, token })
}

// --- the type-level directive ------------------------------------------------

#[test]
fn from_directive_names_the_source_type() {
    assert_eq!(source_type(&vec![from_source()], Derive::Subset), source("Source"));
}

#[test]
fn from_directive_is_read_under_the_derive_namespace() {
    let annotations = vec![list("typelater", directive("from", "Source"))];
    assert_eq!(source_type(&annotations, Derive::Typelater), source("Source"));
    assert_eq!(source_type(&annotations, Derive::Subset), None);
}

#[test]
fn annotations_of_other_namespaces_are_passed_over() {
    let annotations = vec![
        list("derive", vec![ident("Debug")]),
        word("non_exhaustive"),
        from_source(),
    ];
    assert_eq!(source_type(&annotations, Derive::Subset), source("Source"));
}

#[test]
fn first_annotation_of_the_namespace_decides_alone() {
    let broken_first = vec![list("subset", directive("into", "Other")), from_source()];
    assert_eq!(source_type(&broken_first, Derive::Subset), None);

    let two_sources = vec![from_source(), list("subset", directive("from", "Other"))];
    assert_eq!(source_type(&two_sources, Derive::Subset), source("Source"));
}

#[test]
fn omitted_from_directive_is_missing_source_type_at_the_type_name() {
    let definition = named_struct(vec![], vec![field("side", vec![])]);
    assert_eq!(impl_subset(definition), Err(missing_source_type()));
}

#[test]
fn omitted_from_directive_in_the_typelater_wording() {
    let definition = named_struct(vec![from_source()], vec![field("side", vec![])]);
    assert_eq!(
        impl_typelater(definition),
        Err(Diagnostic {
            kind: ErrorKind::MissingSourceType,
            message: "Expected #[typelater(from = \"SourceType\")]".to_string(),
            anchor: Anchor::TypeName,
        })
    );
}

#[test]
fn wrong_type_level_key_is_missing_source_type() {
    let definition =
        named_struct(vec![list("subset", directive("source", "Source"))], vec![]);
    assert_eq!(impl_subset(definition), Err(missing_source_type()));
}

#[test]
fn type_level_value_must_be_a_string_literal() {
    for value in ["5", "Source", "'S'", "b\"Source\"", "true", "1.5"] {
        let arguments = vec![ident("from"), punct('='), literal(value)];
        let definition = named_struct(vec![list("subset", arguments)], vec![]);
        assert_eq!(impl_subset(definition), Err(missing_source_type()), "from = {}", value);
    }
    let identifier_value = vec![ident("from"), punct('='), ident("Source")];
    let definition = named_struct(vec![list("subset", identifier_value)], vec![]);
    assert_eq!(impl_subset(definition), Err(missing_source_type()));
}

#[test]
fn type_level_value_must_name_a_type() {
    for value in ["", "1Source", "Vec<u8>", "a b", "crate::Source", " Source", "Source "] {
        let definition = named_struct(vec![list("subset", directive("from", value))], vec![]);
        assert_eq!(impl_subset(definition), Err(missing_source_type()), "from = {:?}", value);
    }
}

#[test]
fn type_level_list_must_hold_the_from_directive_and_nothing_else() {
    let mut trailing_comma = directive("from", "Source");
    trailing_comma.push(punct(','));
    let mut twice = directive("from", "Source");
    twice.push(punct(','));
    twice.extend(directive("from", "Source"));
    for arguments in [vec![], vec![ident("from")], trailing_comma, twice, vec![Token::Group]] {
        let definition = named_struct(vec![list("subset", arguments.clone())], vec![]);
        assert_eq!(impl_subset(definition), Err(missing_source_type()), "{:?}", arguments);
    }
}

#[test]
fn type_level_annotation_without_argument_list_is_missing_source_type() {
    let definition = named_struct(vec![word("subset")], vec![]);
    assert_eq!(impl_subset(definition), Err(missing_source_type()));
}

#[test]
fn read_source_literal_hands_out_what_the_string_denotes() {
    assert_eq!(read_source_literal(&directive("from", "Source")), Some("Source".to_string()));
    assert_eq!(read_source_literal(&directive("from", "not a name")), Some("not a name".to_string()));
    assert_eq!(read_source_literal(&directive("from", "")), Some(String::new()));
    assert_eq!(read_source_literal(&vec![ident("from"), punct('='), literal("5")]), None);
    assert_eq!(
        read_source_literal(&vec![ident("from"), punct('='), literal("\"Source\"")]),
        None
    );
    assert_eq!(read_source_literal(&vec![ident("from"), punct(':'), string("Source")]), None);
    assert_eq!(read_source_literal(&vec![ident("r#from"), punct('='), string("Source")]), None);
    assert_eq!(read_source_literal(&vec![]), None);
}

#[test]
fn accept_source_takes_identifiers_only() {
    assert_eq!(accept_source(Some("Source".to_string())), source("Source"));
    assert_eq!(accept_source(Some("_".to_string())), source("_"));
    assert_eq!(accept_source(Some("Quelle\u{e4}".to_string())), source("Quelle\u{e4}"));
    assert_eq!(accept_source(Some("So urce".to_string())), None);
    assert_eq!(accept_source(Some(String::new())), None);
    assert_eq!(accept_source(None), None);
}

#[test]
fn parse_source_type_fails_in_words() {
    assert_eq!(parse_source_type(&vec![], Derive::Subset), Err(missing_source_type()));
    assert_eq!(
        parse_source_type(&vec![list("subset", directive("from", "a b"))], Derive::Subset),
        Err(missing_source_type())
    );
    assert_eq!(
        parse_source_type(&vec![from_source()], Derive::Subset),
        Ok(SourceTypeReference { name: "Source".to_string() })
    );
}

#[test]
fn annotations_of_a_type_parse_to_its_directive_model() {
    let definition = named_struct(
        vec![from_source()],
        vec![
            field("a", vec![]),
            field("b", vec![list("subset", directive("alias", "x"))]),
            field("c", vec![list("subset", directive("path", "y.z"))]),
        ],
    );
    assert_eq!(
        parse_annotations(&definition, Derive::Subset),
        Ok(DirectiveModel {
            source: SourceTypeReference { name: "Source".to_string() },
            fields: vec![
                descriptor("a", None, None),
                descriptor("b", Some("x"), None),
                descriptor("c", None, Some("y.z")),
            ],
        })
    );
    assert_eq!(parse_annotations(&definition, Derive::Typelater), Err(Diagnostic {
        kind: ErrorKind::MissingSourceType,
        message: "Expected #[typelater(from = \"SourceType\")]".to_string(),
        anchor: Anchor::TypeName,
    }));
}

#[test]
fn source_type_fails_before_any_field() {
    let definition = named_struct(
        vec![list("subset", directive("from", "1"))],
        vec![field("a", vec![list("subset", directive("transform", "x"))])],
    );
    assert_eq!(parse_annotations(&definition, Derive::Subset), Err(missing_source_type()));
}

// --- string literals ---------------------------------------------------------

#[test]
fn only_a_string_token_is_a_string() {
    // The library reads what a string denotes from the token and decodes
    // nothing itself: another literal stays what it is, whatever its text.
    for written in ["\"Cube\"", "Cube", "r\"Cube\"", "5"] {
        let arguments = vec![ident("from"), punct('='), literal(written)];
        assert_eq!(source_type(&vec![list("subset", arguments)], Derive::Subset), None);
        let alias = vec![ident("alias"), punct('='), literal(written)];
        assert_eq!(
            parse_field(&field("name", vec![list("subset", alias)]), 0, Derive::Subset),
            Err(malformed_at(0, 0, 0)),
            "alias = {}",
            written
        );
    }
}

#[test]
fn string_is_taken_as_it_stands() {
    // No second decoding: a backslash in the text is a backslash.
    let arguments = vec![ident("from"), punct('='), string("C\\u{75}be")];
    assert_eq!(source_type(&vec![list("subset", arguments)], Derive::Subset), None);
    let quoted = vec![ident("alias"), punct('='), string("\"x\"")];
    assert_eq!(
        parse_field(&field("name", vec![list("subset", quoted)]), 0, Derive::Subset),
        Err(malformed_at(0, 0, 0))
    );
}

// --- field-level directives --------------------------------------------------

#[test]
fn field_without_annotations_has_no_directive() {
    assert_eq!(
        parse_field(&field("side", vec![]), 0, Derive::Subset),
        Ok(descriptor("side", None, None))
    );
}

#[test]
fn field_annotations_of_other_namespaces_are_passed_over() {
    let annotations = vec![
        list("serde", directive("rename", "s")),
        word("doc"),
        list("typelater", directive("alias", "edge")),
    ];
    assert_eq!(
        parse_field(&field("side", annotations), 0, Derive::Subset),
        Ok(descriptor("side", None, None))
    );
}

#[test]
fn empty_argument_list_gives_no_directive() {
    assert_eq!(
        parse_field(&field("side", vec![list("subset", vec![])]), 0, Derive::Subset),
        Ok(descriptor("side", None, None))
    );
}

#[test]
fn alias_directive_is_recorded() {
    let annotations = vec![list("subset", directive("alias", "username"))];
    assert_eq!(
        parse_field(&field("name", annotations), 0, Derive::Subset),
        Ok(descriptor("name", Some("username"), None))
    );
}

#[test]
fn path_directive_is_recorded_as_written() {
    let annotations = vec![list("subset", directive("path", "metadata.followers"))];
    assert_eq!(
        parse_field(&field("followers", annotations), 0, Derive::Subset),
        Ok(descriptor("followers", None, Some("metadata.followers")))
    );
}

#[test]
fn alias_and_path_may_stand_together() {
    let mut both = directive("path", "a.b");
    both.push(punct(','));
    both.extend(directive("alias", "c"));
    assert_eq!(
        parse_field(&field("x", vec![list("subset", both)]), 0, Derive::Subset),
        Ok(descriptor("x", Some("c"), Some("a.b")))
    );

    let apart = vec![list("subset", directive("alias", "c")), list("subset", directive("path", "a.b"))];
    assert_eq!(
        parse_field(&field("x", apart), 0, Derive::Subset),
        Ok(descriptor("x", Some("c"), Some("a.b")))
    );
}

#[test]
fn later_value_replaces_earlier_value_of_the_same_key() {
    let mut twice = directive("alias", "first");
    twice.push(punct(','));
    twice.extend(directive("alias", "second"));
    assert_eq!(
        parse_field(&field("x", vec![list("subset", twice)]), 0, Derive::Subset),
        Ok(descriptor("x", Some("second"), None))
    );
}

#[test]
fn trailing_comma_is_accepted() {
    let mut arguments = directive("alias", "username");
    arguments.push(punct(','));
    assert_eq!(
        parse_field(&field("name", vec![list("subset", arguments)]), 0, Derive::Subset),
        Ok(descriptor("name", Some("username"), None))
    );
}

#[test]
fn unknown_key_is_unsupported_at_the_key() {
    let annotations = vec![list("subset", directive("transform", "upper"))];
    assert_eq!(
        parse_field(&field("name", annotations), 3, Derive::Subset),
        Err(unsupported(3, 0, 0))
    );
}

#[test]
fn unknown_key_after_a_good_directive_is_unsupported_at_the_key() {
    let mut arguments = directive("alias", "username");
    arguments.push(punct(','));
    arguments.extend(directive("transform", "upper"));
    let annotations = vec![word("doc"), list("subset", arguments)];
    assert_eq!(
        parse_field(&field("name", annotations), 0, Derive::Subset),
        Err(unsupported(0, 1, 4))
    );
}

#[test]
fn anything_but_a_key_is_unsupported() {
    for first in [string("alias"), punct('='), Token::Group, ident("from"), ident("r#alias"), ident("Alias")] {
        let arguments = vec![first.clone(), punct('='), string("x")];
        assert_eq!(
            parse_field(&field("name", vec![list("subset", arguments)]), 0, Derive::Subset),
            Err(unsupported(0, 0, 0)),
            "{:?}",
            first
        );
    }
}

#[test]
fn unknown_key_in_the_typelater_wording() {
    let annotations = vec![list("typelater", directive("transform", "upper"))];
    assert_eq!(
        parse_field(&field("name", annotations), 0, Derive::Typelater),
        Err(Diagnostic {
            kind: ErrorKind::UnsupportedDirective,
            message: "unsupported typelater attribute; expected `alias` or `path`".to_string(),
            anchor: Anchor::Directive { field: 0, annotation: 0, token: 0 },
        })
    );
}

#[test]
fn value_that_is_no_string_literal_is_malformed_at_the_key() {
    for value in [literal("5"), literal("'a'"), literal("b\"a\""), ident("username"), Token::Group] {
        let arguments = vec![ident("alias"), punct('='), value.clone()];
        assert_eq!(
            parse_field(&field("name", vec![list("subset", arguments)]), 1, Derive::Subset),
            Err(malformed_at(1, 0, 0)),
            "alias = {:?}",
            value
        );
    }
}

#[test]
fn key_without_value_is_malformed() {
    for arguments in [
        vec![ident("alias")],
        vec![ident("alias"), punct('=')],
        vec![ident("alias"), punct(':'), string("a")],
        vec![ident("alias"), string("a")],
        vec![ident("path"), punct(','), ident("alias"), punct('='), string("a")],
    ] {
        assert_eq!(
            parse_field(&field("name", vec![list("subset", arguments.clone())]), 0, Derive::Subset),
            Err(malformed_at(0, 0, 0)),
            "{:?}",
            arguments
        );
    }
}

#[test]
fn directives_must_be_separated_by_commas() {
    let mut arguments = directive("alias", "a");
    arguments.extend(directive("path", "b.c"));
    assert_eq!(
        parse_field(&field("name", vec![list("subset", arguments)]), 0, Derive::Subset),
        Err(malformed_at(0, 0, 0))
    );

    let mut second_unseparated = directive("alias", "a");
    second_unseparated.push(punct(','));
    second_unseparated.extend(directive("path", "b.c"));
    second_unseparated.push(punct(';'));
    assert_eq!(
        parse_field(&field("name", vec![list("subset", second_unseparated)]), 0, Derive::Subset),
        Err(malformed_at(0, 0, 4))
    );
}

#[test]
fn alias_must_name_a_field() {
    for value in ["", "1st", "a.b", "a b", "a-b", "user name", "r#type", "\u{1f600}"] {
        let annotations = vec![list("subset", directive("alias", value))];
        assert_eq!(
            parse_field(&field("name", annotations), 0, Derive::Subset),
            Err(malformed_at(0, 0, 0)),
            "alias = {:?}",
            value
        );
    }
}

#[test]
fn path_must_name_a_chain_of_fields() {
    for value in ["", ".", "a.", ".a", "a..b", "a. b", "a.1", "a.b-c"] {
        let annotations = vec![list("subset", directive("path", value))];
        assert_eq!(
            parse_field(&field("name", annotations), 0, Derive::Subset),
            Err(malformed_at(0, 0, 0)),
            "path = {:?}",
            value
        );
    }
}

#[test]
fn keywords_and_unicode_names_are_field_names() {
    for value in ["type", "_", "_1", "na\u{ef}ve", "\u{540d}\u{524d}", "x1"] {
        let annotations = vec![list("subset", directive("alias", value))];
        assert_eq!(
            parse_field(&field("name", annotations), 0, Derive::Subset),
            Ok(descriptor("name", Some(value), None)),
            "alias = {:?}",
            value
        );
    }
}

#[test]
fn path_beside_an_alias_is_never_read() {
    let mut arguments = directive("alias", "a");
    arguments.push(punct(','));
    arguments.extend(directive("path", "b..c"));
    let parsed = parse_field(&field("name", vec![list("subset", arguments)]), 0, Derive::Subset);
    assert_eq!(parsed, Ok(descriptor("name", Some("a"), Some("b..c"))));
    assert_eq!(resolve_field(&parsed.unwrap()).access, vec!["a".to_string()]);

    let apart = vec![list("subset", directive("path", "")), list("subset", directive("alias", "a"))];
    assert_eq!(
        parse_field(&field("name", apart), 0, Derive::Subset),
        Ok(descriptor("name", Some("a"), Some("")))
    );
}

#[test]
fn only_the_last_value_of_a_key_is_held_to_its_form() {
    let mut good_last = directive("alias", "1st");
    good_last.push(punct(','));
    good_last.extend(directive("alias", "second"));
    assert_eq!(
        parse_field(&field("name", vec![list("subset", good_last)]), 0, Derive::Subset),
        Ok(descriptor("name", Some("second"), None))
    );

    let mut bad_last = directive("alias", "first");
    bad_last.push(punct(','));
    bad_last.extend(directive("alias", "2nd"));
    assert_eq!(
        parse_field(&field("name", vec![list("subset", bad_last)]), 0, Derive::Subset),
        Err(malformed_at(0, 0, 4))
    );

    let bad_path_later = vec![
        word("doc"),
        list("subset", directive("path", "a.b")),
        list("subset", directive("path", "a.")),
    ];
    assert_eq!(
        parse_field(&field("name", bad_path_later), 5, Derive::Subset),
        Err(malformed_at(5, 2, 0))
    );
}

#[test]
fn alias_that_is_no_identifier_is_malformed_though_a_path_stands_beside_it() {
    let mut arguments = directive("path", "a.b");
    arguments.push(punct(','));
    arguments.extend(directive("alias", "not this"));
    assert_eq!(
        parse_field(&field("name", vec![list("subset", arguments)]), 0, Derive::Subset),
        Err(malformed_at(0, 0, 4))
    );
}

#[test]
fn form_of_the_annotations_is_checked_before_the_values() {
    let mut arguments = directive("alias", "1st");
    arguments.push(punct(','));
    arguments.extend(directive("transform", "upper"));
    assert_eq!(
        parse_field(&field("name", vec![list("subset", arguments)]), 0, Derive::Subset),
        Err(unsupported(0, 0, 4))
    );

    let annotations = vec![list("subset", directive("alias", "1st")), word("subset")];
    assert_eq!(
        parse_field(&field("name", annotations), 0, Derive::Subset),
        Err(malformed(Anchor::Annotation { field: 0, annotation: 1 }))
    );
}

#[test]
fn key_that_begins_a_longer_name_is_unsupported() {
    let longer = vec![ident("alias"), punct(':'), punct(':'), ident("x"), punct('='), string("y")];
    assert_eq!(
        parse_field(&field("name", vec![list("subset", longer)]), 0, Derive::Subset),
        Err(unsupported(0, 0, 0))
    );
    let rooted = vec![punct(':'), punct(':'), ident("alias"), punct('='), string("y")];
    assert_eq!(
        parse_field(&field("name", vec![list("subset", rooted)]), 0, Derive::Subset),
        Err(unsupported(0, 0, 0))
    );
    let ends_early = vec![ident("path"), punct(':'), punct(':')];
    assert_eq!(
        parse_field(&field("name", vec![list("subset", ends_early)]), 0, Derive::Subset),
        Err(unsupported(0, 0, 0))
    );
}

#[test]
fn field_annotation_without_argument_list_is_malformed_at_the_annotation() {
    let annotations = vec![list("subset", directive("alias", "a")), word("subset")];
    assert_eq!(
        parse_field(&field("name", annotations), 2, Derive::Subset),
        Err(malformed(Anchor::Annotation { field: 2, annotation: 1 }))
    );
}

#[test]
fn first_error_of_a_field_wins() {
    let mut arguments = vec![ident("alias"), punct('='), literal("5"), punct(',')];
    arguments.extend(directive("transform", "upper"));
    assert_eq!(
        parse_field(&field("name", vec![list("subset", arguments)]), 0, Derive::Subset),
        Err(malformed_at(0, 0, 0))
    );
}

#[test]
fn fields_are_parsed_in_declaration_order() {
    let fields = vec![
        field("a", vec![]),
        field("b", vec![list("subset", directive("alias", "x"))]),
        field("c", vec![list("subset", directive("path", "y.z"))]),
    ];
    assert_eq!(
        parse_fields(&fields, Derive::Subset),
        Ok(vec![
            descriptor("a", None, None),
            descriptor("b", Some("x"), None),
            descriptor("c", None, Some("y.z")),
        ])
    );
    assert_eq!(parse_fields(&vec![], Derive::Subset), Ok(vec![]));
}

#[test]
fn first_failing_field_ends_the_pass() {
    let fields = vec![
        field("a", vec![]),
        field("b", vec![list("subset", vec![ident("alias"), punct('='), literal("5")])]),
        field("c", vec![list("subset", directive("transform", "upper"))]),
    ];
    assert_eq!(parse_fields(&fields, Derive::Subset), Err(malformed_at(1, 0, 0)));
}

#[test]
fn unknown_key_suppresses_emission_though_other_fields_are_well_formed() {
    let definition = named_struct(
        vec![from_source()],
        vec![
            field("a", vec![]),
            field("b", vec![list("subset", directive("alias", "x"))]),
            field("c", vec![list("subset", directive("transform", "upper"))]),
            field("d", vec![list("subset", directive("path", "y.z"))]),
        ],
    );
    assert_eq!(impl_subset(definition), Err(unsupported(2, 0, 0)));
}

#[test]
fn shape_is_checked_before_the_annotations() {
    for shape in [Shape::Enum, Shape::Union, Shape::TupleStruct, Shape::UnitStruct] {
        let with_source = TypeDefinition {
            name: "Target".to_string(),
            shape,
            annotations: vec![from_source()],
            fields: vec![],
        };
        let without = TypeDefinition {
            name: "Target".to_string(),
            shape,
            annotations: vec![],
            fields: vec![field("a", vec![list("subset", directive("transform", "x"))])],
        };
        let expected = Diagnostic {
            kind: ErrorKind::NotANamedStruct,
            message: "Subset can only be derived on structs with named fields".to_string(),
            anchor: Anchor::TypeName,
        };
        assert_eq!(impl_subset(with_source), Err(expected.clone()), "{:?}", shape);
        assert_eq!(impl_subset(without), Err(expected), "{:?}", shape);
    }
}

#[test]
fn not_a_named_struct_in_the_typelater_wording() {
    let definition = TypeDefinition {
        name: "Target".to_string(),
        shape: Shape::Enum,
        annotations: vec![],
        fields: vec![],
    };
    assert_eq!(
        impl_typelater(definition),
        Err(Diagnostic {
            kind: ErrorKind::NotANamedStruct,
            message: "Typelater can only be derived on structs with named fields".to_string(),
            anchor: Anchor::TypeName,
        })
    );
}

#[test]
fn missing_source_type_comes_before_any_field() {
    let definition = named_struct(
        vec![],
        vec![field("a", vec![list("subset", directive("transform", "x"))])],
    );
    assert_eq!(impl_subset(definition), Err(missing_source_type()));
}

#[test]
fn malformed_value_in_the_typelater_wording() {
    let annotations = vec![list("typelater", directive("alias", "a b"))];
    assert_eq!(
        parse_field(&field("name", annotations), 0, Derive::Typelater),
        Err(Diagnostic {
            kind: ErrorKind::MalformedDirectiveValue,
            message: "malformed typelater attribute; expected `alias = \"field\"` or `path = \"field.field\"`"
                .to_string(),
            anchor: Anchor::Directive { field: 0, annotation: 0, token: 0 },
        })
    );
}

// --- entries -----------------------------------------------------------------

#[test]
fn directive_key_knows_alias_and_path() {
    assert_eq!(directive_key(&"alias".to_string()), Some(DirectiveKey::Alias));
    assert_eq!(directive_key(&"path".to_string()), Some(DirectiveKey::Path));
    assert_eq!(directive_key(&"from".to_string()), None);
    assert_eq!(directive_key(&"".to_string()), None);
    assert_eq!(directive_key(&"aliases".to_string()), None);
}

#[test]
fn read_entry_steps_over_one_directive() {
    let mut arguments = directive("alias", "a");
    arguments.push(punct(','));
    arguments.extend(directive("path", "b.c"));

    assert_eq!(
        read_entry(&arguments, 0),
        Entry::Found { key: DirectiveKey::Alias, value: "a".to_string(), next: 4 }
    );
    assert_eq!(
        read_entry(&arguments, 4),
        Entry::Found { key: DirectiveKey::Path, value: "b.c".to_string(), next: 7 }
    );
    assert_eq!(read_entry(&arguments, 7), Entry::End);
    assert_eq!(read_entry(&arguments, 100), Entry::End);
    assert_eq!(read_entry(&arguments, usize::MAX), Entry::End);
    assert_eq!(read_entry(&arguments, 1), Entry::Unsupported);
    assert_eq!(read_entry(&arguments, 2), Entry::Unsupported);
    assert_eq!(read_entry(&vec![], 0), Entry::End);
}

#[test]
fn read_entry_at_the_end_of_the_list() {
    let arguments = vec![ident("x"), ident("alias"), punct('='), string("not yet checked")];
    assert_eq!(
        read_entry(&arguments, 1),
        Entry::Found { key: DirectiveKey::Alias, value: "not yet checked".to_string(), next: 4 }
    );
    let number = vec![ident("alias"), punct('='), literal("7")];
    assert_eq!(read_entry(&number, 0), Entry::Malformed);
    let short = vec![ident("alias"), punct('=')];
    assert_eq!(read_entry(&short, 0), Entry::Malformed);
    let junk = vec![ident("alias"), punct('='), string("a"), ident("b")];
    assert_eq!(read_entry(&junk, 0), Entry::Malformed);
}

#[test]
fn tokens_are_told_apart() {
    assert!(is_punct(&punct('='), '='));
    assert!(!is_punct(&punct(','), '='));
    assert!(!is_punct(&ident("="), '='));
    assert!(!is_punct(&literal("="), '='));
    assert!(is_word(&ident("from"), "from"));
    assert!(!is_word(&ident("From"), "from"));
    assert!(!is_word(&literal("from"), "from"));
    assert!(!is_word(&Token::Group, "from"));

    let tokens = vec![ident("a"), punct(':'), punct(':'), ident("b"), punct(':')];
    assert!(is_path_separator(&tokens, 1));
    assert!(!is_path_separator(&tokens, 0));
    assert!(!is_path_separator(&tokens, 2));
    assert!(!is_path_separator(&tokens, 4));
    assert!(!is_path_separator(&tokens, 5));
    assert!(!is_path_separator(&tokens, usize::MAX));
}

fn located(value: &str, token: usize) -> Option<Located> {
    Some(Located {
        value: value.to_string(),
        key: Anchor::Directive { field: 0, annotation: 0, token },
    })
}

#[test]
fn with_keeps_the_last_value_under_each_key() {
    let at = |token: usize| Anchor::Directive { field: 0, annotation: 0, token };

    let first = Gathered::empty().with(DirectiveKey::Alias, "a".to_string(), at(0));
    assert_eq!(first, Gathered { alias: located("a", 0), path: None });

    let second = first.with(DirectiveKey::Path, "b.c".to_string(), at(4));
    assert_eq!(second, Gathered { alias: located("a", 0), path: located("b.c", 4) });

    let third = second.with(DirectiveKey::Alias, "not yet checked".to_string(), at(8));
    assert_eq!(
        third,
        Gathered { alias: located("not yet checked", 8), path: located("b.c", 4) }
    );
}

#[test]
fn settle_holds_the_directive_in_force_to_its_form() {
    let name = || "field".to_string();
    assert_eq!(Gathered::empty().settle(name(), Derive::Subset), Ok(descriptor("field", None, None)));
    assert_eq!(
        Gathered { alias: located("a", 0), path: None }.settle(name(), Derive::Subset),
        Ok(descriptor("field", Some("a"), None))
    );
    assert_eq!(
        Gathered { alias: None, path: located("a.b", 4) }.settle(name(), Derive::Subset),
        Ok(descriptor("field", None, Some("a.b")))
    );
    assert_eq!(
        Gathered { alias: located("a", 0), path: located("!", 4) }.settle(name(), Derive::Subset),
        Ok(descriptor("field", Some("a"), Some("!")))
    );
    assert_eq!(
        Gathered { alias: located("a.b", 8), path: located("a.b", 4) }.settle(name(), Derive::Subset),
        Err(malformed_at(0, 0, 8))
    );
    assert_eq!(
        Gathered { alias: None, path: located("a..b", 4) }.settle(name(), Derive::Subset),
        Err(malformed_at(0, 0, 4))
    );
}

#[test]
fn parse_arguments_adds_to_what_is_gathered() {
    let mut arguments = directive("path", "x.y");
    arguments.push(punct(','));
    let gathered = Gathered { alias: located("a", 0), path: located("old", 4) };
    let at = |annotation: usize, token: usize| Anchor::Directive { field: 7, annotation, token };
    assert_eq!(
        parse_arguments(&arguments, Derive::Subset, 7, 3, gathered.clone()),
        Ok(Gathered {
            alias: located("a", 0),
            path: Some(Located { value: "x.y".to_string(), key: at(3, 0) }),
        })
    );
    assert_eq!(parse_arguments(&vec![], Derive::Subset, 7, 3, gathered.clone()), Ok(gathered));
}
