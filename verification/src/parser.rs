//! Attribute parsing: from the raw annotations of a type definition to its
//! directive model, or to the first diagnostic.

use crate::definition::{
    Annotation, AnnotationView, FieldDefinition, FieldDefinitionView, Token, TokenView,
    TypeDefinition, TypeDefinitionView,
};
use crate::diagnostic::{diagnostic, namespace, outcome_view, Anchor, Derive, Diagnostic,
    DiagnosticView, ErrorKind};
use crate::directive::{
    DirectiveKey, DirectiveModel, DirectiveModelView, FieldDescriptor, FieldDescriptorView,
    SourceTypeReference,
};
use crate::identifier::{identifier, is_identifier};
use crate::path::{identifier_chain, is_identifier_chain};
use vstd::prelude::*;
use vstd::string::StringExecFns;

verus! {

// ---------------------------------------------------------------------------
// The type-level directive
// ---------------------------------------------------------------------------

/// What the string literal denotes in an argument list of the exact form
/// `from = "<text>"`; `None` for any other list.
pub open spec fn source_literal(tokens: Seq<TokenView>) -> Option<Seq<char>> {
    if tokens.len() == 3 && tokens[0] == TokenView::Ident("from"@) && tokens[1]
        == TokenView::Punct('=') {
        match tokens[2] {
            TokenView::Str(text) => Some(text),
            _ => None,
        }
    } else {
        None
    }
}

/// The source type that the text of a `from` directive names: the text has
/// to be an identifier.
pub open spec fn source_name(written: Option<Seq<char>>) -> Option<Seq<char>> {
    match written {
        Some(name) => if identifier(name) {
            Some(name)
        } else {
            None
        },
        None => None,
    }
}

/// The source type that one annotation of the derive's namespace declares.
pub open spec fn declared_source(arguments: Option<Seq<TokenView>>) -> Option<Seq<char>> {
    match arguments {
        Some(tokens) => source_name(source_literal(tokens)),
        None => None,
    }
}

/// The source type that the annotations from index `from` on declare: the
/// first annotation of the derive's namespace decides, alone.
pub open spec fn source_type_from(annotations: Seq<AnnotationView>, from: int, derive: Derive)
    -> Option<Seq<char>>
    decreases annotations.len() - from,
{
    if from < 0 || from >= annotations.len() {
        None
    } else if annotations[from].name == namespace(derive) {
        declared_source(annotations[from].arguments)
    } else {
        source_type_from(annotations, from + 1, derive)
    }
}

/// The source type that the annotations of a type declare.
pub open spec fn source_type(annotations: Seq<AnnotationView>, derive: Derive) -> Option<
    Seq<char>,
> {
    source_type_from(annotations, 0, derive)
}

/// The source type of a type, or the failure of a type that declares none.
pub open spec fn parsed_source_type(annotations: Seq<AnnotationView>, derive: Derive) -> Result<
    Seq<char>,
    DiagnosticView,
> {
    match source_type(annotations, derive) {
        Some(source) => Ok(source),
        None => Err(diagnostic(derive, ErrorKind::MissingSourceType, Anchor::TypeName)),
    }
}

/// Whether a token is the punctuation character `mark`.
pub fn is_punct(token: &Token, mark: char) -> (same: bool)
    ensures
        same == (token@ == TokenView::Punct(mark)),
{
    match token {
        Token::Punct(c) => *c == mark,
        _ => false,
    }
}

/// Whether a token is the identifier `word`.
pub fn is_word(token: &Token, word: &str) -> (same: bool)
    ensures
        same == (token@ == TokenView::Ident(word@)),
{
    match token {
        Token::Ident(found) => {
            let wanted = String::from_str(word);
            *found == wanted
        },
        _ => false,
    }
}

/// Reads an argument list of the exact form `from = "<text>"` and hands out
/// the text.
pub fn read_source_literal(tokens: &Vec<Token>) -> (text: Option<String>)
    ensures
        text.deep_view() == source_literal(tokens.deep_view()),
{
    if tokens.len() != 3 {
        return None;
    }
    if !is_word(&tokens[0], "from") || !is_punct(&tokens[1], '=') {
        return None;
    }
    match &tokens[2] {
        Token::Str(text) => Some(text.clone()),
        _ => None,
    }
}

/// Accepts the text of a `from` directive as the name of the source type.
pub fn accept_source(written: Option<String>) -> (source: Option<SourceTypeReference>)
    ensures
        source.deep_view() == source_name(written.deep_view()),
        source matches Some(found) ==> identifier(found@),
{
    match written {
        Some(name) => {
            if is_identifier(name.as_str()) {
                Some(SourceTypeReference { name })
            } else {
                None
            }
        },
        None => None,
    }
}

/// Finds the source type that the annotations of a type declare; a type
/// that declares none fails with `MissingSourceType` at its name.
pub fn parse_source_type(annotations: &Vec<Annotation>, derive: Derive) -> (outcome: Result<
    SourceTypeReference,
    Diagnostic,
>)
    ensures
        outcome_view(outcome) == parsed_source_type(annotations.deep_view(), derive),
        outcome matches Ok(found) ==> identifier(found@),
{
    let wanted = derive.namespace();
    let mut index: usize = 0;
    while index < annotations.len()
        invariant
            index <= annotations.len(),
            wanted@ == namespace(derive),
            source_type(annotations.deep_view(), derive) == source_type_from(
                annotations.deep_view(),
                index as int,
                derive,
            ),
        decreases annotations.len() - index,
    {
        let annotation = &annotations[index];
        if annotation.name == wanted {
            let declared = match &annotation.arguments {
                Some(tokens) => accept_source(read_source_literal(tokens)),
                None => None,
            };
            return match declared {
                Some(source) => Ok(source),
                None => Err(
                    Diagnostic::new(derive, ErrorKind::MissingSourceType, Anchor::TypeName),
                ),
            };
        }
        index += 1;
    }
    Err(Diagnostic::new(derive, ErrorKind::MissingSourceType, Anchor::TypeName))
}

// ---------------------------------------------------------------------------
// Field-level directives
// ---------------------------------------------------------------------------

/// The key that an identifier stands for, if any.
pub open spec fn key_of(word: Seq<char>) -> Option<DirectiveKey> {
    if word == "alias"@ {
        Some(DirectiveKey::Alias)
    } else if word == "path"@ {
        Some(DirectiveKey::Path)
    } else {
        None
    }
}

/// What stands at one position of an argument list, where a directive is
/// expected.
#[derive(Clone, Debug, PartialEq, Eq)]
pub enum Entry {
    /// The list ends here.
    End,
    /// Something other than the key `alias` or `path`.
    Unsupported,
    /// A key that is not followed by `=`, a string literal and then a comma
    /// or the end of the list.
    Malformed,
    /// A directive: its key, what its string literal denotes, and the
    /// position at which the next directive is expected.
    Found { key: DirectiveKey, value: String, next: usize },
}

/// The mathematical value of an [`Entry`].
pub enum EntryView {
    End,
    Unsupported,
    Malformed,
    Found { key: DirectiveKey, value: Seq<char>, next: int },
}

impl View for Entry {
    type V = EntryView;

    open spec fn view(&self) -> EntryView {
        match self {
            Entry::End => EntryView::End,
            Entry::Unsupported => EntryView::Unsupported,
            Entry::Malformed => EntryView::Malformed,
            Entry::Found { key, value, next } => EntryView::Found {
                key: *key,
                value: value@,
                next: *next as int,
            },
        }
    }
}

/// Whether `::` stands at a position of an argument list.
pub open spec fn path_separator_at(tokens: Seq<TokenView>, position: int) -> bool {
    &&& 0 <= position
    &&& position + 1 < tokens.len()
    &&& tokens[position] == TokenView::Punct(':')
    &&& tokens[position + 1] == TokenView::Punct(':')
}

/// What stands at position `position` of an argument list: directives have
/// the form `key = "<text>"` and are separated by commas, with an optional
/// comma after the last. A key that `::` follows is the beginning of a longer
/// name, which is no key.
pub open spec fn entry_at(tokens: Seq<TokenView>, position: int) -> EntryView {
    if position < 0 || position >= tokens.len() {
        EntryView::End
    } else {
        match tokens[position] {
            TokenView::Ident(word) => match key_of(word) {
                Some(key) => {
                    if path_separator_at(tokens, position + 1) {
                        EntryView::Unsupported
                    } else if position + 2 < tokens.len() && tokens[position + 1]
                        == TokenView::Punct('=') && tokens[position + 2] is Str {
                        let value = tokens[position + 2]->Str_0;
                        if position + 3 == tokens.len() {
                            EntryView::Found { key, value, next: position + 3 }
                        } else if tokens[position + 3] == TokenView::Punct(',') {
                            EntryView::Found { key, value, next: position + 4 }
                        } else {
                            EntryView::Malformed
                        }
                    } else {
                        EntryView::Malformed
                    }
                },
                None => EntryView::Unsupported,
            },
            _ => EntryView::Unsupported,
        }
    }
}

/// A directive value together with the place of its key.
#[derive(Clone, Debug, PartialEq, Eq)]
pub struct Located {
    pub value: String,
    pub key: Anchor,
}

/// The mathematical value of a [`Located`].
pub struct LocatedView {
    pub value: Seq<char>,
    pub key: Anchor,
}

impl View for Located {
    type V = LocatedView;

    open spec fn view(&self) -> LocatedView {
        LocatedView { value: self.value@, key: self.key }
    }
}

impl DeepView for Located {
    type V = LocatedView;

    open spec fn deep_view(&self) -> LocatedView {
        self.view()
    }
}

/// The directive values gathered from the annotations of one field: under
/// each key the last value that was given.
#[derive(Clone, Debug, PartialEq, Eq)]
pub struct Gathered {
    pub alias: Option<Located>,
    pub path: Option<Located>,
}

/// The mathematical value of a [`Gathered`].
pub struct GatheredView {
    pub alias: Option<LocatedView>,
    pub path: Option<LocatedView>,
}

impl View for Gathered {
    type V = GatheredView;

    open spec fn view(&self) -> GatheredView {
        GatheredView { alias: self.alias.deep_view(), path: self.path.deep_view() }
    }
}

impl DeepView for Gathered {
    type V = GatheredView;

    open spec fn deep_view(&self) -> GatheredView {
        self.view()
    }
}

/// The text of a directive value, without its place.
pub open spec fn value_of(located: Option<LocatedView>) -> Option<Seq<char>> {
    match located {
        Some(found) => Some(found.value),
        None => None,
    }
}

impl GatheredView {
    /// Nothing gathered.
    pub open spec fn empty() -> GatheredView {
        GatheredView { alias: None, path: None }
    }

    /// What is gathered after one more directive: a later value replaces an
    /// earlier one under the same key.
    pub open spec fn with(self, key: DirectiveKey, value: Seq<char>, at: Anchor) -> GatheredView {
        match key {
            DirectiveKey::Alias => GatheredView {
                alias: Some(LocatedView { value, key: at }),
                ..self
            },
            DirectiveKey::Path => GatheredView {
                path: Some(LocatedView { value, key: at }),
                ..self
            },
        }
    }

    /// The descriptor of the field `name` that carries these values. Only the
    /// directive in force is held to its form: an alias must be an
    /// identifier; without an alias, a path must be a chain of identifiers.
    /// A path beside an alias is kept as it is and never read.
    pub open spec fn settled(self, name: Seq<char>, derive: Derive) -> Result<
        FieldDescriptorView,
        DiagnosticView,
    > {
        let descriptor = FieldDescriptorView {
            name,
            alias: value_of(self.alias),
            path: value_of(self.path),
        };
        match self.alias {
            Some(alias) => if identifier(alias.value) {
                Ok(descriptor)
            } else {
                Err(diagnostic(derive, ErrorKind::MalformedDirectiveValue, alias.key))
            },
            None => match self.path {
                Some(path) => if identifier_chain(path.value) {
                    Ok(descriptor)
                } else {
                    Err(diagnostic(derive, ErrorKind::MalformedDirectiveValue, path.key))
                },
                None => Ok(descriptor),
            },
        }
    }
}

/// The directives of one argument list from position `position` on, added to
/// `gathered` in their order; the first entry that is no directive ends the
/// scan with a diagnostic at its first token.
pub open spec fn scan_entries(
    tokens: Seq<TokenView>,
    position: int,
    derive: Derive,
    field: usize,
    annotation: usize,
    gathered: GatheredView,
) -> Result<GatheredView, DiagnosticView>
    decreases tokens.len() - position,
{
    let here = Anchor::Directive { field, annotation, token: position as usize };
    match entry_at(tokens, position) {
        EntryView::End => Ok(gathered),
        EntryView::Unsupported => Err(diagnostic(derive, ErrorKind::UnsupportedDirective, here)),
        EntryView::Malformed => Err(diagnostic(derive, ErrorKind::MalformedDirectiveValue, here)),
        EntryView::Found { key, value, next } => scan_entries(
            tokens,
            next,
            derive,
            field,
            annotation,
            gathered.with(key, value, here),
        ),
    }
}

/// The directives of a field's annotations from index `from` on, added to
/// `gathered`. Annotations of other namespaces are passed over; one of the
/// derive's namespace must have an argument list.
pub open spec fn scan_annotations(
    annotations: Seq<AnnotationView>,
    from: int,
    derive: Derive,
    field: usize,
    gathered: GatheredView,
) -> Result<GatheredView, DiagnosticView>
    decreases annotations.len() - from,
{
    if from < 0 || from >= annotations.len() {
        Ok(gathered)
    } else if annotations[from].name != namespace(derive) {
        scan_annotations(annotations, from + 1, derive, field, gathered)
    } else {
        match annotations[from].arguments {
            Some(tokens) => match scan_entries(tokens, 0, derive, field, from as usize, gathered) {
                Ok(extended) => scan_annotations(annotations, from + 1, derive, field, extended),
                Err(error) => Err(error),
            },
            None => Err(
                diagnostic(
                    derive,
                    ErrorKind::MalformedDirectiveValue,
                    Anchor::Annotation { field, annotation: from as usize },
                ),
            ),
        }
    }
}

/// The descriptor of the field that stands at index `index` of its type:
/// all its annotations are scanned, then the directive in force is held to
/// its form.
pub open spec fn parsed_field(field: FieldDefinitionView, index: usize, derive: Derive) -> Result<
    FieldDescriptorView,
    DiagnosticView,
> {
    match scan_annotations(field.annotations, 0, derive, index, GatheredView::empty()) {
        Ok(gathered) => gathered.settled(field.name, derive),
        Err(error) => Err(error),
    }
}

/// The descriptors of the fields from index `from` on, added to `done`; the
/// first field that fails ends the pass.
pub open spec fn parsed_fields_from(
    fields: Seq<FieldDefinitionView>,
    from: int,
    derive: Derive,
    done: Seq<FieldDescriptorView>,
) -> Result<Seq<FieldDescriptorView>, DiagnosticView>
    decreases fields.len() - from,
{
    if from < 0 || from >= fields.len() {
        Ok(done)
    } else {
        match parsed_field(fields[from], from as usize, derive) {
            Ok(descriptor) => parsed_fields_from(fields, from + 1, derive, done.push(descriptor)),
            Err(error) => Err(error),
        }
    }
}

/// The descriptors of all fields of a type, in declaration order.
pub open spec fn parsed_fields(fields: Seq<FieldDefinitionView>, derive: Derive) -> Result<
    Seq<FieldDescriptorView>,
    DiagnosticView,
> {
    parsed_fields_from(fields, 0, derive, Seq::<FieldDescriptorView>::empty())
}

/// The key that an identifier stands for, if any.
pub fn directive_key(word: &String) -> (key: Option<DirectiveKey>)
    ensures
        key == key_of(word@),
{
    let alias = String::from_str("alias");
    let path = String::from_str("path");
    if *word == alias {
        Some(DirectiveKey::Alias)
    } else if *word == path {
        Some(DirectiveKey::Path)
    } else {
        None
    }
}

/// Whether `::` stands at a position of an argument list.
pub fn is_path_separator(tokens: &Vec<Token>, position: usize) -> (found: bool)
    ensures
        found == path_separator_at(tokens.deep_view(), position as int),
{
    let length = tokens.len();
    if position >= length || length - position < 2 {
        return false;
    }
    is_punct(&tokens[position], ':') && is_punct(&tokens[position + 1], ':')
}

/// Reads what stands at one position of an argument list.
pub fn read_entry(tokens: &Vec<Token>, position: usize) -> (entry: Entry)
    ensures
        entry@ == entry_at(tokens.deep_view(), position as int),
{
    let length = tokens.len();
    if position >= length {
        return Entry::End;
    }
    let key = match &tokens[position] {
        Token::Ident(word) => match directive_key(word) {
            Some(key) => key,
            None => {
                return Entry::Unsupported;
            },
        },
        _ => {
            return Entry::Unsupported;
        },
    };
    if is_path_separator(tokens, position + 1) {
        return Entry::Unsupported;
    }
    if length - position <= 2 {
        return Entry::Malformed;
    }
    if !is_punct(&tokens[position + 1], '=') {
        return Entry::Malformed;
    }
    let value = match &tokens[position + 2] {
        Token::Str(text) => text.clone(),
        _ => {
            return Entry::Malformed;
        },
    };
    if length - position == 3 {
        return Entry::Found { key, value, next: position + 3 };
    }
    if is_punct(&tokens[position + 3], ',') {
        Entry::Found { key, value, next: position + 4 }
    } else {
        Entry::Malformed
    }
}

impl Gathered {
    /// Nothing gathered.
    pub fn empty() -> (gathered: Gathered)
        ensures
            gathered@ == GatheredView::empty(),
    {
        Gathered { alias: None, path: None }
    }

    /// What is gathered after the directive `key = "<value>"` whose key
    /// stands at `at`.
    pub fn with(self, key: DirectiveKey, value: String, at: Anchor) -> (gathered: Gathered)
        ensures
            gathered@ == self@.with(key, value@, at),
    {
        let located = Located { value, key: at };
        match key {
            DirectiveKey::Alias => Gathered { alias: Some(located), path: self.path },
            DirectiveKey::Path => Gathered { alias: self.alias, path: Some(located) },
        }
    }

    /// Holds the directive in force to its form and hands out the descriptor
    /// of the field `name`.
    pub fn settle(self, name: String, derive: Derive) -> (outcome: Result<
        FieldDescriptor,
        Diagnostic,
    >)
        ensures
            outcome_view(outcome) == self@.settled(name@, derive),
            outcome matches Ok(descriptor) ==> descriptor@.well_formed() && descriptor@.name
                == name@,
    {
        let refused = match &self.alias {
            Some(alias) => {
                if is_identifier(alias.value.as_str()) {
                    None
                } else {
                    Some(alias.key)
                }
            },
            None => match &self.path {
                Some(path) => {
                    if is_identifier_chain(path.value.as_str()) {
                        None
                    } else {
                        Some(path.key)
                    }
                },
                None => None,
            },
        };
        match refused {
            Some(at) => Err(Diagnostic::new(derive, ErrorKind::MalformedDirectiveValue, at)),
            None => {
                let alias = match self.alias {
                    Some(located) => Some(located.value),
                    None => None,
                };
                let path = match self.path {
                    Some(located) => Some(located.value),
                    None => None,
                };
                Ok(FieldDescriptor { name, alias, path })
            },
        }
    }
}

/// Adds the directives of one argument list to what is gathered for a field.
pub fn parse_arguments(
    tokens: &Vec<Token>,
    derive: Derive,
    field: usize,
    annotation: usize,
    gathered: Gathered,
) -> (outcome: Result<Gathered, Diagnostic>)
    ensures
        outcome_view(outcome) == scan_entries(
            tokens.deep_view(),
            0,
            derive,
            field,
            annotation,
            gathered@,
        ),
{
    let mut extended = gathered;
    let mut position: usize = 0;
    while position < tokens.len()
        invariant
            position <= tokens.len(),
            scan_entries(tokens.deep_view(), 0, derive, field, annotation, gathered@)
                == scan_entries(
                tokens.deep_view(),
                position as int,
                derive,
                field,
                annotation,
                extended@,
            ),
        decreases tokens.len() - position,
    {
        let here = Anchor::Directive { field, annotation, token: position };
        match read_entry(tokens, position) {
            Entry::End => {
                return Ok(extended);
            },
            Entry::Unsupported => {
                return Err(Diagnostic::new(derive, ErrorKind::UnsupportedDirective, here));
            },
            Entry::Malformed => {
                return Err(Diagnostic::new(derive, ErrorKind::MalformedDirectiveValue, here));
            },
            Entry::Found { key, value, next } => {
                extended = extended.with(key, value, here);
                position = next;
            },
        }
    }
    Ok(extended)
}

/// Parses the annotations of the field that stands at index `index` of its
/// type.
pub fn parse_field(field: &FieldDefinition, index: usize, derive: Derive) -> (outcome: Result<
    FieldDescriptor,
    Diagnostic,
>)
    ensures
        outcome_view(outcome) == parsed_field(field@, index, derive),
        outcome matches Ok(descriptor) ==> descriptor@.well_formed() && descriptor@.name
            == field@.name,
{
    let wanted = derive.namespace();
    let mut gathered = Gathered::empty();
    let mut current: usize = 0;
    while current < field.annotations.len()
        invariant
            current <= field.annotations.len(),
            wanted@ == namespace(derive),
            scan_annotations(field.annotations.deep_view(), 0, derive, index, GatheredView::empty())
                == scan_annotations(
                field.annotations.deep_view(),
                current as int,
                derive,
                index,
                gathered@,
            ),
        decreases field.annotations.len() - current,
    {
        let annotation = &field.annotations[current];
        if annotation.name == wanted {
            match &annotation.arguments {
                Some(tokens) => {
                    match parse_arguments(tokens, derive, index, current, gathered) {
                        Ok(extended) => {
                            gathered = extended;
                        },
                        Err(error) => {
                            return Err(error);
                        },
                    }
                },
                None => {
                    return Err(
                        Diagnostic::new(
                            derive,
                            ErrorKind::MalformedDirectiveValue,
                            Anchor::Annotation { field: index, annotation: current },
                        ),
                    );
                },
            }
        }
        current += 1;
    }
    gathered.settle(field.name.clone(), derive)
}

/// Parses the annotations of all fields, in declaration order, and stops at
/// the first field that fails.
pub fn parse_fields(fields: &Vec<FieldDefinition>, derive: Derive) -> (outcome: Result<
    Vec<FieldDescriptor>,
    Diagnostic,
>)
    ensures
        outcome_view(outcome) == parsed_fields(fields.deep_view(), derive),
        outcome matches Ok(all) ==> all.len() == fields.len() && forall|i: int|
            0 <= i < all.len() ==> (#[trigger] all@[i])@.well_formed() && all@[i]@.name
                == fields@[i]@.name,
{
    let mut done: Vec<FieldDescriptor> = Vec::new();
    let mut index: usize = 0;
    assert(done.deep_view() =~= Seq::<FieldDescriptorView>::empty());
    while index < fields.len()
        invariant
            index <= fields.len(),
            done.len() == index,
            forall|i: int|
                0 <= i < done.len() ==> (#[trigger] done@[i])@.well_formed() && done@[i]@.name
                    == fields@[i]@.name,
            parsed_fields(fields.deep_view(), derive) == parsed_fields_from(
                fields.deep_view(),
                index as int,
                derive,
                done.deep_view(),
            ),
        decreases fields.len() - index,
    {
        let ghost before = done.deep_view();
        match parse_field(&fields[index], index, derive) {
            Ok(descriptor) => {
                done.push(descriptor);
                assert(done.deep_view() =~= before.push(descriptor@));
            },
            Err(error) => {
                return Err(error);
            },
        }
        index += 1;
    }
    Ok(done)
}

// ---------------------------------------------------------------------------
// The whole type
// ---------------------------------------------------------------------------

/// The directive model of a type: first its source type, then its fields in
/// declaration order; the first failure is the outcome.
pub open spec fn parsed_model(definition: TypeDefinitionView, derive: Derive) -> Result<
    DirectiveModelView,
    DiagnosticView,
> {
    match parsed_source_type(definition.annotations, derive) {
        Ok(source) => match parsed_fields(definition.fields, derive) {
            Ok(fields) => Ok(DirectiveModelView { source, fields }),
            Err(error) => Err(error),
        },
        Err(error) => Err(error),
    }
}

/// Parses the annotations of a type and of its fields.
pub fn parse_annotations(definition: &TypeDefinition, derive: Derive) -> (outcome: Result<
    DirectiveModel,
    Diagnostic,
>)
    ensures
        outcome_view(outcome) == parsed_model(definition@, derive),
        outcome matches Ok(model) ==> model@.well_formed() && model@.fields.len()
            == definition@.fields.len(),
{
    match parse_source_type(&definition.annotations, derive) {
        Ok(source) => match parse_fields(&definition.fields, derive) {
            Ok(fields) => Ok(DirectiveModel { source, fields }),
            Err(error) => Err(error),
        },
        Err(error) => Err(error),
    }
}

} // verus!
