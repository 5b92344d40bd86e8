//! Reading the tree that `graphql_parser` returns.
//!
//! The parser's tree is generic over the type of its strings, through a trait
//! of the parser's own, so Verus cannot look into it. This module keeps the
//! tree behind three opaque handles and reads it through a few accessors,
//! each of which does one step and is believed, not proved. What the
//! accessors return is named by the uninterpreted functions below, and the
//! loops that put a `SourceDocument` together from them are verified against
//! those names.

use vstd::prelude::*;
use vstd::pervasive::unreached;
use graphql_parser::query as ast;
use crate::node::OperationKind;
use crate::text::admitted;
use crate::source::{
    has_selections, is_filled, optional_text, SourceDefinition, SourceDefinitionView, SourceDocument, SourceDocumentView,
    SourceField, SourceOperation, SourceOperationView, SourceSelection, SourceSelectionSet,
    SourceSelectionSetView, SourceSelectionView,
};

verus! {

/// The error of `graphql_parser::parse_query`. Nothing of it is read.
#[verifier::external_type_specification]
#[verifier::external_body]
pub struct ExParseError(graphql_parser::query::ParseError);

/// A whole parsed query: a `graphql_parser::query::Document` with owned strings.
#[verifier::external_body]
pub struct ParsedQuery {
    inner: graphql_parser::query::Document<'static, String>,
}

/// One definition inside a parsed query: a `graphql_parser::query::Definition`.
#[verifier::external_body]
pub struct ParsedDefinition<'a> {
    inner: &'a graphql_parser::query::Definition<'static, String>,
}

/// One selection inside a parsed query: a `graphql_parser::query::Selection`.
#[verifier::external_body]
pub struct ParsedSelection<'a> {
    inner: &'a graphql_parser::query::Selection<'static, String>,
}

/// How a definition begins: with the keyword `fragment`, with a bare
/// selection set, or with the keyword of an operation.
#[derive(Debug, Clone, Copy, PartialEq, Eq, Structural)]
pub enum DefinitionKeyword {
    Fragment,
    Shorthand,
    Operation(OperationKind),
}

/// A label with its name as text and its counts as numbers.
pub open spec fn label_view(label: Option<(Option<String>, usize, usize)>) -> Option<
    (Option<Seq<char>>, nat, nat),
> {
    match label {
        Some((name, variables, directives)) => Some(
            (optional_text(name), variables as nat, directives as nat),
        ),
        None => None,
    }
}

/// What `graphql_parser::parse_query` returns for a text.
pub uninterp spec fn parsed_query(text: Seq<char>) -> Result<
    ParsedQuery,
    graphql_parser::query::ParseError,
>;

/// The definitions of a parsed query, in source order.
pub uninterp spec fn query_definitions(query: ParsedQuery) -> Seq<ParsedDefinition<'static>>;

/// How a parsed definition begins.
pub uninterp spec fn definition_keyword(definition: ParsedDefinition<'static>) -> DefinitionKeyword;

/// What a parsed operation with a keyword lists before its selection set:
/// its name, the number of its variable definitions, and the number of its
/// directives. Nothing for a fragment and for the shorthand form.
pub uninterp spec fn definition_label(definition: ParsedDefinition<'static>) -> Option<
    (Option<Seq<char>>, nat, nat),
>;

/// The entries of a parsed definition's selection set, in source order.
pub uninterp spec fn definition_selections(definition: ParsedDefinition<'static>) -> Seq<
    ParsedSelection<'static>,
>;

/// A parsed selection as the converter reads it.
pub uninterp spec fn selection_source(selection: ParsedSelection<'static>) -> SourceSelectionView;

/// Calls `graphql_parser::parse_query` with owned strings, and
/// `Document::into_static` on what it returns. The contract says only that
/// the result is a function of the text. The text has to be admitted: to
/// strip the indentation of a block string the parser cuts its lines at a
/// byte offset inside their leading white space, and panics where that
/// offset falls inside a character. In an admitted text there is no block
/// string, or all white space is one byte long.
#[verifier::external_body]
pub(crate) fn parse_text(text: &str) -> (r: Result<ParsedQuery, graphql_parser::query::ParseError>)
    requires
        admitted(text@),
    ensures
        r == parsed_query(text@),
{
    match graphql_parser::parse_query::<String>(text) {
        Ok(document) => Ok(ParsedQuery { inner: document.into_static() }),
        Err(error) => Err(error),
    }
}

/// Hands out the entries of `Document::definitions`, one handle each, in
/// order. There is at least one: the parser accepts no text without a
/// definition.
#[verifier::external_body]
fn definitions_of<'a>(query: &'a ParsedQuery) -> (r: Vec<ParsedDefinition<'a>>)
    ensures
        r@ == query_definitions(*query),
        r@.len() > 0,
{
    query.inner.definitions.iter().map(|d| ParsedDefinition { inner: d }).collect()
}

/// Tells the variants of `Definition` and `OperationDefinition` apart.
#[verifier::external_body]
fn keyword_of(definition: &ParsedDefinition<'_>) -> (r: DefinitionKeyword)
    ensures
        r == definition_keyword(*definition),
{
    match definition.inner {
        ast::Definition::Fragment(_) => DefinitionKeyword::Fragment,
        ast::Definition::Operation(operation) => match operation {
            ast::OperationDefinition::SelectionSet(_) => DefinitionKeyword::Shorthand,
            ast::OperationDefinition::Query(_) => DefinitionKeyword::Operation(OperationKind::Query),
            ast::OperationDefinition::Mutation(_) => DefinitionKeyword::Operation(
                OperationKind::Mutation,
            ),
            ast::OperationDefinition::Subscription(_) => DefinitionKeyword::Operation(
                OperationKind::Subscription,
            ),
        },
    }
}

/// Reads `name`, the length of `variable_definitions` and the length of
/// `directives` of a `Query`, `Mutation` or `Subscription`. The other
/// variants give nothing: the result is present exactly where `keyword_of`
/// finds the keyword of an operation.
#[verifier::external_body]
fn label_of(definition: &ParsedDefinition<'_>) -> (r: Option<(Option<String>, usize, usize)>)
    ensures
        r is Some <==> definition_keyword(*definition) is Operation,
        label_view(r) == definition_label(*definition),
{
    match definition.inner {
        ast::Definition::Operation(ast::OperationDefinition::Query(q)) => {
            Some((q.name.clone(), q.variable_definitions.len(), q.directives.len()))
        },
        ast::Definition::Operation(ast::OperationDefinition::Mutation(m)) => {
            Some((m.name.clone(), m.variable_definitions.len(), m.directives.len()))
        },
        ast::Definition::Operation(ast::OperationDefinition::Subscription(s)) => {
            Some((s.name.clone(), s.variable_definitions.len(), s.directives.len()))
        },
        ast::Definition::Operation(ast::OperationDefinition::SelectionSet(_)) => None,
        ast::Definition::Fragment(_) => None,
    }
}

/// Hands out the entries of `SelectionSet::items` of a definition, one
/// handle each, in order. There is at least one: the parser accepts no
/// selection set without a selection.
#[verifier::external_body]
fn selections_of<'a>(definition: &ParsedDefinition<'a>) -> (r: Vec<ParsedSelection<'a>>)
    ensures
        r@ == definition_selections(*definition),
        r@.len() > 0,
{
    let set = match definition.inner {
        ast::Definition::Fragment(f) => &f.selection_set,
        ast::Definition::Operation(ast::OperationDefinition::SelectionSet(s)) => s,
        ast::Definition::Operation(ast::OperationDefinition::Query(q)) => &q.selection_set,
        ast::Definition::Operation(ast::OperationDefinition::Mutation(m)) => &m.selection_set,
        ast::Definition::Operation(ast::OperationDefinition::Subscription(s)) => &s.selection_set,
    };
    set.items.iter().map(|s| ParsedSelection { inner: s }).collect()
}

/// Reads one `Selection`: which variant it is and, for a field, its alias,
/// its name, and how many arguments, directives and nested selections it lists.
#[verifier::external_body]
fn source_of(selection: &ParsedSelection<'_>) -> (r: SourceSelection)
    ensures
        r@ == selection_source(*selection),
{
    match selection.inner {
        ast::Selection::Field(f) => SourceSelection::Field(SourceField {
            alias: f.alias.clone(),
            name: f.name.clone(),
            argument_count: f.arguments.len(),
            directive_count: f.directives.len(),
            selection_count: f.selection_set.items.len(),
        }),
        ast::Selection::FragmentSpread(_) => SourceSelection::FragmentSpread,
        ast::Selection::InlineFragment(_) => SourceSelection::InlineFragment,
    }
}

/// The selection set of a parsed definition as the converter reads it.
pub open spec fn selection_set_source(definition: ParsedDefinition<'static>) -> SourceSelectionSetView {
    SourceSelectionSetView {
        items: definition_selections(definition).map_values(
            |s: ParsedSelection<'static>| selection_source(s),
        ),
    }
}

/// A parsed definition as the converter reads it.
pub open spec fn definition_source(definition: ParsedDefinition<'static>) -> SourceDefinitionView {
    match definition_keyword(definition) {
        DefinitionKeyword::Fragment => SourceDefinitionView::Fragment,
        DefinitionKeyword::Shorthand => SourceDefinitionView::Operation(
            SourceOperationView::Shorthand { selection_set: selection_set_source(definition) },
        ),
        DefinitionKeyword::Operation(operation) => {
            let label = definition_label(definition)->Some_0;
            SourceDefinitionView::Operation(
                SourceOperationView::Explicit {
                    operation,
                    name: label.0,
                    variable_definition_count: label.1,
                    directive_count: label.2,
                    selection_set: selection_set_source(definition),
                },
            )
        },
    }
}

/// A parsed query as the converter reads it.
pub open spec fn document_source(query: ParsedQuery) -> SourceDocumentView {
    SourceDocumentView {
        definitions: query_definitions(query).map_values(
            |d: ParsedDefinition<'static>| definition_source(d),
        ),
    }
}

/// Reads the selection set of a definition, entry by entry.
fn read_selection_set(definition: &ParsedDefinition<'_>) -> (r: SourceSelectionSet)
    ensures
        r@ == selection_set_source(*definition),
        r@.items.len() > 0,
{
    let selections = selections_of(definition);
    let mut items: Vec<SourceSelection> = Vec::new();
    let n: usize = selections.len();
    let mut i: usize = 0;
    while i < n
        invariant
            n == selections@.len(),
            i <= n,
            items@.len() == i,
            forall|j: int| 0 <= j < i ==> (#[trigger] items@[j])@ == selection_source(selections@[j]),
        decreases n - i,
    {
        items.push(source_of(&selections[i]));
        i += 1;
    }
    let set = SourceSelectionSet { items };
    assert(set@.items =~= selection_set_source(*definition).items);
    set
}

/// Reads one definition: how it begins, then its selection set.
fn read_definition(definition: &ParsedDefinition<'_>) -> (r: SourceDefinition)
    ensures
        r@ == definition_source(*definition),
        has_selections(r@),
{
    match keyword_of(definition) {
        DefinitionKeyword::Fragment => SourceDefinition::Fragment,
        DefinitionKeyword::Shorthand => SourceDefinition::Operation(
            SourceOperation::Shorthand { selection_set: read_selection_set(definition) },
        ),
        DefinitionKeyword::Operation(operation) => match label_of(definition) {
            Some((name, variable_definition_count, directive_count)) => {
                SourceDefinition::Operation(
                    SourceOperation::Explicit {
                        operation,
                        name,
                        variable_definition_count,
                        directive_count,
                        selection_set: read_selection_set(definition),
                    },
                )
            },
            None => unreached(),
        },
    }
}

/// Reads a parsed query, definition by definition.
pub(crate) fn read_document(query: &ParsedQuery) -> (r: SourceDocument)
    ensures
        r@ == document_source(*query),
        is_filled(r@),
{
    let parsed = definitions_of(query);
    let mut definitions: Vec<SourceDefinition> = Vec::new();
    let n: usize = parsed.len();
    let mut i: usize = 0;
    while i < n
        invariant
            n == parsed@.len(),
            i <= n,
            definitions@.len() == i,
            forall|j: int|
                0 <= j < i ==> (#[trigger] definitions@[j])@ == definition_source(parsed@[j]),
            forall|j: int| 0 <= j < i ==> has_selections((#[trigger] definitions@[j])@),
        decreases n - i,
    {
        definitions.push(read_definition(&parsed[i]));
        i += 1;
    }
    let document = SourceDocument { definitions };
    assert(document@.definitions =~= document_source(*query).definitions);
    document
}

} // verus!
