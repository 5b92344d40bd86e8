//! The entry point: from query text to the node tree.

use vstd::prelude::*;
use crate::convert::{
    all_defined, all_selected, convert, document_node, entry_node,
    lemma_document_holds_one_operation, lemma_selections_keep_order, operation_node, outcome,
    selection_node, selection_set_node,
};
use crate::error::QueryError;
use crate::node::{DefinitionView, Document, DocumentView, OperationKind};
use crate::parsed::{document_source, parse_text, parsed_query, read_document};
use crate::source::{
    has_selections, is_filled, selection_set_of, SourceDefinitionView, SourceDocument, SourceDocumentView,
    SourceOperationView, SourceSelectionSetView, SourceSelectionView,
};
use crate::text::{admitted, grammar_text, is_admitted, lemma_respelled_is_narrow, respell};

verus! {

/// The query that a text holds, as the converter reads it: what the
/// grammar makes of the text in the spelling that it is handed. A text that
/// the grammar rejects is a syntax error.
pub open spec fn source_outcome(text: Seq<char>) -> Result<SourceDocumentView, QueryError> {
    match parsed_query(grammar_text(text)) {
        Ok(query) => Ok(document_source(query)),
        Err(_) => Err(QueryError::SyntaxError),
    }
}

/// The document of a text: the node of the query that the text holds.
pub open spec fn parse_outcome(text: Seq<char>) -> Result<DocumentView, QueryError> {
    match source_outcome(text) {
        Ok(source) => match document_node(source) {
            Ok(document) => Ok(document),
            Err(construct) => Err(QueryError::UnsupportedConstructError(construct)),
        },
        Err(error) => Err(error),
    }
}

/// Parses a text with the grammar and reads the result. No node is built.
/// What comes back holds at least one definition, and at least one
/// selection in every operation.
pub fn parse_source(query: &str) -> (r: Result<SourceDocument, QueryError>)
    ensures
        outcome(r) == source_outcome(query@),
        r matches Ok(source) ==> is_filled(source@),
{
    proof {
        lemma_respelled_is_narrow(query@);
    }
    let parsed = if is_admitted(query) {
        parse_text(query)
    } else {
        let spelling = respell(query);
        parse_text(spelling.as_str())
    };
    match parsed {
        Ok(parsed) => Ok(read_document(&parsed)),
        Err(_) => Err(QueryError::SyntaxError),
    }
}

/// Parses a query and converts it. The caller gets the whole document or an
/// error, never a part of a tree. A document that comes back holds exactly
/// one operation, and that operation at least one field.
pub fn parse(query: String) -> (r: Result<Document, QueryError>)
    ensures
        outcome(r) == parse_outcome(query@),
        r matches Ok(document) ==> {
            &&& document@.definitions.len() == 1
            &&& document@.definitions[0] matches DefinitionView::Operation(operation)
            &&& operation.selection_set.selections.len() > 0
        },
{
    match parse_source(query.as_str()) {
        Ok(source) => match convert(&source) {
            Ok(document) => {
                proof {
                    lemma_document_holds_one_operation(source@);
                    let operation = source@.definitions[0]->Operation_0;
                    assert(has_selections(source@.definitions[0]));
                    lemma_selections_keep_order(selection_set_of(operation));
                }
                Ok(document)
            },
            Err(construct) => Err(QueryError::UnsupportedConstructError(construct)),
        },
        Err(error) => Err(error),
    }
}

/// The grammar alone decides on syntax: a text is a syntax error exactly if
/// the grammar rejects it in the spelling that it is handed, and that
/// spelling is the text itself wherever the text is admitted.
pub proof fn lemma_syntax_error_is_the_grammars(text: Seq<char>)
    ensures
        parse_outcome(text) == Err::<DocumentView, QueryError>(QueryError::SyntaxError)
            <==> parsed_query(grammar_text(text)) is Err,
        admitted(text) ==> grammar_text(text) == text,
{
}

/// A selection that is a field and nothing more: no arguments, no
/// directives, no selections of its own.
pub open spec fn is_plain_field(selection: SourceSelectionView) -> bool {
    &&& selection matches SourceSelectionView::Field(field)
    &&& field.argument_count == 0
    &&& field.directive_count == 0
    &&& field.selection_count == 0
}

/// A selection set made of plain fields.
pub open spec fn is_plain_selection_set(set: SourceSelectionSetView) -> bool {
    forall|i: int| 0 <= i < set.items.len() ==> is_plain_field(#[trigger] set.items[i])
}

/// A query operation, in either form, without variable definitions or
/// directives, whose selections are plain fields.
pub open spec fn is_plain_query(operation: SourceOperationView) -> bool {
    match operation {
        SourceOperationView::Shorthand { selection_set } => is_plain_selection_set(selection_set),
        SourceOperationView::Explicit {
            operation,
            name,
            variable_definition_count,
            directive_count,
            selection_set,
        } => {
            &&& operation == OperationKind::Query
            &&& variable_definition_count == 0
            &&& directive_count == 0
            &&& is_plain_selection_set(selection_set)
        },
    }
}

/// A document that holds one plain query and nothing else.
pub open spec fn is_single_plain_query(document: SourceDocumentView) -> bool {
    &&& document.definitions.len() == 1
    &&& document.definitions[0] matches SourceDefinitionView::Operation(operation)
    &&& is_plain_query(operation)
}

/// A text in which the grammar finds one plain query and nothing else
/// parses to a document with exactly one definition, and that definition is
/// a query operation with one field for each selection of the text.
pub proof fn lemma_single_plain_query_parses(text: Seq<char>)
    requires
        source_outcome(text) is Ok,
        is_single_plain_query(source_outcome(text)->Ok_0),
    ensures
        parse_outcome(text) is Ok,
        parse_outcome(text)->Ok_0.definitions.len() == 1,
        parse_outcome(text)->Ok_0.definitions[0] matches DefinitionView::Operation(operation)
            && operation.operation == OperationKind::Query
            && operation.selection_set.selections.len() == selection_set_of(
            source_outcome(text)->Ok_0.definitions[0]->Operation_0,
        ).items.len(),
{
    let source = source_outcome(text)->Ok_0;
    let operation = source.definitions[0]->Operation_0;
    let set = selection_set_of(operation);
    assert(is_plain_selection_set(set));
    assert forall|i: int| 0 <= i < set.items.len() implies selection_node(
        #[trigger] set.items[i],
    ) is Ok by {
        assert(is_plain_field(set.items[i]));
    }
    assert(all_selected(set.items));
    assert(selection_set_node(set) is Ok);
    assert(operation_node(operation) is Ok);
    assert(entry_node(source.definitions, 0) is Ok);
    assert(all_defined(source.definitions));
}

} // verus!
