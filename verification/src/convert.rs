//! The converter: from the query as written to the node tree.
//!
//! Conversion goes down the grammar one level at a time. At every level a
//! construct outside the supported subset stops the conversion: nothing is
//! skipped and nothing is replaced by a default. Where a query holds several
//! such constructs, the error names the one that comes first in the text.

use vstd::prelude::*;
use crate::error::UnsupportedConstruct;
use crate::node::{
    Definition, DefinitionView, Document, DocumentView, Field, FieldView, Name, NameView,
    OperationDefinition, OperationDefinitionView, OperationKind, Selection, SelectionSet,
    SelectionSetView, SelectionView,
};
use crate::source::{
    SourceDefinition, SourceDefinitionView, SourceDocument, SourceDocumentView, SourceField,
    SourceFieldView, SourceOperation, SourceOperationView, SourceSelection, SourceSelectionSet,
    SourceSelectionSetView, SourceSelectionView,
};

verus! {

/// A result with the value, if there is one, replaced by its view.
pub open spec fn outcome<T: View, E>(result: Result<T, E>) -> Result<T::V, E> {
    match result {
        Ok(value) => Ok(value@),
        Err(error) => Err(error),
    }
}

/// The node of a field. A field with arguments, directives or a nested
/// selection set has none; the error names what comes first in the text.
pub open spec fn field_node(field: SourceFieldView) -> Result<FieldView, UnsupportedConstruct> {
    if field.argument_count > 0 {
        Err(UnsupportedConstruct::Arguments)
    } else if field.directive_count > 0 {
        Err(UnsupportedConstruct::Directives)
    } else if field.selection_count > 0 {
        Err(UnsupportedConstruct::NestedSelectionSet)
    } else {
        Ok(FieldView { alias: field.alias, name: NameView { value: field.name } })
    }
}

/// The node of a selection. Only a field has one.
pub open spec fn selection_node(selection: SourceSelectionView) -> Result<
    SelectionView,
    UnsupportedConstruct,
> {
    match selection {
        SourceSelectionView::Field(field) => match field_node(field) {
            Ok(node) => Ok(SelectionView::Field(node)),
            Err(construct) => Err(construct),
        },
        SourceSelectionView::FragmentSpread => Err(UnsupportedConstruct::FragmentSpread),
        SourceSelectionView::InlineFragment => Err(UnsupportedConstruct::InlineFragment),
    }
}

/// Every selection of the list has a node.
pub open spec fn all_selected(items: Seq<SourceSelectionView>) -> bool {
    forall|i: int| 0 <= i < items.len() ==> selection_node(#[trigger] items[i]) is Ok
}

/// The selection at `i` has no node, and every selection before it has one.
pub open spec fn first_rejected_selection(items: Seq<SourceSelectionView>, i: int) -> bool {
    &&& 0 <= i < items.len()
    &&& selection_node(items[i]) is Err
    &&& forall|j: int| 0 <= j < i ==> selection_node(#[trigger] items[j]) is Ok
}

/// The node of a selection set: the nodes of its selections, in their order.
/// Where a selection has none, the error is that of the first such selection.
pub open spec fn selection_set_node(set: SourceSelectionSetView) -> Result<
    SelectionSetView,
    UnsupportedConstruct,
> {
    if all_selected(set.items) {
        Ok(
            SelectionSetView {
                selections: set.items.map_values(|s: SourceSelectionView| selection_node(s)->Ok_0),
            },
        )
    } else {
        let first = choose|i: int| first_rejected_selection(set.items, i);
        Err(selection_node(set.items[first])->Err_0)
    }
}

/// The node of an operation. The shorthand form is a query without a name.
/// The explicit form keeps its keyword and its name; variable definitions and
/// directives are rejected, in that order, before the selection set is read.
pub open spec fn operation_node(operation: SourceOperationView) -> Result<
    OperationDefinitionView,
    UnsupportedConstruct,
> {
    match operation {
        SourceOperationView::Shorthand { selection_set } => match selection_set_node(
            selection_set,
        ) {
            Ok(set) => Ok(
                OperationDefinitionView {
                    operation: OperationKind::Query,
                    name: None,
                    selection_set: set,
                },
            ),
            Err(construct) => Err(construct),
        },
        SourceOperationView::Explicit {
            operation,
            name,
            variable_definition_count,
            directive_count,
            selection_set,
        } => if variable_definition_count > 0 {
            Err(UnsupportedConstruct::VariableDefinitions)
        } else if directive_count > 0 {
            Err(UnsupportedConstruct::Directives)
        } else {
            match selection_set_node(selection_set) {
                Ok(set) => Ok(OperationDefinitionView { operation, name, selection_set: set }),
                Err(construct) => Err(construct),
            }
        },
    }
}

/// The node of a definition. Only an operation has one.
pub open spec fn definition_node(definition: SourceDefinitionView) -> Result<
    DefinitionView,
    UnsupportedConstruct,
> {
    match definition {
        SourceDefinitionView::Operation(operation) => match operation_node(operation) {
            Ok(node) => Ok(DefinitionView::Operation(node)),
            Err(construct) => Err(construct),
        },
        SourceDefinitionView::Fragment => Err(UnsupportedConstruct::FragmentDefinition),
    }
}

/// The node of the definition at `i` as part of a document: an operation
/// that is not the first definition is rejected before it is read.
pub open spec fn entry_node(definitions: Seq<SourceDefinitionView>, i: int) -> Result<
    DefinitionView,
    UnsupportedConstruct,
> {
    if i > 0 && definitions[i] is Operation {
        Err(UnsupportedConstruct::MultipleOperations)
    } else {
        definition_node(definitions[i])
    }
}

/// Every definition of the document has a node.
pub open spec fn all_defined(definitions: Seq<SourceDefinitionView>) -> bool {
    forall|i: int| 0 <= i < definitions.len() ==> (#[trigger] entry_node(definitions, i)) is Ok
}

/// The definition at `i` has no node, and every definition before it has one.
pub open spec fn first_rejected_definition(definitions: Seq<SourceDefinitionView>, i: int) -> bool {
    &&& 0 <= i < definitions.len()
    &&& entry_node(definitions, i) is Err
    &&& forall|j: int| 0 <= j < i ==> (#[trigger] entry_node(definitions, j)) is Ok
}

/// The node of a document: the nodes of its definitions, in their order.
/// Where a definition has none, the error is that of the first such definition.
pub open spec fn document_node(document: SourceDocumentView) -> Result<
    DocumentView,
    UnsupportedConstruct,
> {
    if all_defined(document.definitions) {
        Ok(
            DocumentView {
                definitions: Seq::new(
                    document.definitions.len(),
                    |i: int| entry_node(document.definitions, i)->Ok_0,
                ),
            },
        )
    } else {
        let first = choose|i: int| first_rejected_definition(document.definitions, i);
        Err(entry_node(document.definitions, first)->Err_0)
    }
}

/// Walks a query as written and builds its nodes.
#[derive(Debug, Clone, Copy)]
pub struct Visitor {}

impl Visitor {
    pub fn new() -> Visitor {
        Visitor {  }
    }

    /// The field step: alias and name are carried over as they are.
    pub fn visit_field(&self, field: &SourceField) -> (r: Result<Field, UnsupportedConstruct>)
        ensures
            outcome(r) == field_node(field@),
    {
        if field.argument_count > 0 {
            return Err(UnsupportedConstruct::Arguments);
        }
        if field.directive_count > 0 {
            return Err(UnsupportedConstruct::Directives);
        }
        if field.selection_count > 0 {
            return Err(UnsupportedConstruct::NestedSelectionSet);
        }
        let alias = match &field.alias {
            Some(a) => Some(a.clone()),
            None => None,
        };
        Ok(Field::new(alias, Name::new(field.name.clone())))
    }

    /// The selection step.
    pub fn visit_selection(&self, selection: &SourceSelection) -> (r: Result<
        Selection,
        UnsupportedConstruct,
    >)
        ensures
            outcome(r) == selection_node(selection@),
    {
        match selection {
            SourceSelection::Field(field) => match self.visit_field(field) {
                Ok(node) => Ok(Selection::Field(node)),
                Err(construct) => Err(construct),
            },
            SourceSelection::FragmentSpread => Err(UnsupportedConstruct::FragmentSpread),
            SourceSelection::InlineFragment => Err(UnsupportedConstruct::InlineFragment),
        }
    }

    /// The selection set step: every selection in turn, up to the first that is rejected.
    pub fn visit_selection_set(&self, set: &SourceSelectionSet) -> (r: Result<
        SelectionSet,
        UnsupportedConstruct,
    >)
        ensures
            outcome(r) == selection_set_node(set@),
    {
        let ghost items = set@.items;
        let mut selections: Vec<Selection> = Vec::new();
        let n: usize = set.items.len();
        let mut i: usize = 0;
        while i < n
            invariant
                items == set@.items,
                n == set.items.len(),
                i <= n,
                selections@.len() == i,
                forall|j: int|
                    0 <= j < i ==> selection_node(#[trigger] items[j]) == Ok::<
                        SelectionView,
                        UnsupportedConstruct,
                    >(selections@[j]@),
            decreases n - i,
        {
            match self.visit_selection(&set.items[i]) {
                Ok(node) => {
                    selections.push(node);
                },
                Err(construct) => {
                    proof {
                        assert(items[i as int] == set.items@[i as int]@);
                        assert(first_rejected_selection(items, i as int));
                        let first = choose|k: int| first_rejected_selection(items, k);
                        assert(first == i);
                    }
                    return Err(construct);
                },
            }
            i += 1;
        }
        let node = SelectionSet::new(selections);
        proof {
            assert(all_selected(items));
            assert(node@.selections =~= items.map_values(
                |s: SourceSelectionView| selection_node(s)->Ok_0,
            ));
        }
        Ok(node)
    }

    /// The operation step: both source forms become the one operation node.
    pub fn visit_operation(&self, operation: &SourceOperation) -> (r: Result<
        OperationDefinition,
        UnsupportedConstruct,
    >)
        ensures
            outcome(r) == operation_node(operation@),
    {
        match operation {
            SourceOperation::Shorthand { selection_set } => {
                match self.visit_selection_set(selection_set) {
                    Ok(set) => Ok(OperationDefinition::new(OperationKind::Query, None, set)),
                    Err(construct) => Err(construct),
                }
            },
            SourceOperation::Explicit {
                operation,
                name,
                variable_definition_count,
                directive_count,
                selection_set,
            } => {
                if *variable_definition_count > 0 {
                    return Err(UnsupportedConstruct::VariableDefinitions);
                }
                if *directive_count > 0 {
                    return Err(UnsupportedConstruct::Directives);
                }
                match self.visit_selection_set(selection_set) {
                    Ok(set) => {
                        let name = match name {
                            Some(n) => Some(n.clone()),
                            None => None,
                        };
                        Ok(OperationDefinition::new(*operation, name, set))
                    },
                    Err(construct) => Err(construct),
                }
            },
        }
    }

    /// The definition step.
    pub fn visit_definition(&self, definition: &SourceDefinition) -> (r: Result<
        Definition,
        UnsupportedConstruct,
    >)
        ensures
            outcome(r) == definition_node(definition@),
    {
        match definition {
            SourceDefinition::Operation(operation) => match self.visit_operation(operation) {
                Ok(node) => Ok(Definition::Operation(node)),
                Err(construct) => Err(construct),
            },
            SourceDefinition::Fragment => Err(UnsupportedConstruct::FragmentDefinition),
        }
    }

    /// The document step: every definition in turn, up to the first that is rejected.
    pub fn visit(&self, document: &SourceDocument) -> (r: Result<Document, UnsupportedConstruct>)
        ensures
            outcome(r) == document_node(document@),
    {
        let ghost entries = document@.definitions;
        let mut definitions: Vec<Definition> = Vec::new();
        let n: usize = document.definitions.len();
        let mut i: usize = 0;
        while i < n
            invariant
                entries == document@.definitions,
                n == document.definitions.len(),
                i <= n,
                definitions@.len() == i,
                forall|j: int|
                    0 <= j < i ==> (#[trigger] entry_node(entries, j)) == Ok::<
                        DefinitionView,
                        UnsupportedConstruct,
                    >(definitions@[j]@),
            decreases n - i,
        {
            let definition = &document.definitions[i];
            assert(entries[i as int] == definition@);
            let entry = match definition {
                SourceDefinition::Operation(_) if i > 0 => Err(
                    UnsupportedConstruct::MultipleOperations,
                ),
                _ => self.visit_definition(definition),
            };
            match entry {
                Ok(node) => {
                    definitions.push(node);
                },
                Err(construct) => {
                    proof {
                        assert(first_rejected_definition(entries, i as int));
                        let first = choose|k: int| first_rejected_definition(entries, k);
                        assert(first == i);
                    }
                    return Err(construct);
                },
            }
            i += 1;
        }
        let node = Document::new(definitions);
        proof {
            assert(all_defined(entries));
            assert(node@.definitions =~= Seq::new(
                entries.len(),
                |i: int| entry_node(entries, i)->Ok_0,
            ));
        }
        Ok(node)
    }
}

/// Converts a query as written into its document node, or names the first
/// construct in it that lies outside the supported subset.
pub fn convert(document: &SourceDocument) -> (r: Result<Document, UnsupportedConstruct>)
    ensures
        outcome(r) == document_node(document@),
{
    Visitor::new().visit(document)
}

/// A field that has a node keeps its alias, present or absent, and its name.
pub proof fn lemma_field_keeps_alias_and_name(field: SourceFieldView)
    requires
        field_node(field) is Ok,
    ensures
        field_node(field)->Ok_0.alias == field.alias,
        field_node(field)->Ok_0.name.value == field.name,
{
}

/// A selection set that has a node has one selection node for each selection
/// as written, in the same order.
pub proof fn lemma_selections_keep_order(set: SourceSelectionSetView)
    requires
        selection_set_node(set) is Ok,
    ensures
        selection_set_node(set)->Ok_0.selections.len() == set.items.len(),
        forall|i: int|
            0 <= i < set.items.len() ==> selection_node(#[trigger] set.items[i]) == Ok::<
                SelectionView,
                UnsupportedConstruct,
            >(selection_set_node(set)->Ok_0.selections[i]),
{
}

/// Where the selection at `k` is rejected, some selection up to `k` is the
/// first to be rejected.
pub proof fn lemma_some_selection_is_rejected_first(items: Seq<SourceSelectionView>, k: int)
    requires
        0 <= k < items.len(),
        selection_node(items[k]) is Err,
    ensures
        exists|i: int| first_rejected_selection(items, i),
    decreases k,
{
    if forall|j: int| 0 <= j < k ==> selection_node(#[trigger] items[j]) is Ok {
        assert(first_rejected_selection(items, k));
    } else {
        let j = choose|j: int| 0 <= j < k && !(selection_node(#[trigger] items[j]) is Ok);
        lemma_some_selection_is_rejected_first(items, j);
    }
}

/// A selection set has no node exactly if one of its selections has none,
/// and its error is then the error of the first such selection.
pub proof fn lemma_selection_set_error_is_the_first(set: SourceSelectionSetView)
    ensures
        selection_set_node(set) is Err <==> exists|i: int| first_rejected_selection(set.items, i),
        forall|i: int| #[trigger]
            first_rejected_selection(set.items, i) ==> selection_set_node(set) == Err::<
                SelectionSetView,
                UnsupportedConstruct,
            >(selection_node(set.items[i])->Err_0),
{
    if !all_selected(set.items) {
        let k = choose|k: int|
            0 <= k < set.items.len() && !(selection_node(#[trigger] set.items[k]) is Ok);
        lemma_some_selection_is_rejected_first(set.items, k);
    }
    let first = choose|i: int| first_rejected_selection(set.items, i);
    assert forall|i: int| #[trigger] first_rejected_selection(set.items, i) implies i == first by {
        assert(first_rejected_selection(set.items, first));
    }
}

/// The shorthand form and the explicit form with the keyword `query` convert
/// alike: both are rejected for the same construct, or both give a query
/// operation with the same selection set.
pub proof fn lemma_shorthand_is_a_query(set: SourceSelectionSetView, name: Option<Seq<char>>)
    ensures
        match (
            operation_node(SourceOperationView::Shorthand { selection_set: set }),
            operation_node(
                SourceOperationView::Explicit {
                    operation: OperationKind::Query,
                    name,
                    variable_definition_count: 0,
                    directive_count: 0,
                    selection_set: set,
                },
            ),
        ) {
            (Ok(shorthand), Ok(explicit)) => {
                &&& shorthand.operation == OperationKind::Query
                &&& explicit.operation == OperationKind::Query
                &&& shorthand.name is None
                &&& explicit.name == name
                &&& shorthand.selection_set == explicit.selection_set
            },
            (Err(left), Err(right)) => left == right,
            _ => false,
        },
{
}

/// A document that has a node holds at most one definition, and its node
/// holds the node of that definition.
pub proof fn lemma_document_holds_one_operation(document: SourceDocumentView)
    requires
        document_node(document) is Ok,
    ensures
        document.definitions.len() <= 1,
        document_node(document)->Ok_0.definitions.len() == document.definitions.len(),
        document.definitions.len() == 1 ==> definition_node(document.definitions[0]) == Ok::<
            DefinitionView,
            UnsupportedConstruct,
        >(document_node(document)->Ok_0.definitions[0]),
{
    let definitions = document.definitions;
    if definitions.len() > 1 {
        assert(entry_node(definitions, 1) is Ok);
        assert(entry_node(definitions, 0) is Ok);
    }
    if definitions.len() == 1 {
        assert(entry_node(definitions, 0) is Ok);
    }
}

/// Where the definition at `k` is rejected, some definition up to `k` is the
/// first to be rejected.
pub proof fn lemma_some_definition_is_rejected_first(
    definitions: Seq<SourceDefinitionView>,
    k: int,
)
    requires
        0 <= k < definitions.len(),
        entry_node(definitions, k) is Err,
    ensures
        exists|i: int| first_rejected_definition(definitions, i),
    decreases k,
{
    if forall|j: int| 0 <= j < k ==> (#[trigger] entry_node(definitions, j)) is Ok {
        assert(first_rejected_definition(definitions, k));
    } else {
        let j = choose|j: int| 0 <= j < k && !((#[trigger] entry_node(definitions, j)) is Ok);
        lemma_some_definition_is_rejected_first(definitions, j);
    }
}

/// A document has no node exactly if one of its definitions has none, and
/// its error is then the error of the first such definition.
pub proof fn lemma_document_error_is_the_first(document: SourceDocumentView)
    ensures
        document_node(document) is Err <==> exists|i: int|
            first_rejected_definition(document.definitions, i),
        forall|i: int| #[trigger]
            first_rejected_definition(document.definitions, i) ==> document_node(document)
                == Err::<DocumentView, UnsupportedConstruct>(
                entry_node(document.definitions, i)->Err_0,
            ),
{
    let definitions = document.definitions;
    if !all_defined(definitions) {
        let k = choose|k: int|
            0 <= k < definitions.len() && !((#[trigger] entry_node(definitions, k)) is Ok);
        lemma_some_definition_is_rejected_first(definitions, k);
    }
    let first = choose|i: int| first_rejected_definition(definitions, i);
    assert forall|i: int| #[trigger] first_rejected_definition(definitions, i) implies i
        == first by {
        assert(first_rejected_definition(definitions, first));
    }
}

} // verus!
