//! The parsed query as the converter reads it.
//!
//! These types hold, as plain values, what the converter looks at in the tree
//! that the grammar produces: the shape of every definition and selection,
//! the names and aliases, and how many arguments, directives, variable
//! definitions and nested selections stand where the converter accepts none.

use vstd::prelude::*;
use crate::node::OperationKind;

verus! {

/// The text of an optional string.
pub open spec fn optional_text(text: Option<String>) -> Option<Seq<char>> {
    match text {
        Some(t) => Some(t@),
        None => None,
    }
}

/// A field as written: `alias: name(arguments) @directives { selections }`.
#[derive(Debug, Clone, PartialEq, Eq)]
pub struct SourceField {
    pub alias: Option<String>,
    pub name: String,
    /// How many arguments the field passes.
    pub argument_count: usize,
    /// How many directives the field carries.
    pub directive_count: usize,
    /// How many selections its nested selection set lists; 0 when it has none.
    pub selection_count: usize,
}

pub struct SourceFieldView {
    pub alias: Option<Seq<char>>,
    pub name: Seq<char>,
    pub argument_count: nat,
    pub directive_count: nat,
    pub selection_count: nat,
}

impl View for SourceField {
    type V = SourceFieldView;

    open spec fn view(&self) -> SourceFieldView {
        SourceFieldView {
            alias: optional_text(self.alias),
            name: self.name@,
            argument_count: self.argument_count as nat,
            directive_count: self.directive_count as nat,
            selection_count: self.selection_count as nat,
        }
    }
}

/// One entry of a selection set as written.
#[derive(Debug, Clone, PartialEq, Eq)]
pub enum SourceSelection {
    Field(SourceField),
    FragmentSpread,
    InlineFragment,
}

pub enum SourceSelectionView {
    Field(SourceFieldView),
    FragmentSpread,
    InlineFragment,
}

impl View for SourceSelection {
    type V = SourceSelectionView;

    open spec fn view(&self) -> SourceSelectionView {
        match self {
            SourceSelection::Field(f) => SourceSelectionView::Field(f@),
            SourceSelection::FragmentSpread => SourceSelectionView::FragmentSpread,
            SourceSelection::InlineFragment => SourceSelectionView::InlineFragment,
        }
    }
}

/// A `{ .. }` block as written: its entries in source order.
#[derive(Debug, Clone, PartialEq, Eq)]
pub struct SourceSelectionSet {
    pub items: Vec<SourceSelection>,
}

pub struct SourceSelectionSetView {
    pub items: Seq<SourceSelectionView>,
}

impl View for SourceSelectionSet {
    type V = SourceSelectionSetView;

    open spec fn view(&self) -> SourceSelectionSetView {
        SourceSelectionSetView { items: self.items@.map_values(|s: SourceSelection| s@) }
    }
}

/// An operation as written: either a bare selection set, or a keyword with
/// an optional name, variable definitions, directives and a selection set.
#[derive(Debug, Clone, PartialEq, Eq)]
pub enum SourceOperation {
    Shorthand { selection_set: SourceSelectionSet },
    Explicit {
        operation: OperationKind,
        name: Option<String>,
        /// How many variables the operation defines.
        variable_definition_count: usize,
        /// How many directives the operation carries.
        directive_count: usize,
        selection_set: SourceSelectionSet,
    },
}

pub enum SourceOperationView {
    Shorthand { selection_set: SourceSelectionSetView },
    Explicit {
        operation: OperationKind,
        name: Option<Seq<char>>,
        variable_definition_count: nat,
        directive_count: nat,
        selection_set: SourceSelectionSetView,
    },
}

impl View for SourceOperation {
    type V = SourceOperationView;

    open spec fn view(&self) -> SourceOperationView {
        match self {
            SourceOperation::Shorthand { selection_set } => SourceOperationView::Shorthand {
                selection_set: selection_set@,
            },
            SourceOperation::Explicit {
                operation,
                name,
                variable_definition_count,
                directive_count,
                selection_set,
            } => SourceOperationView::Explicit {
                operation: *operation,
                name: optional_text(*name),
                variable_definition_count: *variable_definition_count as nat,
                directive_count: *directive_count as nat,
                selection_set: selection_set@,
            },
        }
    }
}

/// The selection set of an operation, whichever form it has.
pub open spec fn selection_set_of(operation: SourceOperationView) -> SourceSelectionSetView {
    match operation {
        SourceOperationView::Shorthand { selection_set } => selection_set,
        SourceOperationView::Explicit { selection_set, .. } => selection_set,
    }
}

/// One top-level entry of a query as written.
#[derive(Debug, Clone, PartialEq, Eq)]
pub enum SourceDefinition {
    Operation(SourceOperation),
    Fragment,
}

pub enum SourceDefinitionView {
    Operation(SourceOperationView),
    Fragment,
}

impl View for SourceDefinition {
    type V = SourceDefinitionView;

    open spec fn view(&self) -> SourceDefinitionView {
        match self {
            SourceDefinition::Operation(op) => SourceDefinitionView::Operation(op@),
            SourceDefinition::Fragment => SourceDefinitionView::Fragment,
        }
    }
}

/// A definition that is an operation lists at least one selection.
pub open spec fn has_selections(definition: SourceDefinitionView) -> bool {
    definition matches SourceDefinitionView::Operation(operation) ==> selection_set_of(
        operation,
    ).items.len() > 0
}

/// A whole query as written: its definitions in source order.
#[derive(Debug, Clone, PartialEq, Eq)]
pub struct SourceDocument {
    pub definitions: Vec<SourceDefinition>,
}

pub struct SourceDocumentView {
    pub definitions: Seq<SourceDefinitionView>,
}

impl View for SourceDocument {
    type V = SourceDocumentView;

    open spec fn view(&self) -> SourceDocumentView {
        SourceDocumentView { definitions: self.definitions@.map_values(|d: SourceDefinition| d@) }
    }
}

/// A document as the grammar gives it: it holds a definition, and every
/// operation in it lists a selection.
pub open spec fn is_filled(document: SourceDocumentView) -> bool {
    &&& document.definitions.len() > 0
    &&& forall|i: int|
        0 <= i < document.definitions.len() ==> has_selections(#[trigger] document.definitions[i])
}

} // verus!
