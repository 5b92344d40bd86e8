//! The node tree that a converted query consists of.
//!
//! There are five kinds of node: document, operation definition, selection
//! set, field and name. A node is built once, by the converter, and is read
//! through its accessors from then on.

use vstd::prelude::*;

verus! {

/// The discriminant of a node.
#[derive(Debug, Clone, Copy, PartialEq, Eq, Structural)]
pub enum NodeKind {
    Document,
    OperationDefinition,
    SelectionSet,
    Field,
    Name,
}

impl NodeKind {
    /// The tag as the text by which consumers dispatch.
    pub open spec fn tag(&self) -> Seq<char> {
        match self {
            NodeKind::Document => "document"@,
            NodeKind::OperationDefinition => "operation_definition"@,
            NodeKind::SelectionSet => "selection_set"@,
            NodeKind::Field => "field"@,
            NodeKind::Name => "name"@,
        }
    }

    pub fn as_str(&self) -> (r: &'static str)
        ensures
            r@ == self.tag(),
    {
        match self {
            NodeKind::Document => "document",
            NodeKind::OperationDefinition => "operation_definition",
            NodeKind::SelectionSet => "selection_set",
            NodeKind::Field => "field",
            NodeKind::Name => "name",
        }
    }
}

/// What an operation does: read, write, or subscribe.
#[derive(Debug, Clone, Copy, PartialEq, Eq, Structural)]
pub enum OperationKind {
    Query,
    Mutation,
    Subscription,
}

impl OperationKind {
    /// The keyword that introduces an operation of this kind.
    pub open spec fn keyword(&self) -> Seq<char> {
        match self {
            OperationKind::Query => "query"@,
            OperationKind::Mutation => "mutation"@,
            OperationKind::Subscription => "subscription"@,
        }
    }

    pub fn as_str(&self) -> (r: &'static str)
        ensures
            r@ == self.keyword(),
    {
        match self {
            OperationKind::Query => "query",
            OperationKind::Mutation => "mutation",
            OperationKind::Subscription => "subscription",
        }
    }
}

/// A name: the leaf of the tree.
#[derive(Debug, Clone, PartialEq, Eq)]
pub struct Name {
    value: String,
}

/// What a name node holds.
pub struct NameView {
    pub value: Seq<char>,
}

impl View for Name {
    type V = NameView;

    closed spec fn view(&self) -> NameView {
        NameView { value: self.value@ }
    }
}

impl Name {
    pub fn new(value: String) -> (r: Name)
        ensures
            r@ == (NameView { value: value@ }),
    {
        Name { value }
    }

    pub fn kind(&self) -> (r: NodeKind)
        ensures
            r == NodeKind::Name,
    {
        NodeKind::Name
    }

    pub fn value(&self) -> (r: &str)
        ensures
            r@ == self@.value,
    {
        self.value.as_str()
    }
}

/// A field selection: a name, and the alias under which the caller asked for it.
///
/// Directives, arguments and a nested selection set are outside the supported
/// subset. A field therefore stores none of them, and the accessors for them
/// return an empty list or nothing.
#[derive(Debug, Clone, PartialEq, Eq)]
pub struct Field {
    alias: Option<String>,
    name: Name,
}

/// What a field node holds.
pub struct FieldView {
    pub alias: Option<Seq<char>>,
    pub name: NameView,
}

impl View for Field {
    type V = FieldView;

    closed spec fn view(&self) -> FieldView {
        FieldView {
            alias: match self.alias {
                Some(a) => Some(a@),
                None => None,
            },
            name: self.name@,
        }
    }
}

impl Field {
    pub fn new(alias: Option<String>, name: Name) -> (r: Field)
        ensures
            r@.name == name@,
            match alias {
                Some(a) => r@.alias == Some(a@),
                None => r@.alias is None,
            },
    {
        Field { alias, name }
    }

    pub fn kind(&self) -> (r: NodeKind)
        ensures
            r == NodeKind::Field,
    {
        NodeKind::Field
    }

    /// The alias, present exactly when the query text gave one.
    pub fn alias(&self) -> (r: Option<&str>)
        ensures
            match r {
                Some(a) => self@.alias == Some(a@),
                None => self@.alias is None,
            },
    {
        match &self.alias {
            Some(a) => Some(a.as_str()),
            None => None,
        }
    }

    pub fn name(&self) -> (r: &Name)
        ensures
            r@ == self@.name,
    {
        &self.name
    }

    /// Always empty.
    pub fn directives(&self) -> (r: Vec<Node>)
        ensures
            r@.len() == 0,
    {
        Vec::new()
    }

    /// Always empty.
    pub fn arguments(&self) -> (r: Vec<Node>)
        ensures
            r@.len() == 0,
    {
        Vec::new()
    }

    /// Always absent.
    pub fn selection_set(&self) -> (r: Option<SelectionSet>)
        ensures
            r is None,
    {
        None
    }
}

/// One entry of a selection set. A field is the only supported selection.
#[derive(Debug, Clone, PartialEq, Eq)]
pub enum Selection {
    Field(Field),
}

/// What a selection holds.
pub enum SelectionView {
    Field(FieldView),
}

impl View for Selection {
    type V = SelectionView;

    open spec fn view(&self) -> SelectionView {
        match self {
            Selection::Field(f) => SelectionView::Field(f@),
        }
    }
}

/// The views of a list of selections, in the order of the list.
pub open spec fn selection_views(selections: Seq<Selection>) -> Seq<SelectionView> {
    selections.map_values(|s: Selection| s@)
}

/// The `{ .. }` block of an operation: its selections in source order.
#[derive(Debug, Clone, PartialEq, Eq)]
pub struct SelectionSet {
    selections: Vec<Selection>,
}

/// What a selection set node holds.
pub struct SelectionSetView {
    pub selections: Seq<SelectionView>,
}

impl View for SelectionSet {
    type V = SelectionSetView;

    closed spec fn view(&self) -> SelectionSetView {
        SelectionSetView { selections: selection_views(self.selections@) }
    }
}

impl SelectionSet {
    pub fn new(selections: Vec<Selection>) -> (r: SelectionSet)
        ensures
            r@.selections == selection_views(selections@),
    {
        SelectionSet { selections }
    }

    pub fn kind(&self) -> (r: NodeKind)
        ensures
            r == NodeKind::SelectionSet,
    {
        NodeKind::SelectionSet
    }

    pub fn selections(&self) -> (r: &Vec<Selection>)
        ensures
            selection_views(r@) == self@.selections,
    {
        &self.selections
    }
}

/// An operation. The shorthand form `{ .. }` and the explicit form
/// `query Name { .. }` of the query language both end up as this one shape.
#[derive(Debug, Clone, PartialEq, Eq)]
pub struct OperationDefinition {
    operation: OperationKind,
    name: Option<String>,
    selection_set: SelectionSet,
}

/// What an operation definition node holds.
pub struct OperationDefinitionView {
    pub operation: OperationKind,
    pub name: Option<Seq<char>>,
    pub selection_set: SelectionSetView,
}

impl View for OperationDefinition {
    type V = OperationDefinitionView;

    closed spec fn view(&self) -> OperationDefinitionView {
        OperationDefinitionView {
            operation: self.operation,
            name: match self.name {
                Some(n) => Some(n@),
                None => None,
            },
            selection_set: self.selection_set@,
        }
    }
}

impl OperationDefinition {
    pub fn new(operation: OperationKind, name: Option<String>, selection_set: SelectionSet) -> (r:
        OperationDefinition)
        ensures
            r@.operation == operation,
            r@.selection_set == selection_set@,
            match name {
                Some(n) => r@.name == Some(n@),
                None => r@.name is None,
            },
    {
        OperationDefinition { operation, name, selection_set }
    }

    pub fn kind(&self) -> (r: NodeKind)
        ensures
            r == NodeKind::OperationDefinition,
    {
        NodeKind::OperationDefinition
    }

    pub fn operation(&self) -> (r: OperationKind)
        ensures
            r == self@.operation,
    {
        self.operation
    }

    /// The name of the operation, present exactly when the query text gave one.
    pub fn name(&self) -> (r: Option<&str>)
        ensures
            match r {
                Some(n) => self@.name == Some(n@),
                None => self@.name is None,
            },
    {
        match &self.name {
            Some(n) => Some(n.as_str()),
            None => None,
        }
    }

    pub fn selection_set(&self) -> (r: &SelectionSet)
        ensures
            r@ == self@.selection_set,
    {
        &self.selection_set
    }

    /// Always empty.
    pub fn variable_definitions(&self) -> (r: Vec<Node>)
        ensures
            r@.len() == 0,
    {
        Vec::new()
    }
}

/// One top-level entry of a document. An operation is the only supported definition.
#[derive(Debug, Clone, PartialEq, Eq)]
pub enum Definition {
    Operation(OperationDefinition),
}

/// What a definition holds.
pub enum DefinitionView {
    Operation(OperationDefinitionView),
}

impl View for Definition {
    type V = DefinitionView;

    open spec fn view(&self) -> DefinitionView {
        match self {
            Definition::Operation(op) => DefinitionView::Operation(op@),
        }
    }
}

/// The views of a list of definitions, in the order of the list.
pub open spec fn definition_views(definitions: Seq<Definition>) -> Seq<DefinitionView> {
    definitions.map_values(|d: Definition| d@)
}

/// The root of the tree: the definitions of a query in source order.
#[derive(Debug, Clone, PartialEq, Eq)]
pub struct Document {
    definitions: Vec<Definition>,
}

/// What a document node holds.
pub struct DocumentView {
    pub definitions: Seq<DefinitionView>,
}

impl View for Document {
    type V = DocumentView;

    closed spec fn view(&self) -> DocumentView {
        DocumentView { definitions: definition_views(self.definitions@) }
    }
}

impl Document {
    pub fn new(definitions: Vec<Definition>) -> (r: Document)
        ensures
            r@.definitions == definition_views(definitions@),
    {
        Document { definitions }
    }

    pub fn kind(&self) -> (r: NodeKind)
        ensures
            r == NodeKind::Document,
    {
        NodeKind::Document
    }

    pub fn definitions(&self) -> (r: &Vec<Definition>)
        ensures
            definition_views(r@) == self@.definitions,
    {
        &self.definitions
    }
}

/// Any node: the closed union of the five kinds.
#[derive(Debug, Clone, PartialEq, Eq)]
pub enum Node {
    Document(Document),
    OperationDefinition(OperationDefinition),
    SelectionSet(SelectionSet),
    Field(Field),
    Name(Name),
}

impl Node {
    pub fn kind(&self) -> (r: NodeKind)
        ensures
            r == match self {
                Node::Document(_) => NodeKind::Document,
                Node::OperationDefinition(_) => NodeKind::OperationDefinition,
                Node::SelectionSet(_) => NodeKind::SelectionSet,
                Node::Field(_) => NodeKind::Field,
                Node::Name(_) => NodeKind::Name,
            },
    {
        match self {
            Node::Document(n) => n.kind(),
            Node::OperationDefinition(n) => n.kind(),
            Node::SelectionSet(n) => n.kind(),
            Node::Field(n) => n.kind(),
            Node::Name(n) => n.kind(),
        }
    }
}

} // verus!
