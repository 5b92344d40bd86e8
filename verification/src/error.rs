//! The two ways in which parsing a query can fail.

use vstd::prelude::*;

verus! {

/// A construct that the grammar accepts and the converter does not carry over.
#[derive(Debug, Clone, Copy, PartialEq, Eq, Structural)]
pub enum UnsupportedConstruct {
    /// A `fragment Name on Type { .. }` definition.
    FragmentDefinition,
    /// An operation that follows another operation in the same document.
    MultipleOperations,
    /// Variable definitions on an operation.
    VariableDefinitions,
    /// Directives, on an operation or on a field.
    Directives,
    /// Arguments on a field.
    Arguments,
    /// A selection set nested inside a field.
    NestedSelectionSet,
    /// A `...Name` fragment spread.
    FragmentSpread,
    /// A `... on Type { .. }` inline fragment.
    InlineFragment,
}

impl UnsupportedConstruct {
    /// The name of the construct as text, for messages.
    pub fn as_str(&self) -> (r: &'static str)
        ensures
            r@ == self.name(),
    {
        match self {
            UnsupportedConstruct::FragmentDefinition => "fragment_definition",
            UnsupportedConstruct::MultipleOperations => "multiple_operations",
            UnsupportedConstruct::VariableDefinitions => "variable_definitions",
            UnsupportedConstruct::Directives => "directives",
            UnsupportedConstruct::Arguments => "arguments",
            UnsupportedConstruct::NestedSelectionSet => "nested_selection_set",
            UnsupportedConstruct::FragmentSpread => "fragment_spread",
            UnsupportedConstruct::InlineFragment => "inline_fragment",
        }
    }

    /// The name of each construct.
    pub open spec fn name(&self) -> Seq<char> {
        match self {
            UnsupportedConstruct::FragmentDefinition => "fragment_definition"@,
            UnsupportedConstruct::MultipleOperations => "multiple_operations"@,
            UnsupportedConstruct::VariableDefinitions => "variable_definitions"@,
            UnsupportedConstruct::Directives => "directives"@,
            UnsupportedConstruct::Arguments => "arguments"@,
            UnsupportedConstruct::NestedSelectionSet => "nested_selection_set"@,
            UnsupportedConstruct::FragmentSpread => "fragment_spread"@,
            UnsupportedConstruct::InlineFragment => "inline_fragment"@,
        }
    }
}

/// Why `parse` returned no document.
#[derive(Debug, Clone, Copy, PartialEq, Eq, Structural)]
pub enum QueryError {
    /// The grammar rejects the text.
    SyntaxError,
    /// The text is well formed, and holds a construct outside the supported subset.
    UnsupportedConstructError(UnsupportedConstruct),
}

} // verus!
