use hiku_rs::convert;
use hiku_rs::convert::Visitor;
use hiku_rs::error::UnsupportedConstruct;
use hiku_rs::node::{Definition, OperationKind, Selection};
use hiku_rs::source::{
    SourceDefinition, SourceDocument, SourceField, SourceOperation, SourceSelection,
    SourceSelectionSet,
};

fn plain(name: &str) -> SourceField {
    SourceField {
        alias: None,
        name: name.to_string(),
        argument_count: 0,
        directive_count: 0,
        selection_count: 0,
    }
}

fn set_of(items: Vec<SourceSelection>) -> SourceSelectionSet {
    SourceSelectionSet { items }
}

fn fields(names: &[&str]) -> SourceSelectionSet {
    set_of(names.iter().map(|name| SourceSelection::Field(plain(name))).collect())
}

fn shorthand(set: SourceSelectionSet) -> SourceDefinition {
    SourceDefinition::Operation(SourceOperation::Shorthand { selection_set: set })
}

fn explicit(
    operation: OperationKind,
    name: Option<&str>,
    variables: usize,
    directives: usize,
    set: SourceSelectionSet,
) -> SourceDefinition {
    SourceDefinition::Operation(SourceOperation::Explicit {
        operation,
        name: name.map(|n| n.to_string()),
        variable_definition_count: variables,
        directive_count: directives,
        selection_set: set,
    })
}

fn document(definitions: Vec<SourceDefinition>) -> SourceDocument {
    SourceDocument { definitions }
}

#[test]
fn convert_keeps_fields_in_order() {
    let converted = convert(&document(vec![shorthand(fields(&["a", "b", "c"]))])).unwrap();
    assert_eq!(converted.definitions().len(), 1);
    let Definition::Operation(operation) = &converted.definitions()[0];
    assert_eq!(operation.operation(), OperationKind::Query);
    assert_eq!(operation.name(), None);
    let names: Vec<&str> = operation
        .selection_set()
        .selections()
        .iter()
        .map(|selection| match selection {
            Selection::Field(field) => field.name().value(),
        })
        .collect();
    assert_eq!(names, vec!["a", "b", "c"]);
}

#[test]
fn convert_of_an_empty_document_is_an_empty_document() {
    let converted = convert(&document(vec![])).unwrap();
    assert!(converted.definitions().is_empty());
}

#[test]
fn convert_of_an_empty_selection_set_is_an_empty_selection_set() {
    let converted = convert(&document(vec![shorthand(set_of(vec![]))])).unwrap();
    let Definition::Operation(operation) = &converted.definitions()[0];
    assert!(operation.selection_set().selections().is_empty());
}

#[test]
fn convert_does_not_change_its_input() {
    let source = document(vec![explicit(
        OperationKind::Query,
        Some("Q"),
        0,
        0,
        fields(&["a", "b"]),
    )]);
    let before = source.clone();
    let first = convert(&source);
    let second = convert(&source);
    assert_eq!(source, before);
    assert_eq!(first, second);
}

#[test]
fn shorthand_converts_like_a_query_without_a_name() {
    let short = convert(&document(vec![shorthand(fields(&["a", "b"]))]));
    let long = convert(&document(vec![explicit(
        OperationKind::Query,
        None,
        0,
        0,
        fields(&["a", "b"]),
    )]));
    assert!(short.is_ok());
    assert_eq!(short, long);
}

#[test]
fn explicit_form_keeps_keyword_and_name() {
    let visitor = Visitor::new();
    for (kind, keyword) in [
        (OperationKind::Query, "query"),
        (OperationKind::Mutation, "mutation"),
        (OperationKind::Subscription, "subscription"),
    ] {
        let source = SourceOperation::Explicit {
            operation: kind,
            name: Some("Named".to_string()),
            variable_definition_count: 0,
            directive_count: 0,
            selection_set: fields(&["a"]),
        };
        let operation = visitor.visit_operation(&source).unwrap();
        assert_eq!(operation.operation(), kind);
        assert_eq!(operation.operation().as_str(), keyword);
        assert_eq!(operation.name(), Some("Named"));
        assert_eq!(operation.selection_set().selections().len(), 1);
    }
}

#[test]
fn field_step_carries_alias_and_name() {
    let visitor = Visitor::new();
    let aliased = SourceField { alias: Some("x".to_string()), ..plain("name") };
    let field = visitor.visit_field(&aliased).unwrap();
    assert_eq!(field.alias(), Some("x"));
    assert_eq!(field.name().value(), "name");

    let bare = visitor.visit_field(&plain("name")).unwrap();
    assert_eq!(bare.alias(), None);
    assert_eq!(bare.name().value(), "name");

    let empty_alias = SourceField { alias: Some(String::new()), ..plain("name") };
    assert_eq!(visitor.visit_field(&empty_alias).unwrap().alias(), Some(""));
}

#[test]
fn field_step_rejects_what_it_cannot_carry() {
    let visitor = Visitor::new();
    let with = |arguments: usize, directives: usize, selections: usize| SourceField {
        argument_count: arguments,
        directive_count: directives,
        selection_count: selections,
        ..plain("a")
    };
    assert_eq!(visitor.visit_field(&with(1, 0, 0)), Err(UnsupportedConstruct::Arguments));
    assert_eq!(visitor.visit_field(&with(0, 1, 0)), Err(UnsupportedConstruct::Directives));
    assert_eq!(
        visitor.visit_field(&with(0, 0, 1)),
        Err(UnsupportedConstruct::NestedSelectionSet)
    );
    assert_eq!(visitor.visit_field(&with(2, 3, 4)), Err(UnsupportedConstruct::Arguments));
    assert_eq!(visitor.visit_field(&with(0, 3, 4)), Err(UnsupportedConstruct::Directives));
    assert_eq!(
        visitor.visit_field(&with(usize::MAX, 0, 0)),
        Err(UnsupportedConstruct::Arguments)
    );
}

#[test]
fn selection_step_accepts_only_fields() {
    let visitor = Visitor::new();
    assert!(visitor.visit_selection(&SourceSelection::Field(plain("a"))).is_ok());
    assert_eq!(
        visitor.visit_selection(&SourceSelection::FragmentSpread),
        Err(UnsupportedConstruct::FragmentSpread)
    );
    assert_eq!(
        visitor.visit_selection(&SourceSelection::InlineFragment),
        Err(UnsupportedConstruct::InlineFragment)
    );
}

#[test]
fn selection_set_step_reports_the_first_rejection() {
    let visitor = Visitor::new();
    let set = set_of(vec![
        SourceSelection::Field(plain("a")),
        SourceSelection::InlineFragment,
        SourceSelection::FragmentSpread,
    ]);
    assert_eq!(visitor.visit_selection_set(&set), Err(UnsupportedConstruct::InlineFragment));
    let set = set_of(vec![
        SourceSelection::FragmentSpread,
        SourceSelection::InlineFragment,
        SourceSelection::Field(plain("a")),
    ]);
    assert_eq!(visitor.visit_selection_set(&set), Err(UnsupportedConstruct::FragmentSpread));
}

#[test]
fn operation_step_rejects_variables_then_directives_then_selections() {
    let visitor = Visitor::new();
    let operation = |variables: usize, directives: usize, set: SourceSelectionSet| {
        SourceOperation::Explicit {
            operation: OperationKind::Mutation,
            name: None,
            variable_definition_count: variables,
            directive_count: directives,
            selection_set: set,
        }
    };
    let spread = || set_of(vec![SourceSelection::FragmentSpread]);
    assert_eq!(
        visitor.visit_operation(&operation(1, 1, spread())),
        Err(UnsupportedConstruct::VariableDefinitions)
    );
    assert_eq!(
        visitor.visit_operation(&operation(0, 1, spread())),
        Err(UnsupportedConstruct::Directives)
    );
    assert_eq!(
        visitor.visit_operation(&operation(0, 0, spread())),
        Err(UnsupportedConstruct::FragmentSpread)
    );
    assert!(visitor.visit_operation(&operation(0, 0, fields(&["a"]))).is_ok());
}

#[test]
fn definition_step_rejects_fragments() {
    let visitor = Visitor::new();
    assert_eq!(
        visitor.visit_definition(&SourceDefinition::Fragment),
        Err(UnsupportedConstruct::FragmentDefinition)
    );
    assert!(visitor.visit_definition(&shorthand(fields(&["a"]))).is_ok());
    assert_eq!(
        visitor.visit_definition(&shorthand(set_of(vec![SourceSelection::FragmentSpread]))),
        Err(UnsupportedConstruct::FragmentSpread)
    );
}

#[test]
fn document_step_accepts_one_operation_only() {
    let one = || shorthand(fields(&["a"]));
    let bad = || shorthand(set_of(vec![SourceSelection::FragmentSpread]));
    assert!(convert(&document(vec![one()])).is_ok());
    assert_eq!(
        convert(&document(vec![one(), one()])),
        Err(UnsupportedConstruct::MultipleOperations)
    );
    assert_eq!(
        convert(&document(vec![one(), bad()])),
        Err(UnsupportedConstruct::MultipleOperations)
    );
    assert_eq!(
        convert(&document(vec![bad(), one()])),
        Err(UnsupportedConstruct::FragmentSpread)
    );
    assert_eq!(
        convert(&document(vec![one(), SourceDefinition::Fragment])),
        Err(UnsupportedConstruct::FragmentDefinition)
    );
    assert_eq!(
        convert(&document(vec![SourceDefinition::Fragment, one(), one()])),
        Err(UnsupportedConstruct::FragmentDefinition)
    );
    assert_eq!(
        convert(&document(vec![SourceDefinition::Fragment])),
        Err(UnsupportedConstruct::FragmentDefinition)
    );
}

#[test]
fn visit_and_convert_agree() {
    let source = document(vec![explicit(
        OperationKind::Subscription,
        Some("S"),
        0,
        0,
        fields(&["tick"]),
    )]);
    assert_eq!(Visitor::new().visit(&source), convert(&source));
}
