use dynamo_es::attribute::{Attribute, Item};
use dynamo_es::error::DynamoAggregateError;
use dynamo_es::transaction::{
    commit_transactions, Condition, ConditionalPut, MAX_TRANSACTION_ITEMS,
};

fn put(number: usize) -> ConditionalPut {
    let mut item = Item::new();
    item.insert("Number", Attribute::N(number.to_string()));
    ConditionalPut {
        table_name: "Events".to_string(),
        item,
        condition: Condition::AttributeNotExists { attribute: "Number".to_string() },
    }
}

fn puts(count: usize) -> Vec<ConditionalPut> {
    (0..count).map(put).collect()
}

#[test]
fn a_transaction_carries_at_most_25_operations() {
    assert_eq!(MAX_TRANSACTION_ITEMS, 25);
}

#[test]
fn a_list_of_26_operations_is_refused_with_its_length() {
    assert_eq!(commit_transactions(puts(26)), Err(DynamoAggregateError::TransactionListTooLong(26)));
    assert_eq!(
        commit_transactions(puts(100)),
        Err(DynamoAggregateError::TransactionListTooLong(100))
    );
}

#[test]
fn a_list_of_up_to_25_operations_is_admitted_as_it_is() {
    for count in [0usize, 1, 2, 24, 25] {
        let transaction = commit_transactions(puts(count)).unwrap();
        assert_eq!(transaction.operations(), &puts(count));
        assert_eq!(transaction.into_operations(), puts(count));
    }
}

#[test]
fn a_condition_on_absence_is_written_with_inner_spaces() {
    let condition = Condition::AttributeNotExists { attribute: "AggregateIdSequence".to_string() };
    assert_eq!(condition.expression(), "attribute_not_exists( AggregateIdSequence )");
    assert_eq!(condition.expression_attribute_values(), None);
}

#[test]
fn a_condition_on_a_version_names_its_placeholder() {
    let condition = Condition::AttributeNotExistsOrEquals {
        attribute: "ViewVersion".to_string(),
        placeholder: ":expected_view_version".to_string(),
        expected: Attribute::N("3".to_string()),
    };
    assert_eq!(
        condition.expression(),
        "attribute_not_exists(ViewVersion) OR (ViewVersion  = :expected_view_version)"
    );
    let mut values = Item::new();
    values.insert(":expected_view_version", Attribute::N("3".to_string()));
    assert_eq!(condition.expression_attribute_values(), Some(values));
}
