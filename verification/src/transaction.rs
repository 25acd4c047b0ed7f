//! Conditional put operations and the bounded transaction that carries them.
use crate::attribute::{Attribute, AttributeView, Item};
use crate::error::{DynamoAggregateError, ErrorView};
use vstd::prelude::*;

verus! {

/// The largest number of operations that the store accepts in one atomic
/// transaction.
pub const MAX_TRANSACTION_ITEMS: usize = 25;

/// The condition under which the store may write a put operation. It
/// speaks of the record that is stored under the key of the record to
/// write, if there is one.
///
/// A condition has a meaning, `holds`, and a text, `expression`, by which
/// it is handed to the store. The library builds its conditions for their
/// meaning; that the store reads the text with that meaning is the
/// contract of the store.
#[derive(Debug, Clone, PartialEq, Eq)]
pub enum Condition {
    /// No record is stored, or the stored record lacks the attribute.
    AttributeNotExists { attribute: String },
    /// No record is stored, or the stored record lacks the attribute, or
    /// the attribute of the stored record equals the expected value. The
    /// placeholder stands for the expected value in the expression.
    AttributeNotExistsOrEquals { attribute: String, placeholder: String, expected: Attribute },
}

/// The mathematical value of a `Condition`.
pub enum ConditionView {
    AttributeNotExists { attribute: Seq<char> },
    AttributeNotExistsOrEquals {
        attribute: Seq<char>,
        placeholder: Seq<char>,
        expected: AttributeView,
    },
}

impl View for Condition {
    type V = ConditionView;

    open spec fn view(&self) -> ConditionView {
        match self {
            Condition::AttributeNotExists { attribute } => ConditionView::AttributeNotExists {
                attribute: attribute@,
            },
            Condition::AttributeNotExistsOrEquals { attribute, placeholder, expected } => {
                ConditionView::AttributeNotExistsOrEquals {
                    attribute: attribute@,
                    placeholder: placeholder@,
                    expected: expected@,
                }
            },
        }
    }
}

impl ConditionView {
    /// What the condition means: whether it holds of what is stored under a
    /// key, a record or nothing.
    pub open spec fn holds(self, stored: Option<Map<Seq<char>, AttributeView>>) -> bool {
        match self {
            ConditionView::AttributeNotExists { attribute } => match stored {
                None => true,
                Some(record) => !record.contains_key(attribute),
            },
            ConditionView::AttributeNotExistsOrEquals { attribute, placeholder, expected } => {
                match stored {
                    None => true,
                    Some(record) => !record.contains_key(attribute) || record[attribute]
                        == expected,
                }
            },
        }
    }

    /// The condition in the expression language of the store.
    pub open spec fn expression(self) -> Seq<char> {
        match self {
            ConditionView::AttributeNotExists { attribute } => "attribute_not_exists( "@
                + attribute + " )"@,
            ConditionView::AttributeNotExistsOrEquals { attribute, placeholder, expected } => {
                "attribute_not_exists("@ + attribute + ") OR ("@ + attribute + "  = "@
                    + placeholder + ")"@
            },
        }
    }

    /// The values that the expression refers to by placeholder, where it
    /// refers to any.
    pub open spec fn expression_attribute_values(self) -> Option<Map<Seq<char>, AttributeView>> {
        match self {
            ConditionView::AttributeNotExists { attribute } => None,
            ConditionView::AttributeNotExistsOrEquals { attribute, placeholder, expected } => Some(
                Map::<Seq<char>, AttributeView>::empty().insert(placeholder, expected),
            ),
        }
    }
}

/// The view of a record that may be absent.
pub open spec fn item_view(item: Option<Item>) -> Option<Map<Seq<char>, AttributeView>> {
    match item {
        Some(item) => Some(item@),
        None => None,
    }
}

impl Condition {
    /// Writes the condition in the expression language of the store.
    pub fn expression(&self) -> (text: String)
        ensures
            text@ == self@.expression(),
    {
        match self {
            Condition::AttributeNotExists { attribute } => {
                let mut text = String::from_str("attribute_not_exists( ");
                text.append(attribute.as_str());
                text.append(" )");
                text
            },
            Condition::AttributeNotExistsOrEquals { attribute, placeholder, expected } => {
                let mut text = String::from_str("attribute_not_exists(");
                text.append(attribute.as_str());
                text.append(") OR (");
                text.append(attribute.as_str());
                text.append("  = ");
                text.append(placeholder.as_str());
                text.append(")");
                text
            },
        }
    }

    /// The values that the expression refers to by placeholder, where it
    /// refers to any.
    pub fn expression_attribute_values(&self) -> (values: Option<Item>)
        ensures
            item_view(values) == self@.expression_attribute_values(),
    {
        match self {
            Condition::AttributeNotExists { attribute } => None,
            Condition::AttributeNotExistsOrEquals { attribute, placeholder, expected } => {
                let mut values = Item::new();
                values.insert(placeholder.as_str(), expected.duplicate());
                Some(values)
            },
        }
    }
}

/// One put operation: the record to write, the table to write it to, and
/// the condition under which the store may write it.
#[derive(Debug, Clone, PartialEq, Eq)]
pub struct ConditionalPut {
    pub table_name: String,
    pub item: Item,
    pub condition: Condition,
}

/// The mathematical value of a `ConditionalPut`.
pub struct ConditionalPutView {
    pub table_name: Seq<char>,
    pub item: Map<Seq<char>, AttributeView>,
    pub condition: ConditionView,
}

impl View for ConditionalPut {
    type V = ConditionalPutView;

    open spec fn view(&self) -> ConditionalPutView {
        ConditionalPutView {
            table_name: self.table_name@,
            item: self.item@,
            condition: self.condition@,
        }
    }
}

/// The mathematical values of a list of put operations, in order.
pub open spec fn puts_view(puts: Seq<ConditionalPut>) -> Seq<ConditionalPutView> {
    puts.map_values(|put: ConditionalPut| put@)
}

/// A list of put operations that the store commits together or not at all.
/// It never holds more than `MAX_TRANSACTION_ITEMS` operations.
#[derive(Debug, PartialEq, Eq)]
pub struct Transaction {
    operations: Vec<ConditionalPut>,
}

impl View for Transaction {
    type V = Seq<ConditionalPutView>;

    closed spec fn view(&self) -> Seq<ConditionalPutView> {
        puts_view(self.operations@)
    }
}

impl Transaction {
    #[verifier::type_invariant]
    spec fn within_limit(self) -> bool {
        self.operations@.len() <= MAX_TRANSACTION_ITEMS
    }

    /// The operations of the transaction, in order.
    pub fn operations(&self) -> (operations: &Vec<ConditionalPut>)
        ensures
            puts_view(operations@) == self@,
            operations@.len() <= MAX_TRANSACTION_ITEMS,
    {
        proof {
            use_type_invariant(self);
        }
        &self.operations
    }

    /// The operations of the transaction, in order.
    pub fn into_operations(self) -> (operations: Vec<ConditionalPut>)
        ensures
            puts_view(operations@) == self@,
            operations@.len() <= MAX_TRANSACTION_ITEMS,
    {
        proof {
            use_type_invariant(&self);
        }
        self.operations
    }
}

/// What the size guard makes of a list of operations: the list itself where
/// it fits in one transaction, else the error that carries its length.
pub open spec fn guarded(puts: Seq<ConditionalPutView>) -> Result<Seq<ConditionalPutView>, ErrorView> {
    if puts.len() > MAX_TRANSACTION_ITEMS {
        Err(ErrorView::TransactionListTooLong(puts.len() as usize))
    } else {
        Ok(puts)
    }
}

/// The outcome of building a transaction: its operations, or the error by
/// its view.
pub open spec fn transaction_outcome(built: Result<Transaction, DynamoAggregateError>) -> Result<
    Seq<ConditionalPutView>,
    ErrorView,
> {
    match built {
        Ok(transaction) => Ok(transaction@),
        Err(error) => Err(error@),
    }
}

/// Admits a list of operations as one transaction. A list longer than the
/// store accepts is refused here, before anything is sent.
pub fn commit_transactions(transactions: Vec<ConditionalPut>) -> (admitted: Result<
    Transaction,
    DynamoAggregateError,
>)
    ensures
        transaction_outcome(admitted) == guarded(puts_view(transactions@)),
{
    let transaction_len = transactions.len();
    if transaction_len > MAX_TRANSACTION_ITEMS {
        return Err(DynamoAggregateError::TransactionListTooLong(transaction_len));
    }
    Ok(Transaction { operations: transactions })
}

/// The size guard admits a list exactly when it holds no more operations
/// than one transaction may carry; it admits the list as it is, and it
/// refuses a longer one with its length.
pub proof fn lemma_guard_limit(puts: Seq<ConditionalPutView>)
    ensures
        puts.len() <= MAX_TRANSACTION_ITEMS ==> guarded(puts) == Ok::<
            Seq<ConditionalPutView>,
            ErrorView,
        >(puts),
        puts.len() > MAX_TRANSACTION_ITEMS ==> guarded(puts) == Err::<
            Seq<ConditionalPutView>,
            ErrorView,
        >(ErrorView::TransactionListTooLong(puts.len() as usize)),
        MAX_TRANSACTION_ITEMS == 25,
{
}

} // verus!
