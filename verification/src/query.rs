//! Partition queries: the request for all records of one partition, and the
//! records that the store returns for it.
use crate::attribute::{Attribute, AttributeView, Item};
use vstd::prelude::*;

verus! {

/// A query for all the records that share one partition key. The store
/// returns them ordered by their sort key.
#[derive(Debug, Clone, PartialEq, Eq)]
pub struct PartitionQuery {
    pub table_name: String,
    /// The condition on the key, in the expression language of the store.
    pub key_condition_expression: String,
    /// The placeholder that stands for the name of the key attribute.
    pub name_placeholder: String,
    /// The name of the key attribute.
    pub attribute_name: String,
    /// The placeholder that stands for the value of the key attribute.
    pub value_placeholder: String,
    /// The value of the key attribute.
    pub attribute_value: Attribute,
}

/// The mathematical value of a `PartitionQuery`.
pub struct PartitionQueryView {
    pub table_name: Seq<char>,
    pub key_condition_expression: Seq<char>,
    pub name_placeholder: Seq<char>,
    pub attribute_name: Seq<char>,
    pub value_placeholder: Seq<char>,
    pub attribute_value: AttributeView,
}

impl View for PartitionQuery {
    type V = PartitionQueryView;

    open spec fn view(&self) -> PartitionQueryView {
        PartitionQueryView {
            table_name: self.table_name@,
            key_condition_expression: self.key_condition_expression@,
            name_placeholder: self.name_placeholder@,
            attribute_name: self.attribute_name@,
            value_placeholder: self.value_placeholder@,
            attribute_value: self.attribute_value@,
        }
    }
}

/// What the store returns for a partition query: the records of the
/// partition in the order of their sort key, or no list at all.
#[derive(Debug, Clone, PartialEq, Eq)]
pub struct QueryOutput {
    pub items: Option<Vec<Item>>,
}

/// The mathematical values of a list of records, in order.
pub open spec fn items_view(items: Seq<Item>) -> Seq<Map<Seq<char>, AttributeView>> {
    items.map_values(|item: Item| item@)
}

impl View for QueryOutput {
    type V = Option<Seq<Map<Seq<char>, AttributeView>>>;

    open spec fn view(&self) -> Option<Seq<Map<Seq<char>, AttributeView>>> {
        match self.items {
            Some(items) => Some(items_view(items@)),
            None => None,
        }
    }
}

/// The query for the record of a view instance in the table of its view.
pub open spec fn view_query(table_name: Seq<char>, view_id: Seq<char>) -> PartitionQueryView {
    PartitionQueryView {
        table_name,
        key_condition_expression: "#view_type_id = :view_type_id"@,
        name_placeholder: "#view_type_id"@,
        attribute_name: "QueryInstanceId"@,
        value_placeholder: ":view_type_id"@,
        attribute_value: AttributeView::S(view_id),
    }
}

/// Builds the query for the record of a view instance in the table of its
/// view.
pub fn load_dynamo_view(table_name: &str, view_id: &str) -> (query: PartitionQuery)
    ensures
        query@ == view_query(table_name@, view_id@),
{
    PartitionQuery {
        table_name: String::from_str(table_name),
        key_condition_expression: String::from_str("#view_type_id = :view_type_id"),
        name_placeholder: String::from_str("#view_type_id"),
        attribute_name: String::from_str("QueryInstanceId"),
        value_placeholder: String::from_str(":view_type_id"),
        attribute_value: Attribute::S(String::from_str(view_id)),
    }
}

} // verus!
