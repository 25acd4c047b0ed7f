//! The view repository: a materialized view as one conditional put
//! operation gated by its version, and the record of a partition query as a
//! view with its version.
use crate::attribute::{
    att_as_number, att_as_value, lookup, number_of, value_of, value_outcome, Attribute,
    AttributeView, Item,
};
use crate::decimal::{
    i64_to_decimal, lemma_decimal_round_trip, lemma_signed_decimal_injective, signed_decimal,
};
use crate::error::{DynamoAggregateError, ErrorView};
use crate::json::{json_decoding, json_encoding, json_error_text, json_to_vec};
use crate::query::{load_dynamo_view, view_query, PartitionQuery, QueryOutput};
use crate::transaction::{
    commit_transactions, puts_view, transaction_outcome, Condition, ConditionView, ConditionalPut,
    ConditionalPutView, Transaction,
};
use serde_json::Value;
use vstd::prelude::*;

verus! {

/// The identifier of a view instance and the version of its stored record.
/// A view that has no record yet has version 0.
#[derive(Debug, Clone, PartialEq, Eq)]
pub struct QueryContext {
    pub view_instance_id: String,
    pub version: i64,
}

/// The mathematical value of a `QueryContext`.
pub struct QueryContextView {
    pub view_instance_id: Seq<char>,
    pub version: i64,
}

impl View for QueryContext {
    type V = QueryContextView;

    open spec fn view(&self) -> QueryContextView {
        QueryContextView { view_instance_id: self.view_instance_id@, version: self.version }
    }
}

impl QueryContext {
    /// The context of a view instance at a version.
    pub fn new(view_instance_id: String, version: i64) -> (context: QueryContext)
        ensures
            context.view_instance_id == view_instance_id,
            context.version == version,
    {
        QueryContext { view_instance_id, version }
    }
}

/// A view repository: the views of one kind, stored in the table that is
/// named after the kind.
#[derive(Debug, Clone, PartialEq, Eq)]
pub struct DynamoViewRepository {
    pub query_name: String,
}

/// The record that stores a view at a version, its state written as the
/// given bytes.
pub open spec fn view_item(view_instance_id: Seq<char>, version: int, payload: Seq<u8>) -> Map<
    Seq<char>,
    AttributeView,
> {
    Map::<Seq<char>, AttributeView>::empty().insert(
        "QueryInstanceId"@,
        AttributeView::S(view_instance_id),
    ).insert("ViewVersion"@, AttributeView::N(signed_decimal(version))).insert(
        "Payload"@,
        AttributeView::B(payload),
    )
}

/// The put operation that updates a view last seen at the version of the
/// context, its state written as the given bytes: it writes the view with
/// the next version on condition that there is no record yet, or that the
/// stored record still has the version seen.
pub open spec fn view_put(table: Seq<char>, context: QueryContextView, payload: Seq<u8>) -> ConditionalPutView {
    ConditionalPutView {
        table_name: table,
        item: view_item(context.view_instance_id, context.version + 1, payload),
        condition: ConditionView::AttributeNotExistsOrEquals {
            attribute: "ViewVersion"@,
            placeholder: ":expected_view_version"@,
            expected: AttributeView::N(signed_decimal(context.version as int)),
        },
    }
}

/// The transaction that updates a view: its one put operation, or an
/// unknown error where the state of the view cannot be written as JSON.
pub open spec fn view_transaction(table: Seq<char>, view: Value, context: QueryContextView) -> Result<
    Seq<ConditionalPutView>,
    ErrorView,
> {
    match json_encoding(view) {
        Err(error) => Err(ErrorView::UnknownError(json_error_text(error))),
        Ok(payload) => Ok(seq![view_put(table, context, payload)]),
    }
}

/// The view that a stored record holds for an instance, with its context,
/// given what decoding the state of the view came to. The version is taken
/// before the state; a version that a signed 64-bit number cannot hold is a
/// deserialization error, found last.
pub open spec fn view_from(
    view_instance_id: Seq<char>,
    entry: Map<Seq<char>, AttributeView>,
    payload: Result<Value, ErrorView>,
) -> Result<(Value, QueryContextView), ErrorView> {
    match number_of(lookup(entry, "ViewVersion"@)) {
        Err(error) => Err(error),
        Ok(version) => match payload {
            Err(error) => Err(error),
            Ok(payload) => if version <= i64::MAX {
                Ok((payload, QueryContextView { view_instance_id, version: version as i64 }))
            } else {
                Err(ErrorView::DeserializationError("view version is out of range"@))
            },
        },
    }
}

/// The view that the output of a query holds for an instance: none where
/// the store returned no list or an empty one, else what the first record
/// holds, the state of the view read from the JSON bytes of its attribute.
pub open spec fn queried_view(
    view_instance_id: Seq<char>,
    output: Option<Seq<Map<Seq<char>, AttributeView>>>,
) -> Result<Option<(Value, QueryContextView)>, ErrorView> {
    match output {
        None => Ok(None),
        Some(entries) => if entries.len() == 0 {
            Ok(None)
        } else {
            match view_from(
                view_instance_id,
                entries[0],
                value_of(lookup(entries[0], "Payload"@)),
            ) {
                Err(error) => Err(error),
                Ok(view) => Ok(Some(view)),
            }
        },
    }
}

/// The outcome of decoding a view, by its view.
pub open spec fn view_outcome(decoded: Result<(Value, QueryContext), DynamoAggregateError>) -> Result<
    (Value, QueryContextView),
    ErrorView,
> {
    match decoded {
        Ok((payload, context)) => Ok((payload, context@)),
        Err(error) => Err(error@),
    }
}

/// The outcome of looking for a view, by its view.
pub open spec fn found_view_outcome(
    decoded: Result<Option<(Value, QueryContext)>, DynamoAggregateError>,
) -> Result<Option<(Value, QueryContextView)>, ErrorView> {
    match decoded {
        Ok(Some((payload, context))) => Ok(Some((payload, context@))),
        Ok(None) => Ok(None),
        Err(error) => Err(error@),
    }
}

/// Decodes a stored record into the view that it holds for an instance,
/// given what decoding the state of the view came to.
pub fn view_with_context_from(
    query_instance_id: &str,
    entry: &Item,
    payload: Result<Value, DynamoAggregateError>,
) -> (decoded: Result<(Value, QueryContext), DynamoAggregateError>)
    ensures
        view_outcome(decoded) == view_from(query_instance_id@, entry@, value_outcome(payload)),
{
    let version = match att_as_number(entry.get("ViewVersion")) {
        Ok(number) => number,
        Err(error) => {
            return Err(error);
        },
    };
    let payload = match payload {
        Ok(value) => value,
        Err(error) => {
            return Err(error);
        },
    };
    if version as u64 > i64::MAX as u64 {
        return Err(
            DynamoAggregateError::DeserializationError(
                String::from_str("view version is out of range"),
            ),
        );
    }
    let context = QueryContext::new(String::from_str(query_instance_id), version as i64);
    Ok((payload, context))
}

impl DynamoViewRepository {
    /// Creates a view repository whose views are stored in the table named
    /// `query_name`.
    pub fn new(query_name: &str) -> (repository: DynamoViewRepository)
        ensures
            repository.query_name@ == query_name@,
    {
        DynamoViewRepository { query_name: String::from_str(query_name) }
    }

    /// Builds the query for the record of a view instance.
    pub fn load_query(&self, query_instance_id: &str) -> (query: PartitionQuery)
        ensures
            query@ == view_query(self.query_name@, query_instance_id@),
    {
        load_dynamo_view(self.query_name.as_str(), query_instance_id)
    }

    /// Decodes the output of a query for a view instance into the state of
    /// the view and its context, if the view has a record.
    pub fn load(&self, query_instance_id: &str, query_output: &QueryOutput) -> (decoded: Result<
        Option<(Value, QueryContext)>,
        DynamoAggregateError,
    >)
        ensures
            found_view_outcome(decoded) == queried_view(query_instance_id@, query_output@),
    {
        let query_items = match &query_output.items {
            None => {
                return Ok(None);
            },
            Some(items) => items,
        };
        if query_items.len() == 0 {
            return Ok(None);
        }
        let query_item = &query_items[0];
        let payload = att_as_value(query_item.get("Payload"));
        match view_with_context_from(query_instance_id, query_item, payload) {
            Ok(view) => Ok(Some(view)),
            Err(error) => Err(error),
        }
    }

    /// Builds the put operation that updates a view last seen at the
    /// version of `context`, its state written as the given bytes.
    pub fn view_put_from(&self, context: QueryContext, payload_blob: Vec<u8>) -> (put:
        ConditionalPut)
        requires
            context.version < i64::MAX,
        ensures
            put@ == view_put(self.query_name@, context@, payload_blob@),
    {
        let expected_view_version = Attribute::N(i64_to_decimal(context.version));
        let view_version = Attribute::N(i64_to_decimal(context.version + 1));
        let mut item = Item::new();
        item.insert("QueryInstanceId", Attribute::S(context.view_instance_id));
        item.insert("ViewVersion", view_version);
        item.insert("Payload", Attribute::B(payload_blob));
        ConditionalPut {
            table_name: self.query_name.clone(),
            item,
            condition: Condition::AttributeNotExistsOrEquals {
                attribute: String::from_str("ViewVersion"),
                placeholder: String::from_str(":expected_view_version"),
                expected: expected_view_version,
            },
        }
    }

    /// Builds the transaction that updates a view last seen at the version
    /// of `context`: one put operation that writes the view with the next
    /// version, on condition that the stored version is still the one seen.
    pub fn update_view(&self, view: Value, context: QueryContext) -> (built: Result<
        Transaction,
        DynamoAggregateError,
    >)
        requires
            context.version < i64::MAX,
        ensures
            transaction_outcome(built) == view_transaction(self.query_name@, view, context@),
    {
        let payload_blob = match json_to_vec(&view) {
            Ok(bytes) => bytes,
            Err(error) => {
                return Err(DynamoAggregateError::from_json_error(error));
            },
        };
        let put = self.view_put_from(context, payload_blob);
        let mut transactions: Vec<ConditionalPut> = Vec::new();
        transactions.push(put);
        proof {
            assert(puts_view(transactions@) =~= seq![put@]);
        }
        commit_transactions(transactions)
    }
}

/// The names of the attributes of a view record differ from each other.
pub proof fn lemma_view_names_differ()
    ensures
        "QueryInstanceId"@.len() == 15,
        "ViewVersion"@.len() == 11,
        "Payload"@.len() == 7,
{
    reveal_strlit("QueryInstanceId");
    reveal_strlit("ViewVersion");
    reveal_strlit("Payload");
}

/// A view is updated only at the version seen: the store may write the put
/// operation of an update where no record is stored, and where the record
/// of the view is stored exactly when its version is the one of the
/// context.
pub proof fn lemma_view_gate(
    table: Seq<char>,
    context: QueryContextView,
    payload: Seq<u8>,
    stored_version: i64,
    stored_payload: Seq<u8>,
)
    ensures
        view_put(table, context, payload).condition.holds(None),
        view_put(table, context, payload).condition.holds(
            Some(view_item(context.view_instance_id, stored_version as int, stored_payload)),
        ) <==> stored_version == context.version,
{
    lemma_view_names_differ();
    if signed_decimal(stored_version as int) == signed_decimal(context.version as int) {
        lemma_signed_decimal_injective(stored_version as int, context.version as int);
    }
}

/// The condition of the put operation of an update is written as the store
/// reads it, with the version seen as the expected value.
pub proof fn lemma_view_condition_text(
    table: Seq<char>,
    context: QueryContextView,
    payload: Seq<u8>,
)
    ensures
        view_put(table, context, payload).condition.expression()
            == "attribute_not_exists(ViewVersion) OR (ViewVersion  = :expected_view_version)"@,
        view_put(table, context, payload).condition.expression_attribute_values() == Some(
            Map::<Seq<char>, AttributeView>::empty().insert(
                ":expected_view_version"@,
                AttributeView::N(signed_decimal(context.version as int)),
            ),
        ),
{
    reveal_strlit("attribute_not_exists(");
    reveal_strlit("ViewVersion");
    reveal_strlit(") OR (");
    reveal_strlit("  = ");
    reveal_strlit(":expected_view_version");
    reveal_strlit(")");
    reveal_strlit("attribute_not_exists(ViewVersion) OR (ViewVersion  = :expected_view_version)");
    assert("attribute_not_exists("@ + "ViewVersion"@ + ") OR ("@ + "ViewVersion"@ + "  = "@
        + ":expected_view_version"@ + ")"@
        =~= "attribute_not_exists(ViewVersion) OR (ViewVersion  = :expected_view_version)"@);
}

/// A view is read back as it was written: where the bytes of its state are
/// read back as the JSON value they were written from, and its version is
/// not negative and fits a counter, a query that returns the record of the
/// view decodes to the state and the version.
pub proof fn lemma_view_round_trip(context: QueryContextView, view: Value, payload: Seq<u8>)
    requires
        0 <= context.version <= usize::MAX,
    ensures
        json_decoding(payload) == Ok::<Value, serde_json::Error>(view) ==> queried_view(
            context.view_instance_id,
            Some(seq![view_item(context.view_instance_id, context.version as int, payload)]),
        ) == Ok::<Option<(Value, QueryContextView)>, ErrorView>(Some((view, context))),
{
    lemma_view_names_differ();
    lemma_decimal_round_trip(context.version as nat);
}

/// An update moves a view to the next version: the record that the put
/// operation of an update writes is read back with the version after the
/// one seen.
pub proof fn lemma_update_advances_version(
    table: Seq<char>,
    context: QueryContextView,
    view: Value,
    payload: Seq<u8>,
)
    requires
        0 <= context.version < usize::MAX,
        context.version < i64::MAX,
    ensures
        json_decoding(payload) == Ok::<Value, serde_json::Error>(view) ==> queried_view(
            context.view_instance_id,
            Some(seq![view_put(table, context, payload).item]),
        ) == Ok::<Option<(Value, QueryContextView)>, ErrorView>(
            Some(
                (
                    view,
                    QueryContextView {
                        view_instance_id: context.view_instance_id,
                        version: (context.version + 1) as i64,
                    },
                ),
            ),
        ),
{
    lemma_view_round_trip(
        QueryContextView {
            view_instance_id: context.view_instance_id,
            version: (context.version + 1) as i64,
        },
        view,
        payload,
    );
}

/// A view without a record is absent, and that is no error: so it is where
/// the store returns no list and where it returns an empty one.
pub proof fn lemma_absent_view(view_instance_id: Seq<char>)
    ensures
        queried_view(view_instance_id, None) == Ok::<
            Option<(Value, QueryContextView)>,
            ErrorView,
        >(None),
        queried_view(view_instance_id, Some(Seq::empty())) == Ok::<
            Option<(Value, QueryContextView)>,
            ErrorView,
        >(None),
{
}

} // verus!
