use dynamo_es::attribute::{Attribute, Item};
use dynamo_es::error::{
    CancellationReason, DynamoAggregateError, QueryError, SdkError, TransactWriteItemsError,
};
use dynamo_es::event_repository::{DynamoEventRepository, SerializedEvent, EVENT_TABLE};
use dynamo_es::snapshot::{SerializedSnapshot, SNAPSHOT_TABLE};
use dynamo_es::query::{PartitionQuery, QueryOutput};
use dynamo_es::query_repository::{DynamoViewRepository, QueryContext};
use dynamo_es::transaction::{Condition, ConditionalPut, Transaction};
use serde_json::Value;
use std::collections::BTreeMap;

/// An in-memory stand-in for the store: conditional puts that commit
/// together or not at all, and partition queries in sort-key order.
struct Store {
    records: BTreeMap<(String, String, usize), Item>,
    round_trips: usize,
}

fn text_of(item: &Item, name: &str) -> String {
    match item.get(name) {
        Some(Attribute::S(text)) => text.clone(),
        other => panic!("attribute {} is no string: {:?}", name, other),
    }
}

fn number_of(item: &Item, name: &str) -> Option<i128> {
    match item.get(name) {
        Some(Attribute::N(text)) => Some(text.parse().unwrap()),
        None => None,
        other => panic!("attribute {} is no number: {:?}", name, other),
    }
}

fn key_of(put: &ConditionalPut) -> (String, String, usize) {
    if put.table_name == "Events" {
        let sequence = number_of(&put.item, "AggregateIdSequence").unwrap();
        (put.table_name.clone(), text_of(&put.item, "AggregateTypeAndId"), sequence as usize)
    } else if put.table_name == "Snapshots" {
        (put.table_name.clone(), text_of(&put.item, "AggregateTypeAndId"), 0)
    } else {
        (put.table_name.clone(), text_of(&put.item, "QueryInstanceId"), 0)
    }
}

impl Store {
    fn new() -> Store {
        Store { records: BTreeMap::new(), round_trips: 0 }
    }

    fn condition_holds(&self, put: &ConditionalPut) -> bool {
        let stored = self.records.get(&key_of(put));
        match (&put.condition, stored) {
            (_, None) => true,
            (Condition::AttributeNotExists { attribute }, Some(record)) => {
                record.get(attribute).is_none()
            }
            (Condition::AttributeNotExistsOrEquals { attribute, expected, .. }, Some(record)) => {
                match record.get(attribute) {
                    None => true,
                    Some(value) => value == expected,
                }
            }
        }
    }

    fn transact(
        &mut self,
        transaction: &Transaction,
    ) -> Result<(), SdkError<TransactWriteItemsError>> {
        self.round_trips += 1;
        let operations = transaction.operations();
        assert!(!operations.is_empty() && operations.len() <= 25);
        let reasons: Vec<CancellationReason> = operations
            .iter()
            .map(|put| {
                let code = if self.condition_holds(put) { "None" } else { "ConditionalCheckFailed" };
                CancellationReason { code: Some(code.to_string()) }
            })
            .collect();
        if reasons.iter().any(|reason| reason.code.as_deref() != Some("None")) {
            return Err(SdkError::ServiceError(TransactWriteItemsError::TransactionCanceled {
                cause: "Transaction cancelled, please refer cancellation reasons for specific reasons"
                    .to_string(),
                cancellation_reasons: Some(reasons),
            }));
        }
        for put in operations {
            self.records.insert(key_of(put), put.item.clone());
        }
        Ok(())
    }

    fn query(&mut self, query: &PartitionQuery) -> Result<QueryOutput, SdkError<QueryError>> {
        self.round_trips += 1;
        assert_eq!(
            query.key_condition_expression,
            format!("{} = {}", query.name_placeholder, query.value_placeholder)
        );
        let items: Vec<Item> = self
            .records
            .iter()
            .filter(|(key, item)| {
                key.0 == query.table_name
                    && item.get(&query.attribute_name) == Some(&query.attribute_value)
            })
            .map(|(_, item)| item.clone())
            .collect();
        Ok(QueryOutput { items: Some(items) })
    }
}

fn append(
    store: &mut Store,
    repo: &DynamoEventRepository,
    events: &[SerializedEvent],
) -> Result<(), DynamoAggregateError> {
    let transaction = repo.insert_events(events)?;
    store.transact(&transaction).map_err(DynamoAggregateError::from_transaction_failure)
}

fn load(
    store: &mut Store,
    repo: &DynamoEventRepository,
    id: &str,
) -> Result<Vec<SerializedEvent>, DynamoAggregateError> {
    let query = repo.query_table("TestAggregate", id, EVENT_TABLE);
    let output = store.query(&query).map_err(DynamoAggregateError::from_query_failure)?;
    repo.query_events(&output)
}

fn upsert_snapshot(
    store: &mut Store,
    repo: &DynamoEventRepository,
    aggregate: Value,
    id: &str,
    current_snapshot: usize,
    events: &[SerializedEvent],
) -> Result<(), DynamoAggregateError> {
    let transaction =
        repo.update_snapshot("TestAggregate", aggregate, id.to_string(), current_snapshot, events)?;
    store.transact(&transaction).map_err(DynamoAggregateError::from_transaction_failure)
}

fn get_snapshot(
    store: &mut Store,
    repo: &DynamoEventRepository,
    id: &str,
) -> Result<Option<SerializedSnapshot>, DynamoAggregateError> {
    let query = repo.query_table("TestAggregate", id, SNAPSHOT_TABLE);
    let output = store.query(&query).map_err(DynamoAggregateError::from_query_failure)?;
    repo.get_snapshot(id, &output)
}

fn update_view(
    store: &mut Store,
    repo: &DynamoViewRepository,
    id: &str,
    view: Value,
    expected_version: i64,
) -> Result<(), DynamoAggregateError> {
    let transaction = repo.update_view(view, QueryContext::new(id.to_string(), expected_version))?;
    store.transact(&transaction).map_err(DynamoAggregateError::from_transaction_failure)
}

fn load_view(
    store: &mut Store,
    repo: &DynamoViewRepository,
    id: &str,
) -> Result<Option<(Value, QueryContext)>, DynamoAggregateError> {
    let query = repo.load_query(id);
    let output = store.query(&query).map_err(DynamoAggregateError::from_query_failure)?;
    repo.load(id, &output)
}

fn object(entries: Vec<(&str, Value)>) -> Value {
    let mut map = serde_json::Map::new();
    for (name, value) in entries {
        map.insert(name.to_string(), value);
    }
    Value::Object(map)
}

fn created(id: &str) -> Value {
    object(vec![("Created", object(vec![("id", Value::from(id))]))])
}

fn tested(test_name: &str) -> Value {
    object(vec![("Tested", object(vec![("test_name", Value::from(test_name))]))])
}

fn something_else(description: &str) -> Value {
    object(vec![("SomethingElse", object(vec![("description", Value::from(description))]))])
}

fn test_event_envelope(id: &str, sequence: usize, event_type: &str, payload: Value) -> SerializedEvent {
    SerializedEvent {
        aggregate_id: id.to_string(),
        sequence,
        aggregate_type: "TestAggregate".to_string(),
        event_type: event_type.to_string(),
        event_version: "1.0".to_string(),
        payload,
        metadata: Value::Null,
    }
}

fn test_aggregate(id: &str, description: &str) -> Value {
    object(vec![
        ("id", Value::from(id)),
        ("description", Value::from(description)),
        ("tests", Value::Array(vec![Value::from("testA"), Value::from("testB")])),
    ])
}

fn snapshot_context(
    aggregate_id: &str,
    current_sequence: usize,
    current_snapshot: usize,
    aggregate: Value,
) -> SerializedSnapshot {
    SerializedSnapshot {
        aggregate_id: aggregate_id.to_string(),
        aggregate,
        current_sequence,
        current_snapshot,
    }
}

fn test_view(description: &str) -> Value {
    object(vec![("events", Value::Array(vec![created(description)]))])
}

#[test]
fn events_appended_to_a_fresh_aggregate_are_loaded_in_order() {
    let mut store = Store::new();
    let repo = DynamoEventRepository::new();
    append(
        &mut store,
        &repo,
        &[
            test_event_envelope("agg-1", 1, "Created", created("agg-1")),
            test_event_envelope("agg-1", 2, "Tested", tested("test A")),
        ],
    )
    .unwrap();
    assert_eq!(
        load(&mut store, &repo, "agg-1"),
        Ok(vec![
            test_event_envelope("agg-1", 1, "Created", created("agg-1")),
            test_event_envelope("agg-1", 2, "Tested", tested("test A")),
        ])
    );
}

#[test]
fn events_of_ten_and_more_are_loaded_in_ascending_sequence() {
    let mut store = Store::new();
    let repo = DynamoEventRepository::new();
    for sequence in [3usize, 11, 1, 10, 2] {
        append(&mut store, &repo, &[test_event_envelope("agg-1", sequence, "Tested", tested("t"))])
            .unwrap();
    }
    let sequences: Vec<usize> =
        load(&mut store, &repo, "agg-1").unwrap().iter().map(|event| event.sequence).collect();
    assert_eq!(sequences, vec![1, 2, 3, 10, 11]);
}

#[test]
fn a_duplicate_sequence_fails_the_whole_transaction() {
    let mut store = Store::new();
    let repo = DynamoEventRepository::new();
    append(
        &mut store,
        &repo,
        &[
            test_event_envelope("agg-1", 1, "Created", created("agg-1")),
            test_event_envelope("agg-1", 2, "Tested", tested("test A")),
        ],
    )
    .unwrap();
    let result = append(
        &mut store,
        &repo,
        &[
            test_event_envelope("agg-1", 2, "Tested", tested("duplicate")),
            test_event_envelope("agg-1", 3, "Tested", tested("valid")),
        ],
    );
    assert_eq!(result, Err(DynamoAggregateError::OptimisticLock));
    assert_eq!(
        load(&mut store, &repo, "agg-1"),
        Ok(vec![
            test_event_envelope("agg-1", 1, "Created", created("agg-1")),
            test_event_envelope("agg-1", 2, "Tested", tested("test A")),
        ])
    );
}

#[test]
fn events_of_other_aggregates_do_not_conflict() {
    let mut store = Store::new();
    let repo = DynamoEventRepository::new();
    append(&mut store, &repo, &[test_event_envelope("agg-1", 1, "Created", created("agg-1"))])
        .unwrap();
    append(&mut store, &repo, &[test_event_envelope("agg-2", 1, "Created", created("agg-2"))])
        .unwrap();
    assert_eq!(load(&mut store, &repo, "agg-1").unwrap().len(), 1);
    assert_eq!(
        load(&mut store, &repo, "agg-2"),
        Ok(vec![test_event_envelope("agg-2", 1, "Created", created("agg-2"))])
    );
}

#[test]
fn a_view_is_updated_only_at_the_expected_version() {
    let mut store = Store::new();
    let repo = DynamoViewRepository::new("TestQuery");
    assert_eq!(update_view(&mut store, &repo, "view-1", Value::from("payload A"), 0), Ok(()));
    assert_eq!(
        load_view(&mut store, &repo, "view-1"),
        Ok(Some((Value::from("payload A"), QueryContext::new("view-1".to_string(), 1))))
    );
    assert_eq!(
        update_view(&mut store, &repo, "view-1", Value::from("payload B"), 0),
        Err(DynamoAggregateError::OptimisticLock)
    );
    assert_eq!(update_view(&mut store, &repo, "view-1", Value::from("payload B"), 1), Ok(()));
    assert_eq!(
        load_view(&mut store, &repo, "view-1"),
        Ok(Some((Value::from("payload B"), QueryContext::new("view-1".to_string(), 2))))
    );
}

#[test]
fn a_snapshot_is_written_only_over_the_version_before() {
    let mut store = Store::new();
    let repo = DynamoEventRepository::new();
    assert_eq!(upsert_snapshot(&mut store, &repo, Value::from("first"), "agg-1", 1, &[]), Ok(()));
    assert_eq!(
        upsert_snapshot(&mut store, &repo, Value::from("not incremented"), "agg-1", 1, &[]),
        Err(DynamoAggregateError::OptimisticLock)
    );
    let events = [test_event_envelope("agg-1", 1, "Created", created("agg-1"))];
    assert_eq!(
        upsert_snapshot(&mut store, &repo, Value::from("second"), "agg-1", 2, &events),
        Ok(())
    );
    assert_eq!(
        get_snapshot(&mut store, &repo, "agg-1"),
        Ok(Some(snapshot_context("agg-1", 1, 2, Value::from("second"))))
    );
    assert_eq!(load(&mut store, &repo, "agg-1").unwrap().len(), 1);
}

#[test]
fn a_failed_snapshot_keeps_the_events_out() {
    let mut store = Store::new();
    let repo = DynamoEventRepository::new();
    upsert_snapshot(&mut store, &repo, Value::from("first"), "agg-1", 1, &[]).unwrap();
    let events = [test_event_envelope("agg-1", 1, "Created", created("agg-1"))];
    assert_eq!(
        upsert_snapshot(&mut store, &repo, Value::from("skipped a version"), "agg-1", 3, &events),
        Err(DynamoAggregateError::OptimisticLock)
    );
    assert_eq!(load(&mut store, &repo, "agg-1"), Ok(vec![]));
    assert_eq!(
        get_snapshot(&mut store, &repo, "agg-1"),
        Ok(Some(snapshot_context("agg-1", 0, 1, Value::from("first"))))
    );
}

#[test]
fn a_batch_of_26_puts_fails_before_any_round_trip() {
    let mut store = Store::new();
    let repo = DynamoEventRepository::new();
    let events: Vec<SerializedEvent> = (1..=26)
        .map(|sequence| test_event_envelope("agg-1", sequence, "Tested", tested("t")))
        .collect();
    assert_eq!(
        append(&mut store, &repo, &events),
        Err(DynamoAggregateError::TransactionListTooLong(26))
    );
    assert_eq!(store.round_trips, 0);
    assert!(store.records.is_empty());
}

#[test]
fn absent_records_are_empty_or_none_and_no_error() {
    let mut store = Store::new();
    let events = DynamoEventRepository::new();
    let views = DynamoViewRepository::new("TestQuery");
    assert_eq!(load(&mut store, &events, "nobody"), Ok(vec![]));
    assert_eq!(get_snapshot(&mut store, &events, "nobody"), Ok(None));
    assert_eq!(load_view(&mut store, &views, "nothing"), Ok(None));
}

#[test]
fn event_repositories() {
    let mut store = Store::new();
    let id = "6b2c7f0e-event-repositories";
    let event_repo = DynamoEventRepository::new();
    let events = load(&mut store, &event_repo, id).unwrap();
    assert!(events.is_empty());

    append(
        &mut store,
        &event_repo,
        &[
            test_event_envelope(id, 1, "Created", created(id)),
            test_event_envelope(id, 2, "Tested", tested("a test was run")),
        ],
    )
    .unwrap();
    let events = load(&mut store, &event_repo, id).unwrap();
    assert_eq!(2, events.len());
    events.iter().for_each(|e| assert_eq!(id, &e.aggregate_id));

    let result = append(
        &mut store,
        &event_repo,
        &[
            test_event_envelope(id, 3, "SomethingElse", something_else("this should not persist")),
            test_event_envelope(id, 2, "SomethingElse", something_else("bad sequence number")),
        ],
    )
    .unwrap_err();
    match result {
        DynamoAggregateError::OptimisticLock => {}
        _ => panic!("invalid error result found during insert: {}", result.message()),
    };

    let events = load(&mut store, &event_repo, id).unwrap();
    assert_eq!(2, events.len());
}

#[test]
fn snapshot_repositories() {
    let mut store = Store::new();
    let id = "0d1f9a52-snapshot-repositories";
    let repo = DynamoEventRepository::new();
    let snapshot = get_snapshot(&mut store, &repo, id).unwrap();
    assert_eq!(None, snapshot);

    upsert_snapshot(&mut store, &repo, test_aggregate(id, "some test snapshot here"), id, 1, &[])
        .unwrap();
    let snapshot = get_snapshot(&mut store, &repo, id).unwrap();
    assert_eq!(
        Some(snapshot_context(id, 0, 1, test_aggregate(id, "some test snapshot here"))),
        snapshot
    );

    upsert_snapshot(
        &mut store,
        &repo,
        test_aggregate(id, "a test description that should be saved"),
        id,
        2,
        &[],
    )
    .unwrap();
    let snapshot = get_snapshot(&mut store, &repo, id).unwrap();
    assert_eq!(
        Some(snapshot_context(
            id,
            0,
            2,
            test_aggregate(id, "a test description that should be saved")
        )),
        snapshot
    );

    let result = upsert_snapshot(
        &mut store,
        &repo,
        test_aggregate(id, "a test description that should not be saved"),
        id,
        2,
        &[],
    )
    .unwrap_err();
    match result {
        DynamoAggregateError::OptimisticLock => {}
        _ => panic!("invalid error result found during insert: {}", result.message()),
    };

    let snapshot = get_snapshot(&mut store, &repo, id).unwrap();
    assert_eq!(
        Some(snapshot_context(
            id,
            0,
            2,
            test_aggregate(id, "a test description that should be saved")
        )),
        snapshot
    );
}

#[test]
fn test_valid_view_repository() {
    let mut store = Store::new();
    let repo = DynamoViewRepository::new("TestQuery");
    let test_view_id = "5a0c4e1b-view";

    let view = test_view("just a test event for this view");
    update_view(&mut store, &repo, test_view_id, test_view("just a test event for this view"), 0)
        .unwrap();
    let (found, context) = load_view(&mut store, &repo, test_view_id).unwrap().unwrap();
    assert_eq!(found, view);

    let updated_view = test_view("a totally different view");
    update_view(
        &mut store,
        &repo,
        test_view_id,
        test_view("a totally different view"),
        context.version,
    )
    .unwrap();
    let found_option = load_view(&mut store, &repo, test_view_id).unwrap();
    let found = found_option.unwrap().0;

    assert_eq!(found, updated_view);
}

#[test]
fn a_store_that_is_down_is_a_connection_error() {
    let failure: SdkError<QueryError> = SdkError::DispatchFailure("connection refused".to_string());
    let result: Result<QueryOutput, DynamoAggregateError> =
        Err(failure).map_err(DynamoAggregateError::from_query_failure);
    assert_eq!(
        result,
        Err(DynamoAggregateError::ConnectionError("connection refused".to_string()))
    );
}

fn persist(
    store: &mut Store,
    repo: &DynamoEventRepository,
    aggregate_type: &str,
    events: &[SerializedEvent],
    snapshot_update: Option<(String, Value, usize)>,
) -> Result<(), DynamoAggregateError> {
    let transaction = repo.persist(aggregate_type, events, snapshot_update)?;
    store.transact(&transaction).map_err(DynamoAggregateError::from_transaction_failure)
}

fn commit_and_load_through_the_event_store(id: &str) {
    let mut store = Store::new();
    let repo = DynamoEventRepository::new();
    assert_eq!(0, load(&mut store, &repo, id).unwrap().len());

    persist(
        &mut store,
        &repo,
        "TestAggregate",
        &[
            test_event_envelope(id, 1, "Created", created("test_event_A")),
            test_event_envelope(id, 2, "Tested", tested("test A")),
        ],
        None,
    )
    .unwrap();
    assert_eq!(2, load(&mut store, &repo, id).unwrap().len());

    persist(
        &mut store,
        &repo,
        "TestAggregate",
        &[test_event_envelope(id, 3, "Tested", tested("test B"))],
        None,
    )
    .unwrap();
    assert_eq!(3, load(&mut store, &repo, id).unwrap().len());
}

fn commit_and_load_through_the_snapshot_store(id: &str) {
    let mut store = Store::new();
    let repo = DynamoEventRepository::new();
    assert_eq!(0, load(&mut store, &repo, id).unwrap().len());
    assert_eq!(None, get_snapshot(&mut store, &repo, id).unwrap());

    persist(
        &mut store,
        &repo,
        "TestAggregate",
        &[
            test_event_envelope(id, 1, "Created", created("test_event_A")),
            test_event_envelope(id, 2, "Tested", tested("test A")),
        ],
        Some((id.to_string(), test_aggregate("test_event_A", "test A"), 1)),
    )
    .unwrap();
    assert_eq!(2, load(&mut store, &repo, id).unwrap().len());
    assert_eq!(
        Some(snapshot_context(id, 2, 1, test_aggregate("test_event_A", "test A"))),
        get_snapshot(&mut store, &repo, id).unwrap()
    );

    persist(
        &mut store,
        &repo,
        "TestAggregate",
        &[test_event_envelope(id, 3, "Tested", tested("test B"))],
        Some((id.to_string(), test_aggregate("test_event_A", "test B"), 2)),
    )
    .unwrap();
    assert_eq!(3, load(&mut store, &repo, id).unwrap().len());
    assert_eq!(
        Some(snapshot_context(id, 3, 2, test_aggregate("test_event_A", "test B"))),
        get_snapshot(&mut store, &repo, id).unwrap()
    );
}

#[test]
fn event_repository_commit_and_load_events() {
    commit_and_load_through_the_event_store("c1f0e7a4-commit-and-load");
}

#[test]
fn event_repository_commit_and_load_events_snapshot_store() {
    commit_and_load_through_the_snapshot_store("77a2b9d3-commit-and-load-snapshot");
}

#[test]
fn testing_commit_and_load_events() {
    commit_and_load_through_the_event_store("e4d8c2b1-testing");
}

fn customer_event(id: &str, sequence: usize, event_type: &str, payload: Value) -> SerializedEvent {
    SerializedEvent {
        aggregate_id: id.to_string(),
        sequence,
        aggregate_type: "Customer".to_string(),
        event_type: event_type.to_string(),
        event_version: "1.0".to_string(),
        payload,
        metadata: object(vec![]),
    }
}

fn name_added(name: &str) -> Value {
    object(vec![("NameAdded", object(vec![("name", Value::from(name))]))])
}

fn email_updated(new_email: &str) -> Value {
    object(vec![("EmailUpdated", object(vec![("new_email", Value::from(new_email))]))])
}

fn load_customer(store: &mut Store, repo: &DynamoEventRepository, id: &str) -> Vec<SerializedEvent> {
    let query = repo.query_table("Customer", id, EVENT_TABLE);
    let output = store.query(&query).map_err(DynamoAggregateError::from_query_failure).unwrap();
    repo.query_events(&output).unwrap()
}

fn simple_es_commit_and_load_test(with_snapshots: bool) {
    let mut store = Store::new();
    let repo = DynamoEventRepository::new();
    let id = "9e3b1c66-customer";
    assert_eq!(0, load_customer(&mut store, &repo, id).len());

    let first = if with_snapshots {
        Some((id.to_string(), object(vec![("name", Value::from("test_event_A"))]), 1))
    } else {
        None
    };
    persist(
        &mut store,
        &repo,
        "Customer",
        &[
            customer_event(id, 1, "NameAdded", name_added("test_event_A")),
            customer_event(id, 2, "EmailUpdated", email_updated("email A")),
        ],
        first,
    )
    .unwrap();
    assert_eq!(2, load_customer(&mut store, &repo, id).len());

    let second = if with_snapshots {
        Some((id.to_string(), object(vec![("name", Value::from("test_event_A"))]), 2))
    } else {
        None
    };
    persist(
        &mut store,
        &repo,
        "Customer",
        &[customer_event(id, 3, "EmailUpdated", email_updated("email B"))],
        second,
    )
    .unwrap();
    assert_eq!(3, load_customer(&mut store, &repo, id).len());
}

#[test]
fn lib_commit_and_load_events() {
    simple_es_commit_and_load_test(false);
}

#[test]
fn lib_commit_and_load_events_snapshot_store() {
    simple_es_commit_and_load_test(true);
}
