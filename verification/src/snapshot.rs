//! The snapshots of the event repository: a snapshot as a conditional put
//! operation that is committed together with the events it covers, and the
//! record of a partition query as a snapshot.
use crate::attribute::{
    att_as_number, att_as_value, lookup, number_of, value_of, value_outcome, Attribute,
    AttributeView, Item,
};
use crate::decimal::{
    decimal_digits, lemma_decimal_injective, lemma_decimal_round_trip, usize_to_decimal,
};
use crate::error::{DynamoAggregateError, ErrorView};
use crate::event_repository::{
    aggregate_key, append_transaction, event_puts, events_view, last_sequence, partition_key,
    DynamoEventRepository, SerializedEvent, SerializedEventView,
};
use crate::json::{json_decoding, json_encoding, json_error_text, json_to_vec};
use crate::query::QueryOutput;
use crate::transaction::{
    commit_transactions, guarded, puts_view, transaction_outcome, Condition, ConditionView,
    ConditionalPut, ConditionalPutView, Transaction,
};
use serde_json::Value;
use vstd::prelude::*;

verus! {

/// The table that holds the snapshots.
pub const SNAPSHOT_TABLE: &'static str = "Snapshots";

/// The snapshot of an aggregate: its state as a JSON value, the sequence
/// number of the last event that the state includes, and the version of the
/// snapshot itself.
#[derive(Debug, PartialEq, Eq)]
pub struct SerializedSnapshot {
    pub aggregate_id: String,
    pub aggregate: Value,
    pub current_sequence: usize,
    pub current_snapshot: usize,
}

/// The mathematical value of a `SerializedSnapshot`.
pub struct SerializedSnapshotView {
    pub aggregate_id: Seq<char>,
    pub aggregate: Value,
    pub current_sequence: usize,
    pub current_snapshot: usize,
}

impl View for SerializedSnapshot {
    type V = SerializedSnapshotView;

    open spec fn view(&self) -> SerializedSnapshotView {
        SerializedSnapshotView {
            aggregate_id: self.aggregate_id@,
            aggregate: self.aggregate,
            current_sequence: self.current_sequence,
            current_snapshot: self.current_snapshot,
        }
    }
}

/// The view of a snapshot that may be absent.
pub open spec fn snapshot_view(snapshot: Option<SerializedSnapshot>) -> Option<
    SerializedSnapshotView,
> {
    match snapshot {
        Some(snapshot) => Some(snapshot@),
        None => None,
    }
}

/// The record that stores a snapshot whose aggregate state has been written
/// as the given bytes.
pub open spec fn snapshot_item(
    aggregate_type: Seq<char>,
    aggregate_id: Seq<char>,
    payload: Seq<u8>,
    current_sequence: usize,
    current_snapshot: usize,
) -> Map<Seq<char>, AttributeView> {
    Map::<Seq<char>, AttributeView>::empty().insert(
        "AggregateTypeAndId"@,
        AttributeView::S(partition_key(aggregate_type, aggregate_id)),
    ).insert("AggregateType"@, AttributeView::S(aggregate_type)).insert(
        "AggregateId"@,
        AttributeView::S(aggregate_id),
    ).insert("CurrentSequence"@, AttributeView::N(decimal_digits(current_sequence as nat))).insert(
        "CurrentSnapshot"@,
        AttributeView::N(decimal_digits(current_snapshot as nat)),
    ).insert("Payload"@, AttributeView::B(payload))
}

/// The put operation that writes a snapshot of version `current_snapshot`:
/// it overwrites the stored snapshot on condition that there is none yet,
/// or that the stored one has the version just before.
pub open spec fn snapshot_put(
    aggregate_type: Seq<char>,
    aggregate_id: Seq<char>,
    payload: Seq<u8>,
    current_sequence: usize,
    current_snapshot: usize,
) -> ConditionalPutView {
    ConditionalPutView {
        table_name: SNAPSHOT_TABLE@,
        item: snapshot_item(
            aggregate_type,
            aggregate_id,
            payload,
            current_sequence,
            current_snapshot,
        ),
        condition: ConditionView::AttributeNotExistsOrEquals {
            attribute: "CurrentSnapshot"@,
            placeholder: ":current_snapshot"@,
            expected: AttributeView::N(decimal_digits((current_snapshot - 1) as nat)),
        },
    }
}

/// The transaction that appends events and writes a snapshot with them: the
/// put operations of the events, then the put operation of the snapshot,
/// whose sequence number is that of the last event. A failure to build the
/// puts of the events comes first, then a failure to write the aggregate
/// state as JSON, then the size guard.
pub open spec fn snapshot_transaction(
    aggregate_type: Seq<char>,
    aggregate_payload: Value,
    aggregate_id: Seq<char>,
    current_snapshot: usize,
    events: Seq<SerializedEventView>,
) -> Result<Seq<ConditionalPutView>, ErrorView> {
    match event_puts(events) {
        Err(error) => Err(error),
        Ok(puts) => match json_encoding(aggregate_payload) {
            Err(error) => Err(ErrorView::UnknownError(json_error_text(error))),
            Ok(payload) => guarded(
                puts.push(
                    snapshot_put(
                        aggregate_type,
                        aggregate_id,
                        payload,
                        last_sequence(events),
                        current_snapshot,
                    ),
                ),
            ),
        },
    }
}

/// The transaction of a commit: the events alone, or the events and a
/// snapshot, given as the identifier of the aggregate, its state and the
/// version of the snapshot.
pub open spec fn persist_transaction(
    aggregate_type: Seq<char>,
    events: Seq<SerializedEventView>,
    snapshot_update: Option<(String, Value, usize)>,
) -> Result<Seq<ConditionalPutView>, ErrorView> {
    match snapshot_update {
        None => append_transaction(events),
        Some((aggregate_id, aggregate, current_snapshot)) => snapshot_transaction(
            aggregate_type,
            aggregate,
            aggregate_id@,
            current_snapshot,
            events,
        ),
    }
}

/// The snapshot that a stored record holds, given what decoding the state
/// of the aggregate came to. The attributes are taken in the order state,
/// sequence number, version; the first one that fails gives the error.
pub open spec fn snapshot_from(
    aggregate_id: Seq<char>,
    entry: Map<Seq<char>, AttributeView>,
    aggregate: Result<Value, ErrorView>,
) -> Result<SerializedSnapshotView, ErrorView> {
    match aggregate {
        Err(error) => Err(error),
        Ok(aggregate) => match number_of(lookup(entry, "CurrentSequence"@)) {
            Err(error) => Err(error),
            Ok(current_sequence) => match number_of(lookup(entry, "CurrentSnapshot"@)) {
                Err(error) => Err(error),
                Ok(current_snapshot) => Ok(
                    SerializedSnapshotView {
                        aggregate_id,
                        aggregate,
                        current_sequence,
                        current_snapshot,
                    },
                ),
            },
        },
    }
}

/// The snapshot that the output of a query holds: none where the store
/// returned no list or an empty one, else what the first record holds, the
/// state of the aggregate read from the JSON bytes of its attribute.
pub open spec fn queried_snapshot(
    aggregate_id: Seq<char>,
    output: Option<Seq<Map<Seq<char>, AttributeView>>>,
) -> Result<Option<SerializedSnapshotView>, ErrorView> {
    match output {
        None => Ok(None),
        Some(entries) => if entries.len() == 0 {
            Ok(None)
        } else {
            match snapshot_from(
                aggregate_id,
                entries[0],
                value_of(lookup(entries[0], "Payload"@)),
            ) {
                Err(error) => Err(error),
                Ok(snapshot) => Ok(Some(snapshot)),
            }
        },
    }
}

/// The outcome of decoding a snapshot, by its view.
pub open spec fn snapshot_outcome(decoded: Result<SerializedSnapshot, DynamoAggregateError>) -> Result<
    SerializedSnapshotView,
    ErrorView,
> {
    match decoded {
        Ok(snapshot) => Ok(snapshot@),
        Err(error) => Err(error@),
    }
}

/// The outcome of looking for a snapshot, by its view.
pub open spec fn found_snapshot_outcome(
    decoded: Result<Option<SerializedSnapshot>, DynamoAggregateError>,
) -> Result<Option<SerializedSnapshotView>, ErrorView> {
    match decoded {
        Ok(snapshot) => Ok(snapshot_view(snapshot)),
        Err(error) => Err(error@),
    }
}

/// Builds the put operation that writes the snapshot of version
/// `current_snapshot`, the state of the aggregate written as the given
/// bytes.
pub fn snapshot_put_from(
    aggregate_type: &str,
    aggregate_id: String,
    payload_blob: Vec<u8>,
    current_sequence: usize,
    current_snapshot: usize,
) -> (put: ConditionalPut)
    requires
        current_snapshot >= 1,
    ensures
        put@ == snapshot_put(
            aggregate_type@,
            aggregate_id@,
            payload_blob@,
            current_sequence,
            current_snapshot,
        ),
{
    let expected_snapshot = current_snapshot - 1;
    let mut item = Item::new();
    item.insert(
        "AggregateTypeAndId",
        Attribute::S(aggregate_key(aggregate_type, aggregate_id.as_str())),
    );
    item.insert("AggregateType", Attribute::S(String::from_str(aggregate_type)));
    item.insert("AggregateId", Attribute::S(aggregate_id));
    item.insert("CurrentSequence", Attribute::N(usize_to_decimal(current_sequence)));
    item.insert("CurrentSnapshot", Attribute::N(usize_to_decimal(current_snapshot)));
    item.insert("Payload", Attribute::B(payload_blob));
    ConditionalPut {
        table_name: String::from_str(SNAPSHOT_TABLE),
        item,
        condition: Condition::AttributeNotExistsOrEquals {
            attribute: String::from_str("CurrentSnapshot"),
            placeholder: String::from_str(":current_snapshot"),
            expected: Attribute::N(usize_to_decimal(expected_snapshot)),
        },
    }
}

/// Decodes a stored record into the snapshot that it holds, given what
/// decoding the state of the aggregate came to.
pub fn serialized_snapshot_from(
    aggregate_id: &str,
    entry: &Item,
    aggregate: Result<Value, DynamoAggregateError>,
) -> (decoded: Result<SerializedSnapshot, DynamoAggregateError>)
    ensures
        snapshot_outcome(decoded) == snapshot_from(
            aggregate_id@,
            entry@,
            value_outcome(aggregate),
        ),
{
    let aggregate = match aggregate {
        Ok(value) => value,
        Err(error) => {
            return Err(error);
        },
    };
    let current_sequence = match att_as_number(entry.get("CurrentSequence")) {
        Ok(number) => number,
        Err(error) => {
            return Err(error);
        },
    };
    let current_snapshot = match att_as_number(entry.get("CurrentSnapshot")) {
        Ok(number) => number,
        Err(error) => {
            return Err(error);
        },
    };
    Ok(
        SerializedSnapshot {
            aggregate_id: String::from_str(aggregate_id),
            aggregate,
            current_sequence,
            current_snapshot,
        },
    )
}

impl DynamoEventRepository {
    /// Builds the transaction that appends events and writes the snapshot of
    /// version `current_snapshot` with them. The snapshot is written only
    /// over the snapshot of the version just before, or where there is none.
    pub fn update_snapshot(
        &self,
        aggregate_type: &str,
        aggregate_payload: Value,
        aggregate_id: String,
        current_snapshot: usize,
        events: &[SerializedEvent],
    ) -> (built: Result<Transaction, DynamoAggregateError>)
        requires
            current_snapshot >= 1,
        ensures
            transaction_outcome(built) == snapshot_transaction(
                aggregate_type@,
                aggregate_payload,
                aggregate_id@,
                current_snapshot,
                events_view(events@),
            ),
    {
        let (mut transactions, current_sequence) = match Self::build_event_put_transactions(
            events,
        ) {
            Ok(built) => built,
            Err(error) => {
                return Err(error);
            },
        };
        let payload_blob = match json_to_vec(&aggregate_payload) {
            Ok(bytes) => bytes,
            Err(error) => {
                return Err(DynamoAggregateError::from_json_error(error));
            },
        };
        let put = snapshot_put_from(
            aggregate_type,
            aggregate_id,
            payload_blob,
            current_sequence,
            current_snapshot,
        );
        proof {
            assert(puts_view(transactions@.push(put)) =~= puts_view(transactions@).push(put@));
        }
        transactions.push(put);
        commit_transactions(transactions)
    }

    /// Decodes the output of a query on the snapshots table into the
    /// snapshot of the aggregate, if it has one.
    pub fn get_snapshot(&self, aggregate_id: &str, query_output: &QueryOutput) -> (decoded: Result<
        Option<SerializedSnapshot>,
        DynamoAggregateError,
    >)
        ensures
            found_snapshot_outcome(decoded) == queried_snapshot(aggregate_id@, query_output@),
    {
        let query_items_vec = match &query_output.items {
            None => {
                return Ok(None);
            },
            Some(items) => items,
        };
        if query_items_vec.len() == 0 {
            return Ok(None);
        }
        let query_item = &query_items_vec[0];
        let aggregate = att_as_value(query_item.get("Payload"));
        match serialized_snapshot_from(aggregate_id, query_item, aggregate) {
            Ok(snapshot) => Ok(Some(snapshot)),
            Err(error) => Err(error),
        }
    }

    /// Builds the transaction of a commit: the events alone, or the events
    /// together with a snapshot, given as the identifier of the aggregate,
    /// its state and the version of the snapshot.
    pub fn persist(
        &self,
        aggregate_type: &str,
        events: &[SerializedEvent],
        snapshot_update: Option<(String, Value, usize)>,
    ) -> (built: Result<Transaction, DynamoAggregateError>)
        requires
            snapshot_update matches Some(update) ==> update.2 >= 1,
        ensures
            transaction_outcome(built) == persist_transaction(
                aggregate_type@,
                events_view(events@),
                snapshot_update,
            ),
    {
        match snapshot_update {
            None => self.insert_events(events),
            Some((aggregate_id, aggregate, current_snapshot)) => self.update_snapshot(
                aggregate_type,
                aggregate,
                aggregate_id,
                current_snapshot,
                events,
            ),
        }
    }
}

/// The names of the attributes of a snapshot record differ from each other.
pub proof fn lemma_snapshot_names_differ()
    ensures
        "AggregateTypeAndId"@.len() == 18,
        "AggregateType"@.len() == 13,
        "AggregateId"@.len() == 11,
        "CurrentSequence"@.len() == 15,
        "CurrentSnapshot"@.len() == 15,
        "CurrentSequence"@[8] == 'e',
        "CurrentSnapshot"@[8] == 'n',
        "Payload"@.len() == 7,
{
    reveal_strlit("AggregateTypeAndId");
    reveal_strlit("AggregateType");
    reveal_strlit("AggregateId");
    reveal_strlit("CurrentSequence");
    reveal_strlit("CurrentSnapshot");
    reveal_strlit("Payload");
}

/// A snapshot is written only over the version just before: the store may
/// write the put operation of the snapshot of version `current_snapshot`
/// where no snapshot is stored, and where one is stored exactly when its
/// version is `current_snapshot - 1`.
pub proof fn lemma_snapshot_gate(
    aggregate_type: Seq<char>,
    snapshot: SerializedSnapshotView,
    payload: Seq<u8>,
    stored: SerializedSnapshotView,
    stored_payload: Seq<u8>,
)
    requires
        snapshot.current_snapshot >= 1,
    ensures
        snapshot_put(
            aggregate_type,
            snapshot.aggregate_id,
            payload,
            snapshot.current_sequence,
            snapshot.current_snapshot,
        ).condition.holds(None),
        snapshot_put(
            aggregate_type,
            snapshot.aggregate_id,
            payload,
            snapshot.current_sequence,
            snapshot.current_snapshot,
        ).condition.holds(
            Some(
                snapshot_item(
                    aggregate_type,
                    stored.aggregate_id,
                    stored_payload,
                    stored.current_sequence,
                    stored.current_snapshot,
                ),
            ),
        ) <==> stored.current_snapshot == snapshot.current_snapshot - 1,
{
    lemma_snapshot_names_differ();
    assert("CurrentSequence"@ != "CurrentSnapshot"@);
    if decimal_digits(stored.current_snapshot as nat) == decimal_digits(
        (snapshot.current_snapshot - 1) as nat,
    ) {
        lemma_decimal_injective(
            stored.current_snapshot as nat,
            (snapshot.current_snapshot - 1) as nat,
        );
    }
}

/// The condition of the put operation of a snapshot is written as the store
/// reads it, with the version just before as the expected value.
pub proof fn lemma_snapshot_condition_text(
    aggregate_type: Seq<char>,
    aggregate_id: Seq<char>,
    payload: Seq<u8>,
    current_sequence: usize,
    current_snapshot: usize,
)
    ensures
        snapshot_put(
            aggregate_type,
            aggregate_id,
            payload,
            current_sequence,
            current_snapshot,
        ).condition.expression()
            == "attribute_not_exists(CurrentSnapshot) OR (CurrentSnapshot  = :current_snapshot)"@,
        snapshot_put(
            aggregate_type,
            aggregate_id,
            payload,
            current_sequence,
            current_snapshot,
        ).condition.expression_attribute_values() == Some(
            Map::<Seq<char>, AttributeView>::empty().insert(
                ":current_snapshot"@,
                AttributeView::N(decimal_digits((current_snapshot - 1) as nat)),
            ),
        ),
{
    reveal_strlit("attribute_not_exists(");
    reveal_strlit("CurrentSnapshot");
    reveal_strlit(") OR (");
    reveal_strlit("  = ");
    reveal_strlit(":current_snapshot");
    reveal_strlit(")");
    reveal_strlit(
        "attribute_not_exists(CurrentSnapshot) OR (CurrentSnapshot  = :current_snapshot)",
    );
    assert("attribute_not_exists("@ + "CurrentSnapshot"@ + ") OR ("@ + "CurrentSnapshot"@ + "  = "@
        + ":current_snapshot"@ + ")"@
        =~= "attribute_not_exists(CurrentSnapshot) OR (CurrentSnapshot  = :current_snapshot)"@);
}

/// A snapshot is read back as it was written: where the bytes of the
/// aggregate state are read back as the JSON value they were written from,
/// a query that returns the record of the snapshot decodes to the snapshot.
pub proof fn lemma_snapshot_round_trip(
    aggregate_type: Seq<char>,
    snapshot: SerializedSnapshotView,
    payload: Seq<u8>,
)
    ensures
        json_decoding(payload) == Ok::<Value, serde_json::Error>(snapshot.aggregate)
            ==> queried_snapshot(
            snapshot.aggregate_id,
            Some(
                seq![
                    snapshot_item(
                        aggregate_type,
                        snapshot.aggregate_id,
                        payload,
                        snapshot.current_sequence,
                        snapshot.current_snapshot,
                    ),
                ],
            ),
        ) == Ok::<Option<SerializedSnapshotView>, ErrorView>(Some(snapshot)),
{
    lemma_snapshot_names_differ();
    lemma_decimal_round_trip(snapshot.current_sequence as nat);
    lemma_decimal_round_trip(snapshot.current_snapshot as nat);
    assert("CurrentSequence"@ != "CurrentSnapshot"@);
}

/// An aggregate without a record has no snapshot, and that is no error: so
/// it is where the store returns no list and where it returns an empty one.
pub proof fn lemma_absent_snapshot(aggregate_id: Seq<char>)
    ensures
        queried_snapshot(aggregate_id, None) == Ok::<Option<SerializedSnapshotView>, ErrorView>(
            None,
        ),
        queried_snapshot(aggregate_id, Some(Seq::empty())) == Ok::<
            Option<SerializedSnapshotView>,
            ErrorView,
        >(None),
{
}

} // verus!
