//! The event repository: the events of an aggregate as conditional put
//! operations, and the records of a partition query as events.
use crate::attribute::{
    att_as_number, att_as_string, att_as_value, lookup, number_of, string_of, value_of,
    value_outcome, Attribute, AttributeView, Item,
};
use crate::decimal::{
    decimal_digits, lemma_decimal_injective, lemma_decimal_round_trip, usize_to_decimal,
};
use crate::error::{DynamoAggregateError, ErrorView};
use crate::json::{json_decoding, json_encoding, json_error_text, json_to_vec};
use crate::query::{items_view, PartitionQuery, PartitionQueryView, QueryOutput};
use crate::transaction::{
    commit_transactions, guarded, puts_view, transaction_outcome, Condition, ConditionView,
    ConditionalPut, ConditionalPutView, Transaction,
};
use serde_json::Value;
use vstd::prelude::*;

verus! {

/// The table that holds the events.
pub const EVENT_TABLE: &'static str = "Events";

/// One event of an aggregate, with its payload and metadata as JSON values.
/// An event is identified by the type and the identifier of its aggregate
/// and by its sequence number.
#[derive(Debug, PartialEq, Eq)]
pub struct SerializedEvent {
    pub aggregate_id: String,
    pub sequence: usize,
    pub aggregate_type: String,
    pub event_type: String,
    pub event_version: String,
    pub payload: Value,
    pub metadata: Value,
}

/// The mathematical value of a `SerializedEvent`.
pub struct SerializedEventView {
    pub aggregate_id: Seq<char>,
    pub sequence: usize,
    pub aggregate_type: Seq<char>,
    pub event_type: Seq<char>,
    pub event_version: Seq<char>,
    pub payload: Value,
    pub metadata: Value,
}

impl View for SerializedEvent {
    type V = SerializedEventView;

    open spec fn view(&self) -> SerializedEventView {
        SerializedEventView {
            aggregate_id: self.aggregate_id@,
            sequence: self.sequence,
            aggregate_type: self.aggregate_type@,
            event_type: self.event_type@,
            event_version: self.event_version@,
            payload: self.payload,
            metadata: self.metadata,
        }
    }
}

/// The mathematical values of a list of events, in order.
pub open spec fn events_view(events: Seq<SerializedEvent>) -> Seq<SerializedEventView> {
    events.map_values(|event: SerializedEvent| event@)
}

/// The partition key of an aggregate: its type, a colon, its identifier.
pub open spec fn partition_key(aggregate_type: Seq<char>, aggregate_id: Seq<char>) -> Seq<char> {
    aggregate_type + ":"@ + aggregate_id
}

/// The record that stores an event whose payload and metadata have been
/// written as the given bytes.
pub open spec fn event_item(event: SerializedEventView, payload: Seq<u8>, metadata: Seq<u8>) -> Map<
    Seq<char>,
    AttributeView,
> {
    Map::<Seq<char>, AttributeView>::empty().insert(
        "AggregateTypeAndId"@,
        AttributeView::S(partition_key(event.aggregate_type, event.aggregate_id)),
    ).insert("AggregateIdSequence"@, AttributeView::N(decimal_digits(event.sequence as nat))).insert(
        "AggregateType"@,
        AttributeView::S(event.aggregate_type),
    ).insert("AggregateId"@, AttributeView::S(event.aggregate_id)).insert(
        "EventVersion"@,
        AttributeView::S(event.event_version),
    ).insert("EventType"@, AttributeView::S(event.event_type)).insert(
        "Payload"@,
        AttributeView::B(payload),
    ).insert("Metadata"@, AttributeView::B(metadata))
}

/// The put operation that appends an event whose payload and metadata have
/// been written as the given bytes: it writes the record of the event to
/// the events table on condition that no record exists yet with the key of
/// the event.
pub open spec fn written_event(
    event: SerializedEventView,
    payload: Seq<u8>,
    metadata: Seq<u8>,
) -> ConditionalPutView {
    ConditionalPutView {
        table_name: EVENT_TABLE@,
        item: event_item(event, payload, metadata),
        condition: ConditionView::AttributeNotExists { attribute: "AggregateIdSequence"@ },
    }
}

/// The put operation that appends an event, with its payload and its
/// metadata written as JSON. Where one of them cannot be written, the first
/// such failure is an unknown error.
pub open spec fn event_put(event: SerializedEventView) -> Result<ConditionalPutView, ErrorView> {
    match json_encoding(event.payload) {
        Err(error) => Err(ErrorView::UnknownError(json_error_text(error))),
        Ok(payload) => match json_encoding(event.metadata) {
            Err(error) => Err(ErrorView::UnknownError(json_error_text(error))),
            Ok(metadata) => Ok(written_event(event, payload, metadata)),
        },
    }
}

/// The put operations that append a list of events, one for each event and
/// in the order of the events; or the failure of the first event that has
/// one.
pub open spec fn event_puts(events: Seq<SerializedEventView>) -> Result<
    Seq<ConditionalPutView>,
    ErrorView,
>
    decreases events.len(),
{
    if events.len() == 0 {
        Ok(Seq::empty())
    } else {
        match event_puts(events.drop_last()) {
            Err(error) => Err(error),
            Ok(puts) => match event_put(events.last()) {
                Err(error) => Err(error),
                Ok(put) => Ok(puts.push(put)),
            },
        }
    }
}

/// The sequence number of the last event of a list, or 0 for no event.
pub open spec fn last_sequence(events: Seq<SerializedEventView>) -> usize {
    if events.len() == 0 {
        0
    } else {
        events.last().sequence
    }
}

/// The put operations that append a list of events, with the sequence
/// number of the last event.
pub open spec fn sequenced_event_puts(events: Seq<SerializedEventView>) -> Result<
    (Seq<ConditionalPutView>, usize),
    ErrorView,
> {
    match event_puts(events) {
        Err(error) => Err(error),
        Ok(puts) => Ok((puts, last_sequence(events))),
    }
}

/// The outcome of building a list of put operations together with a
/// sequence number, by its view.
pub open spec fn puts_outcome(built: Result<(Vec<ConditionalPut>, usize), DynamoAggregateError>) -> Result<
    (Seq<ConditionalPutView>, usize),
    ErrorView,
> {
    match built {
        Ok((puts, sequence)) => Ok((puts_view(puts@), sequence)),
        Err(error) => Err(error@),
    }
}

/// The transaction that appends a list of events: their put operations,
/// provided that they can be built and fit in one transaction.
pub open spec fn append_transaction(events: Seq<SerializedEventView>) -> Result<
    Seq<ConditionalPutView>,
    ErrorView,
> {
    match event_puts(events) {
        Err(error) => Err(error),
        Ok(puts) => guarded(puts),
    }
}

/// The query for all the records of an aggregate in a table.
pub open spec fn aggregate_query(
    aggregate_type: Seq<char>,
    aggregate_id: Seq<char>,
    table: Seq<char>,
) -> PartitionQueryView {
    PartitionQueryView {
        table_name: table,
        key_condition_expression: "#agg_type_id = :agg_type_id"@,
        name_placeholder: "#agg_type_id"@,
        attribute_name: "AggregateTypeAndId"@,
        value_placeholder: ":agg_type_id"@,
        attribute_value: AttributeView::S(partition_key(aggregate_type, aggregate_id)),
    }
}

/// The event that a stored record holds, given what decoding its payload
/// and its metadata came to. The attributes are taken in the order
/// identifier, sequence number, aggregate type, event type, event version,
/// payload, metadata; the first one that fails gives the error.
pub open spec fn event_from(
    entry: Map<Seq<char>, AttributeView>,
    payload: Result<Value, ErrorView>,
    metadata: Result<Value, ErrorView>,
) -> Result<SerializedEventView, ErrorView> {
    match string_of(lookup(entry, "AggregateId"@)) {
        Err(error) => Err(error),
        Ok(aggregate_id) => match number_of(lookup(entry, "AggregateIdSequence"@)) {
            Err(error) => Err(error),
            Ok(sequence) => match string_of(lookup(entry, "AggregateType"@)) {
                Err(error) => Err(error),
                Ok(aggregate_type) => match string_of(lookup(entry, "EventType"@)) {
                    Err(error) => Err(error),
                    Ok(event_type) => match string_of(lookup(entry, "EventVersion"@)) {
                        Err(error) => Err(error),
                        Ok(event_version) => match payload {
                            Err(error) => Err(error),
                            Ok(payload) => match metadata {
                                Err(error) => Err(error),
                                Ok(metadata) => Ok(
                                    SerializedEventView {
                                        aggregate_id,
                                        sequence,
                                        aggregate_type,
                                        event_type,
                                        event_version,
                                        payload,
                                        metadata,
                                    },
                                ),
                            },
                        },
                    },
                },
            },
        },
    }
}

/// The event that a stored record holds, its payload and its metadata read
/// from the JSON bytes of their attributes.
pub open spec fn decoded_event(entry: Map<Seq<char>, AttributeView>) -> Result<
    SerializedEventView,
    ErrorView,
> {
    event_from(entry, value_of(lookup(entry, "Payload"@)), value_of(lookup(entry, "Metadata"@)))
}

/// The outcome of decoding an event, by its view.
pub open spec fn event_outcome(decoded: Result<SerializedEvent, DynamoAggregateError>) -> Result<
    SerializedEventView,
    ErrorView,
> {
    match decoded {
        Ok(event) => Ok(event@),
        Err(error) => Err(error@),
    }
}

/// The outcome of decoding a list of events, by its view.
pub open spec fn events_outcome(decoded: Result<Vec<SerializedEvent>, DynamoAggregateError>) -> Result<
    Seq<SerializedEventView>,
    ErrorView,
> {
    match decoded {
        Ok(events) => Ok(events_view(events@)),
        Err(error) => Err(error@),
    }
}

/// The outcome of building a put operation, by its view.
pub open spec fn put_outcome(built: Result<ConditionalPut, DynamoAggregateError>) -> Result<
    ConditionalPutView,
    ErrorView,
> {
    match built {
        Ok(put) => Ok(put@),
        Err(error) => Err(error@),
    }
}

/// The events that a list of stored records holds, one for each record and
/// in the order of the records; or the error of the first record that
/// cannot be decoded.
pub open spec fn decoded_events(entries: Seq<Map<Seq<char>, AttributeView>>) -> Result<
    Seq<SerializedEventView>,
    ErrorView,
>
    decreases entries.len(),
{
    if entries.len() == 0 {
        Ok(Seq::empty())
    } else {
        match decoded_events(entries.drop_last()) {
            Err(error) => Err(error),
            Ok(events) => match decoded_event(entries.last()) {
                Err(error) => Err(error),
                Ok(event) => Ok(events.push(event)),
            },
        }
    }
}

/// The events that the output of a query holds: none where the store
/// returned no list.
pub open spec fn queried_events(output: Option<Seq<Map<Seq<char>, AttributeView>>>) -> Result<
    Seq<SerializedEventView>,
    ErrorView,
> {
    match output {
        None => Ok(Seq::empty()),
        Some(entries) => decoded_events(entries),
    }
}

/// A failure among the first events of a list is the failure of the list.
proof fn lemma_event_puts_failure(events: Seq<SerializedEventView>, k: int)
    requires
        0 <= k <= events.len(),
        event_puts(events.take(k)) is Err,
    ensures
        event_puts(events) == event_puts(events.take(k)),
    decreases events.len(),
{
    if k < events.len() {
        assert(events.drop_last().take(k) =~= events.take(k));
        lemma_event_puts_failure(events.drop_last(), k);
    } else {
        assert(events.take(k) =~= events);
    }
}

/// An undecodable record among the first records of a list is the error of
/// the list.
proof fn lemma_decoded_events_failure(entries: Seq<Map<Seq<char>, AttributeView>>, k: int)
    requires
        0 <= k <= entries.len(),
        decoded_events(entries.take(k)) is Err,
    ensures
        decoded_events(entries) == decoded_events(entries.take(k)),
    decreases entries.len(),
{
    if k < entries.len() {
        assert(entries.drop_last().take(k) =~= entries.take(k));
        lemma_decoded_events_failure(entries.drop_last(), k);
    } else {
        assert(entries.take(k) =~= entries);
    }
}

/// Builds the key of the partition of an aggregate.
pub(crate) fn aggregate_key(aggregate_type: &str, aggregate_id: &str) -> (key: String)
    ensures
        key@ == partition_key(aggregate_type@, aggregate_id@),
{
    let mut key = String::from_str(aggregate_type);
    key.append(":");
    key.append(aggregate_id);
    key
}

/// Builds the put operation that appends an event whose payload and
/// metadata have been written as the given bytes.
pub fn event_put_from(event: &SerializedEvent, payload_blob: Vec<u8>, metadata_blob: Vec<u8>) -> (put:
    ConditionalPut)
    ensures
        put@ == written_event(event@, payload_blob@, metadata_blob@),
{
    let mut item = Item::new();
    item.insert(
        "AggregateTypeAndId",
        Attribute::S(aggregate_key(event.aggregate_type.as_str(), event.aggregate_id.as_str())),
    );
    item.insert("AggregateIdSequence", Attribute::N(usize_to_decimal(event.sequence)));
    item.insert("AggregateType", Attribute::S(event.aggregate_type.clone()));
    item.insert("AggregateId", Attribute::S(event.aggregate_id.clone()));
    item.insert("EventVersion", Attribute::S(event.event_version.clone()));
    item.insert("EventType", Attribute::S(event.event_type.clone()));
    item.insert("Payload", Attribute::B(payload_blob));
    item.insert("Metadata", Attribute::B(metadata_blob));
    ConditionalPut {
        table_name: String::from_str(EVENT_TABLE),
        item,
        condition: Condition::AttributeNotExists {
            attribute: String::from_str("AggregateIdSequence"),
        },
    }
}

/// Builds the put operation that appends an event: writes its payload and
/// its metadata as JSON, then builds the put operation from the bytes.
pub fn build_event_put(event: &SerializedEvent) -> (built: Result<
    ConditionalPut,
    DynamoAggregateError,
>)
    ensures
        put_outcome(built) == event_put(event@),
{
    let payload_blob = match json_to_vec(&event.payload) {
        Ok(bytes) => bytes,
        Err(error) => {
            return Err(DynamoAggregateError::from_json_error(error));
        },
    };
    let metadata_blob = match json_to_vec(&event.metadata) {
        Ok(bytes) => bytes,
        Err(error) => {
            return Err(DynamoAggregateError::from_json_error(error));
        },
    };
    Ok(event_put_from(event, payload_blob, metadata_blob))
}

/// Decodes a stored record into the event that it holds, given what
/// decoding its payload and its metadata came to.
pub fn serialized_event_from(
    entry: &Item,
    payload: Result<Value, DynamoAggregateError>,
    metadata: Result<Value, DynamoAggregateError>,
) -> (decoded: Result<SerializedEvent, DynamoAggregateError>)
    ensures
        event_outcome(decoded) == event_from(
            entry@,
            value_outcome(payload),
            value_outcome(metadata),
        ),
{
    let aggregate_id = match att_as_string(entry.get("AggregateId")) {
        Ok(text) => text,
        Err(error) => {
            return Err(error);
        },
    };
    let sequence = match att_as_number(entry.get("AggregateIdSequence")) {
        Ok(number) => number,
        Err(error) => {
            return Err(error);
        },
    };
    let aggregate_type = match att_as_string(entry.get("AggregateType")) {
        Ok(text) => text,
        Err(error) => {
            return Err(error);
        },
    };
    let event_type = match att_as_string(entry.get("EventType")) {
        Ok(text) => text,
        Err(error) => {
            return Err(error);
        },
    };
    let event_version = match att_as_string(entry.get("EventVersion")) {
        Ok(text) => text,
        Err(error) => {
            return Err(error);
        },
    };
    let payload = match payload {
        Ok(value) => value,
        Err(error) => {
            return Err(error);
        },
    };
    let metadata = match metadata {
        Ok(value) => value,
        Err(error) => {
            return Err(error);
        },
    };
    Ok(
        SerializedEvent {
            aggregate_id,
            sequence,
            aggregate_type,
            event_type,
            event_version,
            payload,
            metadata,
        },
    )
}

/// Decodes a stored record into the event that it holds: reads its payload
/// and its metadata from the JSON bytes of their attributes, then decodes
/// the record with them.
pub fn serialized_event(entry: &Item) -> (decoded: Result<SerializedEvent, DynamoAggregateError>)
    ensures
        event_outcome(decoded) == decoded_event(entry@),
{
    let payload = att_as_value(entry.get("Payload"));
    let metadata = att_as_value(entry.get("Metadata"));
    serialized_event_from(entry, payload, metadata)
}

/// The event repository. It holds no state: every operation is a function
/// of its arguments.
#[derive(Debug, Clone, Copy, PartialEq, Eq)]
pub struct DynamoEventRepository {}

impl DynamoEventRepository {
    /// Creates an event repository.
    pub fn new() -> (repository: DynamoEventRepository)
        ensures
            repository == (DynamoEventRepository {  }),
    {
        DynamoEventRepository {  }
    }

    /// Builds one conditional put operation for each event, in the order of
    /// the events, and returns them with the sequence number of the last
    /// event (0 where there is no event).
    pub fn build_event_put_transactions(events: &[SerializedEvent]) -> (built: Result<
        (Vec<ConditionalPut>, usize),
        DynamoAggregateError,
    >)
        ensures
            puts_outcome(built) == sequenced_event_puts(events_view(events@)),
    {
        let mut current_sequence: usize = 0;
        let mut transactions: Vec<ConditionalPut> = Vec::new();
        let ghost all = events_view(events@);
        let mut i: usize = 0;
        assert(all.take(0) =~= Seq::<SerializedEventView>::empty());
        assert(puts_view(transactions@) =~= Seq::<ConditionalPutView>::empty());
        while i < events.len()
            invariant
                i <= events.len(),
                all == events_view(events@),
                event_puts(all.take(i as int)) == Ok::<Seq<ConditionalPutView>, ErrorView>(
                    puts_view(transactions@),
                ),
                current_sequence == last_sequence(all.take(i as int)),
            decreases events.len() - i,
        {
            let event = &events[i];
            current_sequence = event.sequence;
            proof {
                assert(all.take(i + 1).drop_last() =~= all.take(i as int));
                assert(all.take(i + 1).last() == event@);
            }
            match build_event_put(event) {
                Ok(put) => {
                    proof {
                        assert(puts_view(transactions@.push(put)) =~= puts_view(transactions@).push(
                            put@,
                        ));
                    }
                    transactions.push(put);
                },
                Err(error) => {
                    proof {
                        lemma_event_puts_failure(all, i + 1);
                    }
                    return Err(error);
                },
            }
            i = i + 1;
        }
        assert(all.take(i as int) =~= all);
        Ok((transactions, current_sequence))
    }

    /// Builds the transaction that appends events: one conditional put for
    /// each event, all of them committed or none.
    pub fn insert_events(&self, events: &[SerializedEvent]) -> (built: Result<
        Transaction,
        DynamoAggregateError,
    >)
        ensures
            transaction_outcome(built) == append_transaction(events_view(events@)),
    {
        match Self::build_event_put_transactions(events) {
            Ok((transactions, _)) => commit_transactions(transactions),
            Err(error) => Err(error),
        }
    }

    /// Builds the query for all the records of an aggregate in a table.
    pub fn query_table(&self, aggregate_type: &str, aggregate_id: &str, table: &str) -> (query:
        PartitionQuery)
        ensures
            query@ == aggregate_query(aggregate_type@, aggregate_id@, table@),
    {
        PartitionQuery {
            table_name: String::from_str(table),
            key_condition_expression: String::from_str("#agg_type_id = :agg_type_id"),
            name_placeholder: String::from_str("#agg_type_id"),
            attribute_name: String::from_str("AggregateTypeAndId"),
            value_placeholder: String::from_str(":agg_type_id"),
            attribute_value: Attribute::S(aggregate_key(aggregate_type, aggregate_id)),
        }
    }

    /// Decodes the output of a query on the events table into the events of
    /// the aggregate, in the order in which the store returned them.
    pub fn query_events(&self, query_output: &QueryOutput) -> (decoded: Result<
        Vec<SerializedEvent>,
        DynamoAggregateError,
    >)
        ensures
            events_outcome(decoded) == queried_events(query_output@),
    {
        let mut result: Vec<SerializedEvent> = Vec::new();
        assert(events_view(result@) =~= Seq::<SerializedEventView>::empty());
        if let Some(entries) = &query_output.items {
            let ghost all = items_view(entries@);
            let mut i: usize = 0;
            assert(all.take(0) =~= Seq::<Map<Seq<char>, AttributeView>>::empty());
            while i < entries.len()
                invariant
                    i <= entries.len(),
                    all == items_view(entries@),
                    query_output@ == Some(all),
                    decoded_events(all.take(i as int)) == Ok::<Seq<SerializedEventView>, ErrorView>(
                        events_view(result@),
                    ),
                decreases entries.len() - i,
            {
                proof {
                    assert(all.take(i + 1).drop_last() =~= all.take(i as int));
                    assert(all.take(i + 1).last() == entries@[i as int]@);
                }
                match serialized_event(&entries[i]) {
                    Ok(event) => {
                        proof {
                            assert(events_view(result@.push(event)) =~= events_view(result@).push(
                                event@,
                            ));
                        }
                        result.push(event);
                    },
                    Err(error) => {
                        proof {
                            lemma_decoded_events_failure(all, i + 1);
                        }
                        return Err(error);
                    },
                }
                i = i + 1;
            }
            assert(all.take(i as int) =~= all);
        }
        Ok(result)
    }
}

/// The put operations of a list of events are as many as the events, and
/// each is the put operation of the event at the same place.
pub proof fn lemma_event_puts_in_order(
    events: Seq<SerializedEventView>,
    puts: Seq<ConditionalPutView>,
)
    requires
        event_puts(events) == Ok::<Seq<ConditionalPutView>, ErrorView>(puts),
    ensures
        puts.len() == events.len(),
        forall|i: int|
            0 <= i < events.len() ==> event_put(#[trigger] events[i]) == Ok::<
                ConditionalPutView,
                ErrorView,
            >(puts[i]),
    decreases events.len(),
{
    if events.len() > 0 {
        let first_puts = event_puts(events.drop_last())->Ok_0;
        lemma_event_puts_in_order(events.drop_last(), first_puts);
        assert forall|i: int| 0 <= i < events.len() implies event_put(#[trigger] events[i]) == Ok::<
            ConditionalPutView,
            ErrorView,
        >(puts[i]) by {
            if i < events.len() - 1 {
                assert(events.drop_last()[i] == events[i]);
            }
        }
    }
}

/// Where the put operations of a list of events cannot be built, the error
/// is that of the first event whose put operation cannot be built.
pub proof fn lemma_event_puts_first_failure(events: Seq<SerializedEventView>, error: ErrorView)
    requires
        event_puts(events) == Err::<Seq<ConditionalPutView>, ErrorView>(error),
    ensures
        exists|k: int|
            0 <= k < events.len() && #[trigger] event_put(events[k]) == Err::<
                ConditionalPutView,
                ErrorView,
            >(error) && forall|j: int| 0 <= j < k ==> (#[trigger] event_put(events[j])) is Ok,
    decreases events.len(),
{
    if events.len() > 0 {
        let rest = events.drop_last();
        match event_puts(rest) {
            Err(_) => {
                lemma_event_puts_first_failure(rest, error);
                let k = choose|k: int|
                    0 <= k < rest.len() && #[trigger] event_put(rest[k]) == Err::<
                        ConditionalPutView,
                        ErrorView,
                    >(error) && forall|j: int| 0 <= j < k ==> (#[trigger] event_put(rest[j])) is Ok;
                assert(rest[k] == events[k]);
                assert forall|j: int| 0 <= j < k implies (#[trigger] event_put(events[j])) is Ok by {
                    assert(rest[j] == events[j]);
                }
                assert(event_put(events[k]) == Err::<ConditionalPutView, ErrorView>(error));
            },
            Ok(puts) => {
                lemma_event_puts_in_order(rest, puts);
                let k = events.len() - 1;
                assert forall|j: int| 0 <= j < k implies (#[trigger] event_put(events[j])) is Ok by {
                    assert(rest[j] == events[j]);
                }
                assert(event_put(events[k]) == Err::<ConditionalPutView, ErrorView>(error));
            },
        }
    }
}

/// Where the records of a list cannot all be decoded, the error is that of
/// the first record that cannot be decoded.
pub proof fn lemma_decoded_events_first_failure(
    entries: Seq<Map<Seq<char>, AttributeView>>,
    error: ErrorView,
)
    requires
        decoded_events(entries) == Err::<Seq<SerializedEventView>, ErrorView>(error),
    ensures
        exists|k: int|
            0 <= k < entries.len() && #[trigger] decoded_event(entries[k]) == Err::<
                SerializedEventView,
                ErrorView,
            >(error) && forall|j: int| 0 <= j < k ==> (#[trigger] decoded_event(entries[j])) is Ok,
    decreases entries.len(),
{
    if entries.len() > 0 {
        let rest = entries.drop_last();
        match decoded_events(rest) {
            Err(_) => {
                lemma_decoded_events_first_failure(rest, error);
                let k = choose|k: int|
                    0 <= k < rest.len() && #[trigger] decoded_event(rest[k]) == Err::<
                        SerializedEventView,
                        ErrorView,
                    >(error) && forall|j: int|
                        0 <= j < k ==> (#[trigger] decoded_event(rest[j])) is Ok;
                assert(rest[k] == entries[k]);
                assert forall|j: int| 0 <= j < k implies (#[trigger] decoded_event(
                    entries[j],
                )) is Ok by {
                    assert(rest[j] == entries[j]);
                }
                assert(decoded_event(entries[k]) == Err::<SerializedEventView, ErrorView>(error));
            },
            Ok(events) => {
                lemma_decoded_events_in_order(rest, events);
                let k = entries.len() - 1;
                assert forall|j: int| 0 <= j < k implies (#[trigger] decoded_event(
                    entries[j],
                )) is Ok by {
                    assert(rest[j] == entries[j]);
                }
                assert(decoded_event(entries[k]) == Err::<SerializedEventView, ErrorView>(error));
            },
        }
    }
}

/// The events decoded from a list of records are as many as the records,
/// and each is the event of the record at the same place: the order in
/// which the store returned the records is the order of the events.
pub proof fn lemma_decoded_events_in_order(
    entries: Seq<Map<Seq<char>, AttributeView>>,
    events: Seq<SerializedEventView>,
)
    requires
        decoded_events(entries) == Ok::<Seq<SerializedEventView>, ErrorView>(events),
    ensures
        events.len() == entries.len(),
        forall|i: int|
            0 <= i < entries.len() ==> decoded_event(#[trigger] entries[i]) == Ok::<
                SerializedEventView,
                ErrorView,
            >(events[i]),
    decreases entries.len(),
{
    if entries.len() > 0 {
        let first_events = decoded_events(entries.drop_last())->Ok_0;
        lemma_decoded_events_in_order(entries.drop_last(), first_events);
        assert forall|i: int| 0 <= i < entries.len() implies decoded_event(
            #[trigger] entries[i],
        ) == Ok::<SerializedEventView, ErrorView>(events[i]) by {
            if i < entries.len() - 1 {
                assert(entries.drop_last()[i] == entries[i]);
            }
        }
    }
}

/// The order of the store is the order of the events: where the records
/// of a query decode to events, an event that comes later in the list was
/// decoded from a record that comes later in the output. So events are
/// loaded in ascending sequence wherever the store returns their records
/// so.
pub proof fn lemma_ascending_order_kept(
    entries: Seq<Map<Seq<char>, AttributeView>>,
    events: Seq<SerializedEventView>,
)
    requires
        decoded_events(entries) == Ok::<Seq<SerializedEventView>, ErrorView>(events),
        forall|i: int, j: int|
            0 <= i < j < entries.len() ==> (#[trigger] decoded_event(entries[i]))->Ok_0.sequence < (
            #[trigger] decoded_event(entries[j]))->Ok_0.sequence,
    ensures
        forall|i: int, j: int|
            0 <= i < j < events.len() ==> (#[trigger] events[i]).sequence < (
            #[trigger] events[j]).sequence,
{
    lemma_decoded_events_in_order(entries, events);
    assert forall|i: int, j: int| 0 <= i < j < events.len() implies (#[trigger] events[i]).sequence
        < (#[trigger] events[j]).sequence by {
        assert(decoded_event(entries[i]) == Ok::<SerializedEventView, ErrorView>(events[i]));
        assert(decoded_event(entries[j]) == Ok::<SerializedEventView, ErrorView>(events[j]));
    }
}

/// The names of the attributes of an event record differ from each other.
pub proof fn lemma_event_names_differ()
    ensures
        "AggregateTypeAndId"@.len() == 18,
        "AggregateIdSequence"@.len() == 19,
        "AggregateType"@.len() == 13,
        "AggregateId"@.len() == 11,
        "EventVersion"@.len() == 12,
        "EventType"@.len() == 9,
        "Payload"@.len() == 7,
        "Metadata"@.len() == 8,
{
    reveal_strlit("AggregateTypeAndId");
    reveal_strlit("AggregateIdSequence");
    reveal_strlit("AggregateType");
    reveal_strlit("AggregateId");
    reveal_strlit("EventVersion");
    reveal_strlit("EventType");
    reveal_strlit("Payload");
    reveal_strlit("Metadata");
}

/// The record of an event is written under the key of the event: the
/// partition of its aggregate and, as sort key, its sequence number. The
/// put operation is conditioned on the absence of a record with that sort
/// key attribute.
pub proof fn lemma_event_key(event: SerializedEventView, put: ConditionalPutView)
    requires
        event_put(event) == Ok::<ConditionalPutView, ErrorView>(put),
    ensures
        put.table_name == EVENT_TABLE@,
        lookup(put.item, "AggregateTypeAndId"@) == Some(
            AttributeView::S(partition_key(event.aggregate_type, event.aggregate_id)),
        ),
        lookup(put.item, "AggregateIdSequence"@) == Some(
            AttributeView::N(decimal_digits(event.sequence as nat)),
        ),
        put.condition == (ConditionView::AttributeNotExists { attribute: "AggregateIdSequence"@ }),
{
    lemma_event_names_differ();
}

/// Events with different sequence numbers are written under different sort
/// keys.
pub proof fn lemma_sort_keys_differ(first: SerializedEventView, second: SerializedEventView)
    requires
        first.sequence != second.sequence,
    ensures
        decimal_digits(first.sequence as nat) != decimal_digits(second.sequence as nat),
{
    if decimal_digits(first.sequence as nat) == decimal_digits(second.sequence as nat) {
        lemma_decimal_injective(first.sequence as nat, second.sequence as nat);
    }
}

/// The first writer wins: the store may write the put operation of an
/// event where nothing is stored under the key of the event, and may not
/// where the record of an event is stored there, whatever that event holds.
pub proof fn lemma_first_writer_wins(
    event: SerializedEventView,
    put: ConditionalPutView,
    stored: SerializedEventView,
    stored_payload: Seq<u8>,
    stored_metadata: Seq<u8>,
)
    requires
        event_put(event) == Ok::<ConditionalPutView, ErrorView>(put),
    ensures
        put.condition.holds(None),
        !put.condition.holds(Some(event_item(stored, stored_payload, stored_metadata))),
{
    lemma_event_names_differ();
}

/// The condition of the put operation of an event is written as the store
/// reads it.
pub proof fn lemma_event_condition_text(event: SerializedEventView, put: ConditionalPutView)
    requires
        event_put(event) == Ok::<ConditionalPutView, ErrorView>(put),
    ensures
        put.condition.expression() == "attribute_not_exists( AggregateIdSequence )"@,
        put.condition.expression_attribute_values() is None,
{
    reveal_strlit("attribute_not_exists( ");
    reveal_strlit("AggregateIdSequence");
    reveal_strlit(" )");
    reveal_strlit("attribute_not_exists( AggregateIdSequence )");
    assert("attribute_not_exists( "@ + "AggregateIdSequence"@ + " )"@
        =~= "attribute_not_exists( AggregateIdSequence )"@);
}

/// More events than one transaction may carry are refused with their
/// number, and as many or fewer are admitted as they are, wherever their
/// put operations can be built.
pub proof fn lemma_append_limit(events: Seq<SerializedEventView>)
    requires
        event_puts(events) is Ok,
    ensures
        events.len() > 25 ==> append_transaction(events) == Err::<
            Seq<ConditionalPutView>,
            ErrorView,
        >(ErrorView::TransactionListTooLong(events.len() as usize)),
        events.len() <= 25 ==> append_transaction(events) == event_puts(events),
{
    lemma_event_puts_in_order(events, event_puts(events)->Ok_0);
}

/// An event is read back as it was written: where the bytes of its payload
/// and of its metadata are read back as the JSON values they were written
/// from, the record of the event decodes to the event.
pub proof fn lemma_event_round_trip(
    event: SerializedEventView,
    payload: Seq<u8>,
    metadata: Seq<u8>,
)
    ensures
        json_decoding(payload) == Ok::<Value, serde_json::Error>(event.payload) && json_decoding(
            metadata,
        ) == Ok::<Value, serde_json::Error>(event.metadata) ==> decoded_event(
            event_item(event, payload, metadata),
        ) == Ok::<SerializedEventView, ErrorView>(event),
{
    lemma_event_names_differ();
    lemma_decimal_round_trip(event.sequence as nat);
}

/// Whether a JSON value is read back from the bytes that are written for
/// it.
pub open spec fn reads_back(value: Value) -> bool {
    match json_encoding(value) {
        Ok(bytes) => json_decoding(bytes) == Ok::<Value, serde_json::Error>(value),
        Err(_) => false,
    }
}

/// The records that a list of put operations writes, in order.
pub open spec fn written_items(puts: Seq<ConditionalPutView>) -> Seq<Map<Seq<char>, AttributeView>> {
    puts.map_values(|put: ConditionalPutView| put.item)
}

/// Records that each decode to an event decode, as a list, to the list of
/// these events.
proof fn lemma_decoded_events_of_each(
    entries: Seq<Map<Seq<char>, AttributeView>>,
    events: Seq<SerializedEventView>,
)
    requires
        entries.len() == events.len(),
        forall|i: int|
            0 <= i < entries.len() ==> decoded_event(#[trigger] entries[i]) == Ok::<
                SerializedEventView,
                ErrorView,
            >(events[i]),
    ensures
        decoded_events(entries) == Ok::<Seq<SerializedEventView>, ErrorView>(events),
    decreases entries.len(),
{
    if entries.len() > 0 {
        assert forall|i: int| 0 <= i < entries.len() - 1 implies decoded_event(
            #[trigger] entries.drop_last()[i],
        ) == Ok::<SerializedEventView, ErrorView>(events.drop_last()[i]) by {
            assert(entries.drop_last()[i] == entries[i]);
        }
        lemma_decoded_events_of_each(entries.drop_last(), events.drop_last());
        assert(decoded_event(entries[entries.len() - 1]) == Ok::<SerializedEventView, ErrorView>(
            events[entries.len() - 1],
        ));
        assert(events.drop_last().push(events.last()) =~= events);
    } else {
        assert(events =~= Seq::<SerializedEventView>::empty());
    }
}

/// What an append writes, a load reads back: where the payload and the
/// metadata of every event are read back from the bytes written for them,
/// the records that the put operations of the events write decode to these
/// very events, in the same order.
pub proof fn lemma_append_then_load(
    events: Seq<SerializedEventView>,
    puts: Seq<ConditionalPutView>,
)
    requires
        event_puts(events) == Ok::<Seq<ConditionalPutView>, ErrorView>(puts),
    ensures
        (forall|i: int|
            0 <= i < events.len() ==> reads_back((#[trigger] events[i]).payload) && reads_back(
                events[i].metadata,
            )) ==> decoded_events(written_items(puts)) == Ok::<Seq<SerializedEventView>, ErrorView>(
            events,
        ),
{
    if forall|i: int|
        0 <= i < events.len() ==> reads_back((#[trigger] events[i]).payload) && reads_back(
            events[i].metadata,
        ) {
        lemma_event_puts_in_order(events, puts);
        let entries = written_items(puts);
        assert forall|i: int| 0 <= i < entries.len() implies decoded_event(
            #[trigger] entries[i],
        ) == Ok::<SerializedEventView, ErrorView>(events[i]) by {
            let event = events[i];
            assert(reads_back(event.payload) && reads_back(event.metadata));
            assert(event_put(event) == Ok::<ConditionalPutView, ErrorView>(puts[i]));
            lemma_event_round_trip(
                event,
                json_encoding(event.payload)->Ok_0,
                json_encoding(event.metadata)->Ok_0,
            );
        }
        lemma_decoded_events_of_each(entries, events);
    }
}

/// An aggregate without records has no events, and that is no error: so it
/// is where the store returns no list and where it returns an empty one.
pub proof fn lemma_absent_events()
    ensures
        queried_events(None) == Ok::<Seq<SerializedEventView>, ErrorView>(Seq::empty()),
        queried_events(Some(Seq::empty())) == Ok::<Seq<SerializedEventView>, ErrorView>(
            Seq::empty(),
        ),
{
}

} // verus!
