//! The closed set of errors of the adapter, how the failures of the store
//! fall into it, and how it maps onto the errors of the command framework.
use crate::decimal::{decimal_digits, usize_to_decimal};
use crate::json::{json_error_message, json_error_text};
use vstd::prelude::*;

verus! {

/// An error of the adapter. `ConnectionError`, `DeserializationError` and
/// `UnknownError` carry the text of the underlying cause.
#[derive(Debug, Clone, PartialEq, Eq)]
pub enum DynamoAggregateError {
    /// The condition of a write did not hold: another writer came first.
    OptimisticLock,
    /// The store could not be reached.
    ConnectionError(String),
    /// A stored record could not be decoded.
    DeserializationError(String),
    /// More operations than one transaction can carry; holds their number.
    TransactionListTooLong(usize),
    /// Any other failure.
    UnknownError(String),
}

/// The mathematical value of a `DynamoAggregateError`.
pub enum ErrorView {
    OptimisticLock,
    ConnectionError(Seq<char>),
    DeserializationError(Seq<char>),
    TransactionListTooLong(usize),
    UnknownError(Seq<char>),
}

impl View for DynamoAggregateError {
    type V = ErrorView;

    open spec fn view(&self) -> ErrorView {
        match self {
            DynamoAggregateError::OptimisticLock => ErrorView::OptimisticLock,
            DynamoAggregateError::ConnectionError(cause) => ErrorView::ConnectionError(cause@),
            DynamoAggregateError::DeserializationError(cause) => ErrorView::DeserializationError(
                cause@,
            ),
            DynamoAggregateError::TransactionListTooLong(length) => {
                ErrorView::TransactionListTooLong(*length)
            },
            DynamoAggregateError::UnknownError(cause) => ErrorView::UnknownError(cause@),
        }
    }
}

impl ErrorView {
    /// The text that describes an error.
    pub open spec fn message(self) -> Seq<char> {
        match self {
            ErrorView::OptimisticLock => "optimistic lock error"@,
            ErrorView::ConnectionError(cause) => cause,
            ErrorView::DeserializationError(cause) => cause,
            ErrorView::TransactionListTooLong(length) => "Too many operations: "@
                + decimal_digits(length as nat)
                + ", DynamoDb supports only up to 25 operations per transactions"@,
            ErrorView::UnknownError(cause) => cause,
        }
    }
}

impl DynamoAggregateError {
    /// The text that describes the error.
    pub fn message(&self) -> (text: String)
        ensures
            text@ == self@.message(),
    {
        match self {
            DynamoAggregateError::OptimisticLock => String::from_str("optimistic lock error"),
            DynamoAggregateError::ConnectionError(cause) => cause.clone(),
            DynamoAggregateError::DeserializationError(cause) => cause.clone(),
            DynamoAggregateError::TransactionListTooLong(length) => {
                let mut text = String::from_str("Too many operations: ");
                let digits = usize_to_decimal(*length);
                text.append(digits.as_str());
                text.append(", DynamoDb supports only up to 25 operations per transactions");
                text
            },
            DynamoAggregateError::UnknownError(cause) => cause.clone(),
        }
    }

    /// The error for a failure of `serde_json`: an `UnknownError` with the
    /// text of the failure.
    pub fn from_json_error(error: serde_json::Error) -> (mapped: DynamoAggregateError)
        ensures
            mapped@ == ErrorView::UnknownError(json_error_text(error)),
    {
        DynamoAggregateError::UnknownError(json_error_message(&error))
    }
}

/// The code by which the store marks the operation of a cancelled
/// transaction whose condition did not hold.
pub const CONDITIONAL_CHECK_FAILED: &'static str = "ConditionalCheckFailed";

/// Why the store cancelled one operation of a transaction.
#[derive(Debug, Clone, PartialEq, Eq)]
pub struct CancellationReason {
    /// The code of the reason, where the store gave one.
    pub code: Option<String>,
}

/// An error that the store itself reported for a transaction.
#[derive(Debug, Clone, PartialEq, Eq)]
pub enum TransactWriteItemsError {
    /// The store cancelled the transaction; it may give one reason for each
    /// operation.
    TransactionCanceled { cause: String, cancellation_reasons: Option<Vec<CancellationReason>> },
    /// The store was not able to serve the request.
    ServiceUnavailable { cause: String },
    /// Any other error of the store.
    Other { cause: String },
}

/// An error that the store itself reported for a query.
#[derive(Debug, Clone, PartialEq, Eq)]
pub enum QueryError {
    /// The store was not able to serve the request.
    ServiceUnavailable { cause: String },
    /// Any other error of the store.
    Other { cause: String },
}

/// How a call to the store failed, as the client of the store reports it.
/// `E` is the error of the store itself. Every other variant holds the text
/// of its cause.
#[derive(Debug, Clone, PartialEq, Eq)]
pub enum SdkError<E> {
    /// The request could not be built from the configuration; nothing was
    /// sent.
    ConstructionFailure(String),
    /// The request timed out.
    TimeoutError(String),
    /// The request could not be sent, or no response came back.
    DispatchFailure(String),
    /// A response came back that the client could not read.
    ResponseError(String),
    /// The store answered with an error.
    ServiceError(E),
    /// A failure of none of these shapes.
    Unclassified(String),
}

impl CancellationReason {
    /// Whether the reason is a condition that did not hold.
    pub open spec fn is_failed_condition(self) -> bool {
        match self.code {
            Some(code) => code@ == CONDITIONAL_CHECK_FAILED@,
            None => false,
        }
    }
}

/// Whether one of the reasons of a cancelled transaction is a condition that
/// did not hold.
pub open spec fn has_failed_condition(reasons: Seq<CancellationReason>) -> bool {
    exists|i: int| 0 <= i < reasons.len() && (#[trigger] reasons[i]).is_failed_condition()
}

/// The error of the adapter for an error that the store reported for a
/// transaction: an optimistic lock where a condition did not hold, a
/// connection error where the store was unavailable, else an unknown error.
pub open spec fn transaction_service_error(error: TransactWriteItemsError) -> ErrorView {
    match error {
        TransactWriteItemsError::TransactionCanceled { cause, cancellation_reasons } => {
            match cancellation_reasons {
                Some(reasons) => if has_failed_condition(reasons@) {
                    ErrorView::OptimisticLock
                } else {
                    ErrorView::UnknownError(cause@)
                },
                None => ErrorView::UnknownError(cause@),
            }
        },
        TransactWriteItemsError::ServiceUnavailable { cause } => ErrorView::ConnectionError(cause@),
        TransactWriteItemsError::Other { cause } => ErrorView::UnknownError(cause@),
    }
}

/// The error of the adapter for an error that the store reported for a
/// query.
pub open spec fn query_service_error(error: QueryError) -> ErrorView {
    match error {
        QueryError::ServiceUnavailable { cause } => ErrorView::ConnectionError(cause@),
        QueryError::Other { cause } => ErrorView::UnknownError(cause@),
    }
}

/// The error of the adapter for a failed transaction. A request that could
/// not be built or sent, or that timed out, is a connection error; an
/// unreadable response is an unknown error.
pub open spec fn transaction_failure(failure: SdkError<TransactWriteItemsError>) -> ErrorView {
    match failure {
        SdkError::ConstructionFailure(cause) => ErrorView::ConnectionError(cause@),
        SdkError::TimeoutError(cause) => ErrorView::ConnectionError(cause@),
        SdkError::DispatchFailure(cause) => ErrorView::ConnectionError(cause@),
        SdkError::ResponseError(cause) => ErrorView::UnknownError(cause@),
        SdkError::ServiceError(error) => transaction_service_error(error),
        SdkError::Unclassified(cause) => ErrorView::UnknownError(cause@),
    }
}

/// The error of the adapter for a failed query.
pub open spec fn query_failure(failure: SdkError<QueryError>) -> ErrorView {
    match failure {
        SdkError::ConstructionFailure(cause) => ErrorView::ConnectionError(cause@),
        SdkError::TimeoutError(cause) => ErrorView::ConnectionError(cause@),
        SdkError::DispatchFailure(cause) => ErrorView::ConnectionError(cause@),
        SdkError::ResponseError(cause) => ErrorView::UnknownError(cause@),
        SdkError::ServiceError(error) => query_service_error(error),
        SdkError::Unclassified(cause) => ErrorView::UnknownError(cause@),
    }
}

/// Looks through the reasons of a cancelled transaction for a condition that
/// did not hold.
fn failed_condition_among(reasons: &Vec<CancellationReason>) -> (found: bool)
    ensures
        found == has_failed_condition(reasons@),
{
    let wanted = String::from_str(CONDITIONAL_CHECK_FAILED);
    let mut i: usize = 0;
    while i < reasons.len()
        invariant
            i <= reasons.len(),
            wanted@ == CONDITIONAL_CHECK_FAILED@,
            forall|j: int| 0 <= j < i ==> !(#[trigger] reasons@[j]).is_failed_condition(),
        decreases reasons.len() - i,
    {
        if let Some(code) = &reasons[i].code {
            if *code == wanted {
                return true;
            }
        }
        i = i + 1;
    }
    false
}

impl DynamoAggregateError {
    /// Classifies the failure of a transaction.
    pub fn from_transaction_failure(failure: SdkError<TransactWriteItemsError>) -> (mapped:
        DynamoAggregateError)
        ensures
            mapped@ == transaction_failure(failure),
    {
        match failure {
            SdkError::ConstructionFailure(cause) => DynamoAggregateError::ConnectionError(cause),
            SdkError::TimeoutError(cause) => DynamoAggregateError::ConnectionError(cause),
            SdkError::DispatchFailure(cause) => DynamoAggregateError::ConnectionError(cause),
            SdkError::ResponseError(cause) => DynamoAggregateError::UnknownError(cause),
            SdkError::ServiceError(error) => match error {
                TransactWriteItemsError::TransactionCanceled { cause, cancellation_reasons } => {
                    if let Some(reasons) = &cancellation_reasons {
                        if failed_condition_among(reasons) {
                            return DynamoAggregateError::OptimisticLock;
                        }
                    }
                    DynamoAggregateError::UnknownError(cause)
                },
                TransactWriteItemsError::ServiceUnavailable { cause } => {
                    DynamoAggregateError::ConnectionError(cause)
                },
                TransactWriteItemsError::Other { cause } => DynamoAggregateError::UnknownError(
                    cause,
                ),
            },
            SdkError::Unclassified(cause) => DynamoAggregateError::UnknownError(cause),
        }
    }

    /// Classifies the failure of a query.
    pub fn from_query_failure(failure: SdkError<QueryError>) -> (mapped: DynamoAggregateError)
        ensures
            mapped@ == query_failure(failure),
    {
        match failure {
            SdkError::ConstructionFailure(cause) => DynamoAggregateError::ConnectionError(cause),
            SdkError::TimeoutError(cause) => DynamoAggregateError::ConnectionError(cause),
            SdkError::DispatchFailure(cause) => DynamoAggregateError::ConnectionError(cause),
            SdkError::ResponseError(cause) => DynamoAggregateError::UnknownError(cause),
            SdkError::ServiceError(error) => match error {
                QueryError::ServiceUnavailable { cause } => DynamoAggregateError::ConnectionError(
                    cause,
                ),
                QueryError::Other { cause } => DynamoAggregateError::UnknownError(cause),
            },
            SdkError::Unclassified(cause) => DynamoAggregateError::UnknownError(cause),
        }
    }
}

/// An error of the persistence layer of the command framework.
#[derive(Debug, Clone, PartialEq, Eq)]
pub enum PersistenceError {
    OptimisticLockError,
    ConnectionError(String),
    DeserializationError(String),
    UnknownError(String),
}

/// The mathematical value of a `PersistenceError`.
pub enum PersistenceErrorView {
    OptimisticLockError,
    ConnectionError(Seq<char>),
    DeserializationError(Seq<char>),
    UnknownError(Seq<char>),
}

impl View for PersistenceError {
    type V = PersistenceErrorView;

    open spec fn view(&self) -> PersistenceErrorView {
        match self {
            PersistenceError::OptimisticLockError => PersistenceErrorView::OptimisticLockError,
            PersistenceError::ConnectionError(cause) => PersistenceErrorView::ConnectionError(
                cause@,
            ),
            PersistenceError::DeserializationError(cause) => {
                PersistenceErrorView::DeserializationError(cause@)
            },
            PersistenceError::UnknownError(cause) => PersistenceErrorView::UnknownError(cause@),
        }
    }
}

/// An error of the aggregates of the command framework, as far as storage
/// can cause one.
#[derive(Debug, Clone, PartialEq, Eq)]
pub enum AggregateError {
    AggregateConflict,
    DatabaseConnectionError(String),
    DeserializationError(String),
    UnexpectedError(String),
}

/// The mathematical value of an `AggregateError`.
pub enum AggregateErrorView {
    AggregateConflict,
    DatabaseConnectionError(Seq<char>),
    DeserializationError(Seq<char>),
    UnexpectedError(Seq<char>),
}

impl View for AggregateError {
    type V = AggregateErrorView;

    open spec fn view(&self) -> AggregateErrorView {
        match self {
            AggregateError::AggregateConflict => AggregateErrorView::AggregateConflict,
            AggregateError::DatabaseConnectionError(cause) => {
                AggregateErrorView::DatabaseConnectionError(cause@)
            },
            AggregateError::DeserializationError(cause) => AggregateErrorView::DeserializationError(
                cause@,
            ),
            AggregateError::UnexpectedError(cause) => AggregateErrorView::UnexpectedError(cause@),
        }
    }
}

impl ErrorView {
    /// The persistence error that an error of the adapter maps to. A
    /// transaction that is too long is an unknown error whose cause is the
    /// message of the adapter's error.
    pub open spec fn persistence_error(self) -> PersistenceErrorView {
        match self {
            ErrorView::OptimisticLock => PersistenceErrorView::OptimisticLockError,
            ErrorView::ConnectionError(cause) => PersistenceErrorView::ConnectionError(cause),
            ErrorView::DeserializationError(cause) => PersistenceErrorView::DeserializationError(
                cause,
            ),
            ErrorView::TransactionListTooLong(_) => PersistenceErrorView::UnknownError(
                self.message(),
            ),
            ErrorView::UnknownError(cause) => PersistenceErrorView::UnknownError(cause),
        }
    }

    /// The aggregate error that an error of the adapter maps to. A
    /// transaction that is too long is an unexpected error whose cause is
    /// the message of the adapter's error.
    pub open spec fn aggregate_error(self) -> AggregateErrorView {
        match self {
            ErrorView::OptimisticLock => AggregateErrorView::AggregateConflict,
            ErrorView::ConnectionError(cause) => AggregateErrorView::DatabaseConnectionError(cause),
            ErrorView::DeserializationError(cause) => AggregateErrorView::DeserializationError(
                cause,
            ),
            ErrorView::TransactionListTooLong(_) => AggregateErrorView::UnexpectedError(
                self.message(),
            ),
            ErrorView::UnknownError(cause) => AggregateErrorView::UnexpectedError(cause),
        }
    }
}

impl PersistenceError {
    /// Maps an error of the adapter to the persistence error of the
    /// framework.
    pub fn from_dynamo(error: DynamoAggregateError) -> (mapped: PersistenceError)
        ensures
            mapped@ == error@.persistence_error(),
    {
        match error {
            DynamoAggregateError::OptimisticLock => PersistenceError::OptimisticLockError,
            DynamoAggregateError::ConnectionError(cause) => PersistenceError::ConnectionError(
                cause,
            ),
            DynamoAggregateError::DeserializationError(cause) => {
                PersistenceError::DeserializationError(cause)
            },
            DynamoAggregateError::TransactionListTooLong(_) => PersistenceError::UnknownError(
                error.message(),
            ),
            DynamoAggregateError::UnknownError(cause) => PersistenceError::UnknownError(cause),
        }
    }
}

impl AggregateError {
    /// Maps an error of the adapter to the aggregate error of the framework.
    pub fn from_dynamo(error: DynamoAggregateError) -> (mapped: AggregateError)
        ensures
            mapped@ == error@.aggregate_error(),
    {
        match error {
            DynamoAggregateError::OptimisticLock => AggregateError::AggregateConflict,
            DynamoAggregateError::ConnectionError(cause) => AggregateError::DatabaseConnectionError(
                cause,
            ),
            DynamoAggregateError::DeserializationError(cause) => {
                AggregateError::DeserializationError(cause)
            },
            DynamoAggregateError::TransactionListTooLong(_) => AggregateError::UnexpectedError(
                error.message(),
            ),
            DynamoAggregateError::UnknownError(cause) => AggregateError::UnexpectedError(cause),
        }
    }
}

/// A failed transaction is an optimistic lock exactly when the store
/// cancelled it and gave, among its reasons, a condition that did not hold.
pub proof fn lemma_optimistic_lock_means_failed_condition(
    failure: SdkError<TransactWriteItemsError>,
)
    ensures
        transaction_failure(failure) is OptimisticLock <==> (failure matches SdkError::ServiceError(
            TransactWriteItemsError::TransactionCanceled { cancellation_reasons: Some(reasons), .. },
        ) && has_failed_condition(reasons@)),
{
}

/// A failed query is never an optimistic lock, a deserialization error or a
/// transaction that is too long.
pub proof fn lemma_query_failure_kinds(failure: SdkError<QueryError>)
    ensures
        query_failure(failure) is ConnectionError || query_failure(failure) is UnknownError,
{
}

/// The mapping onto the errors of the framework keeps the kind of an error:
/// a conflict stays a conflict, a connection error a connection error, a
/// deserialization error a deserialization error, and all the rest is
/// unknown or unexpected.
pub proof fn lemma_framework_errors_keep_kind(error: ErrorView)
    ensures
        error is OptimisticLock <==> error.persistence_error() is OptimisticLockError,
        error is OptimisticLock <==> error.aggregate_error() is AggregateConflict,
        error is ConnectionError <==> error.persistence_error() is ConnectionError,
        error is ConnectionError <==> error.aggregate_error() is DatabaseConnectionError,
        error is DeserializationError <==> error.persistence_error() is DeserializationError,
        error is DeserializationError <==> error.aggregate_error() is DeserializationError,
        error is UnknownError || error is TransactionListTooLong
            <==> error.persistence_error() is UnknownError,
        error is UnknownError || error is TransactionListTooLong
            <==> error.aggregate_error() is UnexpectedError,
{
}

} // verus!
