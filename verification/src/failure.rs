//! Failed requests: which error a failure reported by the client becomes.
//!
//! A request that got no response is a connection error. Any other failure is
//! an error of the service and carries the service's message; only the request
//! that creates a table tells one such error apart, that the table is in use.

use vstd::prelude::*;
use vstd::string::*;
use aws_sdk_dynamodb::error::{ProvideErrorMetadata, SdkError};
use aws_sdk_dynamodb::operation::batch_get_item::BatchGetItemError;
use aws_sdk_dynamodb::operation::create_table::CreateTableError;
use aws_sdk_dynamodb::operation::delete_item::DeleteItemError;
use aws_sdk_dynamodb::operation::get_item::GetItemError;
use aws_sdk_dynamodb::operation::put_item::PutItemError;
use aws_sdk_dynamodb::operation::query::QueryError;
use aws_sdk_dynamodb::operation::transact_write_items::TransactWriteItemsError;
use aws_sdk_dynamodb::operation::update_item::UpdateItemError;
use aws_smithy_runtime_api::http::Response;
use aws_smithy_types::body::SdkBody;
use crate::errors::DynarustError;

verus! {

#[verifier::external_type_specification]
#[verifier::external_body]
#[verifier::reject_recursive_types(E)]
#[verifier::reject_recursive_types(R)]
pub struct ExSdkError<E, R>(SdkError<E, R>);

#[verifier::external_type_specification]
#[verifier::external_body]
#[verifier::reject_recursive_types(B)]
pub struct ExResponse<B>(Response<B>);

#[verifier::external_type_specification]
#[verifier::external_body]
pub struct ExSdkBody(SdkBody);

#[verifier::external_type_specification]
#[verifier::external_body]
pub struct ExBatchGetItemError(BatchGetItemError);

#[verifier::external_type_specification]
#[verifier::external_body]
pub struct ExGetItemError(GetItemError);

#[verifier::external_type_specification]
#[verifier::external_body]
pub struct ExPutItemError(PutItemError);

#[verifier::external_type_specification]
#[verifier::external_body]
pub struct ExTransactWriteItemsError(TransactWriteItemsError);

#[verifier::external_type_specification]
#[verifier::external_body]
pub struct ExQueryError(QueryError);

#[verifier::external_type_specification]
#[verifier::external_body]
pub struct ExUpdateItemError(UpdateItemError);

#[verifier::external_type_specification]
#[verifier::external_body]
pub struct ExDeleteItemError(DeleteItemError);

#[verifier::external_type_specification]
#[verifier::external_body]
pub struct ExCreateTableError(CreateTableError);

/// The text of a message, where there is one.
pub open spec fn text_of(message: Option<String>) -> Option<Seq<char>> {
    match message {
        Some(text) => Some(text@),
        None => None,
    }
}

/// The message to report where the service gave `message`: that message, or
/// `unknown error` where it gave none.
pub open spec fn reported_message(message: Option<Seq<char>>) -> Seq<char> {
    match message {
        Some(text) => text,
        None => "unknown error"@,
    }
}

/// `error` is the error for a failed request: a connection error without
/// detail where the request got no response, which `dispatch` says; else an
/// error of the service that carries the message to report for `message`.
pub open spec fn is_request_failure(
    error: DynarustError,
    dispatch: bool,
    message: Option<Seq<char>>,
) -> bool {
    if dispatch {
        error matches DynarustError::ConnectionError(detail) && detail@.len() == 0
    } else {
        error matches DynarustError::DynamoError(detail) && detail@ == reported_message(message)
    }
}

/// `error` is the error for a failed request to create a table: a connection
/// error without detail where the request got no response, which `dispatch`
/// says; else, with the message to report for `message`, that the table
/// exists already where the service says that it is in use, which `in_use`
/// says, and an error of the service where it does not.
pub open spec fn is_create_table_failure(
    error: DynarustError,
    dispatch: bool,
    message: Option<Seq<char>>,
    in_use: bool,
) -> bool {
    if dispatch {
        error matches DynarustError::ConnectionError(detail) && detail@.len() == 0
    } else if in_use {
        error matches DynarustError::TableAlreadyExistsError(detail) && detail@
            == reported_message(message)
    } else {
        error matches DynarustError::DynamoError(detail) && detail@ == reported_message(message)
    }
}

/// The failure of a batch of reads is the variant `SdkError::DispatchFailure`: the
/// request got no response.
pub uninterp spec fn batch_get_item_failure_is_dispatch(failure: SdkError<BatchGetItemError>) -> bool;

/// The message of the service's error that the failure of a batch of reads holds or
/// stands for, if that error has one: what `SdkError::into_service_error`,
/// then `ProvideErrorMetadata::meta` and `ErrorMetadata::message` give.
pub uninterp spec fn batch_get_item_failure_message(failure: SdkError<BatchGetItemError>) -> Option<Seq<char>>;

/// Tells the variant `SdkError::DispatchFailure` from the others.
#[verifier::external_body]
fn batch_get_item_dispatch(failure: &SdkError<BatchGetItemError>) -> (dispatch: bool)
    ensures
        dispatch == batch_get_item_failure_is_dispatch(*failure),
{
    matches!(failure, SdkError::DispatchFailure(_))
}

/// `SdkError::into_service_error`, then `ProvideErrorMetadata::meta` and
/// `ErrorMetadata::message`: the message of the service's error, if it has
/// one.
#[verifier::external_body]
fn batch_get_item_message(failure: SdkError<BatchGetItemError>) -> (message: Option<String>)
    ensures
        text_of(message) == batch_get_item_failure_message(failure),
{
    failure.into_service_error().meta().message().map(String::from)
}

/// The failure of a read is the variant `SdkError::DispatchFailure`: the
/// request got no response.
pub uninterp spec fn get_item_failure_is_dispatch(failure: SdkError<GetItemError>) -> bool;

/// The message of the service's error that the failure of a read holds or
/// stands for, if that error has one: what `SdkError::into_service_error`,
/// then `ProvideErrorMetadata::meta` and `ErrorMetadata::message` give.
pub uninterp spec fn get_item_failure_message(failure: SdkError<GetItemError>) -> Option<Seq<char>>;

/// Tells the variant `SdkError::DispatchFailure` from the others.
#[verifier::external_body]
fn get_item_dispatch(failure: &SdkError<GetItemError>) -> (dispatch: bool)
    ensures
        dispatch == get_item_failure_is_dispatch(*failure),
{
    matches!(failure, SdkError::DispatchFailure(_))
}

/// `SdkError::into_service_error`, then `ProvideErrorMetadata::meta` and
/// `ErrorMetadata::message`: the message of the service's error, if it has
/// one.
#[verifier::external_body]
fn get_item_message(failure: SdkError<GetItemError>) -> (message: Option<String>)
    ensures
        text_of(message) == get_item_failure_message(failure),
{
    failure.into_service_error().meta().message().map(String::from)
}

/// The failure of a put is the variant `SdkError::DispatchFailure`: the
/// request got no response.
pub uninterp spec fn put_item_failure_is_dispatch(failure: SdkError<PutItemError>) -> bool;

/// The message of the service's error that the failure of a put holds or
/// stands for, if that error has one: what `SdkError::into_service_error`,
/// then `ProvideErrorMetadata::meta` and `ErrorMetadata::message` give.
pub uninterp spec fn put_item_failure_message(failure: SdkError<PutItemError>) -> Option<Seq<char>>;

/// Tells the variant `SdkError::DispatchFailure` from the others.
#[verifier::external_body]
fn put_item_dispatch(failure: &SdkError<PutItemError>) -> (dispatch: bool)
    ensures
        dispatch == put_item_failure_is_dispatch(*failure),
{
    matches!(failure, SdkError::DispatchFailure(_))
}

/// `SdkError::into_service_error`, then `ProvideErrorMetadata::meta` and
/// `ErrorMetadata::message`: the message of the service's error, if it has
/// one.
#[verifier::external_body]
fn put_item_message(failure: SdkError<PutItemError>) -> (message: Option<String>)
    ensures
        text_of(message) == put_item_failure_message(failure),
{
    failure.into_service_error().meta().message().map(String::from)
}

/// The failure of a transaction is the variant `SdkError::DispatchFailure`: the
/// request got no response.
pub uninterp spec fn transact_write_items_failure_is_dispatch(failure: SdkError<TransactWriteItemsError>) -> bool;

/// The message of the service's error that the failure of a transaction holds or
/// stands for, if that error has one: what `SdkError::into_service_error`,
/// then `ProvideErrorMetadata::meta` and `ErrorMetadata::message` give.
pub uninterp spec fn transact_write_items_failure_message(failure: SdkError<TransactWriteItemsError>) -> Option<Seq<char>>;

/// Tells the variant `SdkError::DispatchFailure` from the others.
#[verifier::external_body]
fn transact_write_items_dispatch(failure: &SdkError<TransactWriteItemsError>) -> (dispatch: bool)
    ensures
        dispatch == transact_write_items_failure_is_dispatch(*failure),
{
    matches!(failure, SdkError::DispatchFailure(_))
}

/// `SdkError::into_service_error`, then `ProvideErrorMetadata::meta` and
/// `ErrorMetadata::message`: the message of the service's error, if it has
/// one.
#[verifier::external_body]
fn transact_write_items_message(failure: SdkError<TransactWriteItemsError>) -> (message: Option<String>)
    ensures
        text_of(message) == transact_write_items_failure_message(failure),
{
    failure.into_service_error().meta().message().map(String::from)
}

/// The failure of a query is the variant `SdkError::DispatchFailure`: the
/// request got no response.
pub uninterp spec fn query_failure_is_dispatch(failure: SdkError<QueryError>) -> bool;

/// The message of the service's error that the failure of a query holds or
/// stands for, if that error has one: what `SdkError::into_service_error`,
/// then `ProvideErrorMetadata::meta` and `ErrorMetadata::message` give.
pub uninterp spec fn query_failure_message(failure: SdkError<QueryError>) -> Option<Seq<char>>;

/// Tells the variant `SdkError::DispatchFailure` from the others.
#[verifier::external_body]
fn query_dispatch(failure: &SdkError<QueryError>) -> (dispatch: bool)
    ensures
        dispatch == query_failure_is_dispatch(*failure),
{
    matches!(failure, SdkError::DispatchFailure(_))
}

/// `SdkError::into_service_error`, then `ProvideErrorMetadata::meta` and
/// `ErrorMetadata::message`: the message of the service's error, if it has
/// one.
#[verifier::external_body]
fn query_message(failure: SdkError<QueryError>) -> (message: Option<String>)
    ensures
        text_of(message) == query_failure_message(failure),
{
    failure.into_service_error().meta().message().map(String::from)
}

/// The failure of an update is the variant `SdkError::DispatchFailure`: the
/// request got no response.
pub uninterp spec fn update_item_failure_is_dispatch(failure: SdkError<UpdateItemError>) -> bool;

/// The message of the service's error that the failure of an update holds or
/// stands for, if that error has one: what `SdkError::into_service_error`,
/// then `ProvideErrorMetadata::meta` and `ErrorMetadata::message` give.
pub uninterp spec fn update_item_failure_message(failure: SdkError<UpdateItemError>) -> Option<Seq<char>>;

/// Tells the variant `SdkError::DispatchFailure` from the others.
#[verifier::external_body]
fn update_item_dispatch(failure: &SdkError<UpdateItemError>) -> (dispatch: bool)
    ensures
        dispatch == update_item_failure_is_dispatch(*failure),
{
    matches!(failure, SdkError::DispatchFailure(_))
}

/// `SdkError::into_service_error`, then `ProvideErrorMetadata::meta` and
/// `ErrorMetadata::message`: the message of the service's error, if it has
/// one.
#[verifier::external_body]
fn update_item_message(failure: SdkError<UpdateItemError>) -> (message: Option<String>)
    ensures
        text_of(message) == update_item_failure_message(failure),
{
    failure.into_service_error().meta().message().map(String::from)
}

/// The failure of a delete is the variant `SdkError::DispatchFailure`: the
/// request got no response.
pub uninterp spec fn delete_item_failure_is_dispatch(failure: SdkError<DeleteItemError>) -> bool;

/// The message of the service's error that the failure of a delete holds or
/// stands for, if that error has one: what `SdkError::into_service_error`,
/// then `ProvideErrorMetadata::meta` and `ErrorMetadata::message` give.
pub uninterp spec fn delete_item_failure_message(failure: SdkError<DeleteItemError>) -> Option<Seq<char>>;

/// Tells the variant `SdkError::DispatchFailure` from the others.
#[verifier::external_body]
fn delete_item_dispatch(failure: &SdkError<DeleteItemError>) -> (dispatch: bool)
    ensures
        dispatch == delete_item_failure_is_dispatch(*failure),
{
    matches!(failure, SdkError::DispatchFailure(_))
}

/// `SdkError::into_service_error`, then `ProvideErrorMetadata::meta` and
/// `ErrorMetadata::message`: the message of the service's error, if it has
/// one.
#[verifier::external_body]
fn delete_item_message(failure: SdkError<DeleteItemError>) -> (message: Option<String>)
    ensures
        text_of(message) == delete_item_failure_message(failure),
{
    failure.into_service_error().meta().message().map(String::from)
}

/// The failure of a request that creates a table is the variant
/// `SdkError::DispatchFailure`: the request got no response.
pub uninterp spec fn create_table_failure_is_dispatch(failure: SdkError<CreateTableError>) -> bool;

/// The service's error that the failure of a request that creates a table
/// holds or stands for: what `SdkError::into_service_error` gives.
pub uninterp spec fn create_table_failure_error(failure: SdkError<CreateTableError>) -> CreateTableError;

/// The message of the error of a request that creates a table, if it has
/// one: what `ProvideErrorMetadata::meta` and `ErrorMetadata::message` give.
pub uninterp spec fn create_table_error_message(error: CreateTableError) -> Option<Seq<char>>;

/// The error says that the table is in use: what
/// `CreateTableError::is_resource_in_use_exception` gives.
pub uninterp spec fn create_table_error_in_use(error: CreateTableError) -> bool;

/// Tells the variant `SdkError::DispatchFailure` from the others.
#[verifier::external_body]
fn create_table_dispatch(failure: &SdkError<CreateTableError>) -> (dispatch: bool)
    ensures
        dispatch == create_table_failure_is_dispatch(*failure),
{
    matches!(failure, SdkError::DispatchFailure(_))
}

/// `SdkError::into_service_error`: the service's error.
#[verifier::external_body]
fn create_table_service_error(failure: SdkError<CreateTableError>) -> (error: CreateTableError)
    ensures
        error == create_table_failure_error(failure),
{
    failure.into_service_error()
}

/// `ProvideErrorMetadata::meta` and `ErrorMetadata::message`: the error's
/// message, if it has one.
#[verifier::external_body]
fn create_table_message(error: &CreateTableError) -> (message: Option<String>)
    ensures
        text_of(message) == create_table_error_message(*error),
{
    error.meta().message().map(String::from)
}

/// `CreateTableError::is_resource_in_use_exception`: whether the service
/// refused to create the table because it is in use.
#[verifier::external_body]
fn create_table_in_use(error: &CreateTableError) -> (in_use: bool)
    ensures
        in_use == create_table_error_in_use(*error),
{
    error.is_resource_in_use_exception()
}

/// The message to report where the service gave `message`.
fn report(message: Option<String>) -> (text: String)
    ensures
        text@ == reported_message(text_of(message)),
{
    match message {
        Some(text) => text,
        None => String::from_str("unknown error"),
    }
}

impl DynarustError {
    /// The error for a request that got no response: a connection error
    /// without detail.
    pub fn connection_failure() -> (error: Self)
        ensures
            error matches DynarustError::ConnectionError(detail) && detail@.len() == 0,
    {
        DynarustError::ConnectionError(String::new())
    }

    /// The error for a request that the service answered with an error: it
    /// carries the service's message, or `unknown error` where there is none.
    pub fn service_failure(message: Option<String>) -> (error: Self)
        ensures
            is_request_failure(error, false, text_of(message)),
    {
        DynarustError::DynamoError(report(message))
    }

    /// The error for a request to create a table that the service answered
    /// with an error: that the table exists already where the service says
    /// that it is in use, else an error of the service. Either carries the
    /// service's message, or `unknown error` where there is none.
    pub fn create_table_failure(message: Option<String>, in_use: bool) -> (error: Self)
        ensures
            is_create_table_failure(error, false, text_of(message), in_use),
    {
        let text = report(message);
        if in_use {
            DynarustError::TableAlreadyExistsError(text)
        } else {
            DynarustError::DynamoError(text)
        }
    }
}

impl From<SdkError<BatchGetItemError>> for DynarustError {
    /// A connection error without detail where the request got no response,
    /// else an error of the service with the service's message.
    fn from(value: SdkError<BatchGetItemError>) -> (error: Self)
        ensures
            is_request_failure(
                error,
                batch_get_item_failure_is_dispatch(value),
                batch_get_item_failure_message(value),
            ),
    {
        if batch_get_item_dispatch(&value) {
            return DynarustError::connection_failure();
        }
        DynarustError::service_failure(batch_get_item_message(value))
    }
}

/// The error that comes out holds a text of its own, which no spec function
/// can make: the contract of `from` says what it is.
impl vstd::std_specs::convert::FromSpecImpl<SdkError<BatchGetItemError>> for DynarustError {
    open spec fn obeys_from_spec() -> bool {
        false
    }

    open spec fn from_spec(value: SdkError<BatchGetItemError>) -> Self {
        arbitrary()
    }
}

impl From<SdkError<GetItemError>> for DynarustError {
    /// A connection error without detail where the request got no response,
    /// else an error of the service with the service's message.
    fn from(value: SdkError<GetItemError>) -> (error: Self)
        ensures
            is_request_failure(
                error,
                get_item_failure_is_dispatch(value),
                get_item_failure_message(value),
            ),
    {
        if get_item_dispatch(&value) {
            return DynarustError::connection_failure();
        }
        DynarustError::service_failure(get_item_message(value))
    }
}

/// The error that comes out holds a text of its own, which no spec function
/// can make: the contract of `from` says what it is.
impl vstd::std_specs::convert::FromSpecImpl<SdkError<GetItemError>> for DynarustError {
    open spec fn obeys_from_spec() -> bool {
        false
    }

    open spec fn from_spec(value: SdkError<GetItemError>) -> Self {
        arbitrary()
    }
}

impl From<SdkError<PutItemError>> for DynarustError {
    /// A connection error without detail where the request got no response,
    /// else an error of the service with the service's message.
    fn from(value: SdkError<PutItemError>) -> (error: Self)
        ensures
            is_request_failure(
                error,
                put_item_failure_is_dispatch(value),
                put_item_failure_message(value),
            ),
    {
        if put_item_dispatch(&value) {
            return DynarustError::connection_failure();
        }
        DynarustError::service_failure(put_item_message(value))
    }
}

/// The error that comes out holds a text of its own, which no spec function
/// can make: the contract of `from` says what it is.
impl vstd::std_specs::convert::FromSpecImpl<SdkError<PutItemError>> for DynarustError {
    open spec fn obeys_from_spec() -> bool {
        false
    }

    open spec fn from_spec(value: SdkError<PutItemError>) -> Self {
        arbitrary()
    }
}

impl From<SdkError<TransactWriteItemsError>> for DynarustError {
    /// A connection error without detail where the request got no response,
    /// else an error of the service with the service's message.
    fn from(value: SdkError<TransactWriteItemsError>) -> (error: Self)
        ensures
            is_request_failure(
                error,
                transact_write_items_failure_is_dispatch(value),
                transact_write_items_failure_message(value),
            ),
    {
        if transact_write_items_dispatch(&value) {
            return DynarustError::connection_failure();
        }
        DynarustError::service_failure(transact_write_items_message(value))
    }
}

/// The error that comes out holds a text of its own, which no spec function
/// can make: the contract of `from` says what it is.
impl vstd::std_specs::convert::FromSpecImpl<SdkError<TransactWriteItemsError>> for DynarustError {
    open spec fn obeys_from_spec() -> bool {
        false
    }

    open spec fn from_spec(value: SdkError<TransactWriteItemsError>) -> Self {
        arbitrary()
    }
}

impl From<SdkError<QueryError>> for DynarustError {
    /// A connection error without detail where the request got no response,
    /// else an error of the service with the service's message.
    fn from(value: SdkError<QueryError>) -> (error: Self)
        ensures
            is_request_failure(
                error,
                query_failure_is_dispatch(value),
                query_failure_message(value),
            ),
    {
        if query_dispatch(&value) {
            return DynarustError::connection_failure();
        }
        DynarustError::service_failure(query_message(value))
    }
}

/// The error that comes out holds a text of its own, which no spec function
/// can make: the contract of `from` says what it is.
impl vstd::std_specs::convert::FromSpecImpl<SdkError<QueryError>> for DynarustError {
    open spec fn obeys_from_spec() -> bool {
        false
    }

    open spec fn from_spec(value: SdkError<QueryError>) -> Self {
        arbitrary()
    }
}

impl From<SdkError<UpdateItemError>> for DynarustError {
    /// A connection error without detail where the request got no response,
    /// else an error of the service with the service's message.
    fn from(value: SdkError<UpdateItemError>) -> (error: Self)
        ensures
            is_request_failure(
                error,
                update_item_failure_is_dispatch(value),
                update_item_failure_message(value),
            ),
    {
        if update_item_dispatch(&value) {
            return DynarustError::connection_failure();
        }
        DynarustError::service_failure(update_item_message(value))
    }
}

/// The error that comes out holds a text of its own, which no spec function
/// can make: the contract of `from` says what it is.
impl vstd::std_specs::convert::FromSpecImpl<SdkError<UpdateItemError>> for DynarustError {
    open spec fn obeys_from_spec() -> bool {
        false
    }

    open spec fn from_spec(value: SdkError<UpdateItemError>) -> Self {
        arbitrary()
    }
}

impl From<SdkError<DeleteItemError>> for DynarustError {
    /// A connection error without detail where the request got no response,
    /// else an error of the service with the service's message.
    fn from(value: SdkError<DeleteItemError>) -> (error: Self)
        ensures
            is_request_failure(
                error,
                delete_item_failure_is_dispatch(value),
                delete_item_failure_message(value),
            ),
    {
        if delete_item_dispatch(&value) {
            return DynarustError::connection_failure();
        }
        DynarustError::service_failure(delete_item_message(value))
    }
}

/// The error that comes out holds a text of its own, which no spec function
/// can make: the contract of `from` says what it is.
impl vstd::std_specs::convert::FromSpecImpl<SdkError<DeleteItemError>> for DynarustError {
    open spec fn obeys_from_spec() -> bool {
        false
    }

    open spec fn from_spec(value: SdkError<DeleteItemError>) -> Self {
        arbitrary()
    }
}

impl From<SdkError<CreateTableError>> for DynarustError {
    /// A connection error without detail where the request got no response;
    /// else, with the service's message, that the table exists already where
    /// the service says that it is in use, and an error of the service where
    /// it does not.
    fn from(value: SdkError<CreateTableError>) -> (error: Self)
        ensures
            is_create_table_failure(
                error,
                create_table_failure_is_dispatch(value),
                create_table_error_message(create_table_failure_error(value)),
                create_table_error_in_use(create_table_failure_error(value)),
            ),
    {
        if create_table_dispatch(&value) {
            return DynarustError::connection_failure();
        }
        let service_error = create_table_service_error(value);
        let message = create_table_message(&service_error);
        DynarustError::create_table_failure(message, create_table_in_use(&service_error))
    }
}

/// The error that comes out holds a text of its own, which no spec function
/// can make: the contract of `from` says what it is.
impl vstd::std_specs::convert::FromSpecImpl<SdkError<CreateTableError>> for DynarustError {
    open spec fn obeys_from_spec() -> bool {
        false
    }

    open spec fn from_spec(value: SdkError<CreateTableError>) -> Self {
        arbitrary()
    }
}

} // verus!
