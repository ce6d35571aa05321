use aws_sdk_dynamodb::config::http::HttpResponse;
use aws_sdk_dynamodb::error::{ConnectorError, ErrorMetadata, SdkError};
use aws_sdk_dynamodb::operation::batch_get_item::BatchGetItemError;
use aws_sdk_dynamodb::operation::create_table::CreateTableError;
use aws_sdk_dynamodb::operation::delete_item::DeleteItemError;
use aws_sdk_dynamodb::operation::get_item::GetItemError;
use aws_sdk_dynamodb::operation::put_item::PutItemError;
use aws_sdk_dynamodb::operation::query::QueryError;
use aws_sdk_dynamodb::operation::transact_write_items::TransactWriteItemsError;
use aws_sdk_dynamodb::operation::update_item::UpdateItemError;
use aws_sdk_dynamodb::types::error::{
    ConditionalCheckFailedException, ResourceInUseException, ResourceNotFoundException,
    TransactionCanceledException,
};
use dynarust::DynarustError;

fn said(message: &str) -> ErrorMetadata {
    ErrorMetadata::builder().message(message).build()
}

fn response() -> HttpResponse {
    HttpResponse::new(400u16.try_into().unwrap(), "".into())
}

fn no_response() -> ConnectorError {
    ConnectorError::io("connection refused".into())
}

fn expect_connection(error: DynarustError) {
    match error {
        DynarustError::ConnectionError(detail) => assert_eq!(detail, ""),
        other => panic!("unexpected {:?}", other),
    }
}

fn expect_service(error: DynarustError, message: &str) {
    match error {
        DynarustError::DynamoError(detail) => assert_eq!(detail, message),
        other => panic!("unexpected {:?}", other),
    }
}

#[test]
fn the_errors_made_from_plain_values() {
    expect_connection(DynarustError::connection_failure());
    expect_service(DynarustError::service_failure(Some("no".to_string())), "no");
    expect_service(DynarustError::service_failure(Some(String::new())), "");
    expect_service(DynarustError::service_failure(None), "unknown error");
    expect_service(DynarustError::create_table_failure(Some("no".to_string()), false), "no");
    expect_service(DynarustError::create_table_failure(None, false), "unknown error");
    match DynarustError::create_table_failure(Some("taken".to_string()), true) {
        DynarustError::TableAlreadyExistsError(detail) => assert_eq!(detail, "taken"),
        other => panic!("unexpected {:?}", other),
    }
    match DynarustError::create_table_failure(None, true) {
        DynarustError::TableAlreadyExistsError(detail) => assert_eq!(detail, "unknown error"),
        other => panic!("unexpected {:?}", other),
    }
}

#[test]
fn a_request_without_response_is_a_connection_error() {
    expect_connection(SdkError::<BatchGetItemError, HttpResponse>::dispatch_failure(no_response()).into());
    expect_connection(SdkError::<GetItemError, HttpResponse>::dispatch_failure(no_response()).into());
    expect_connection(SdkError::<PutItemError, HttpResponse>::dispatch_failure(no_response()).into());
    expect_connection(
        SdkError::<TransactWriteItemsError, HttpResponse>::dispatch_failure(no_response()).into(),
    );
    expect_connection(SdkError::<QueryError, HttpResponse>::dispatch_failure(no_response()).into());
    expect_connection(SdkError::<UpdateItemError, HttpResponse>::dispatch_failure(no_response()).into());
    expect_connection(SdkError::<DeleteItemError, HttpResponse>::dispatch_failure(no_response()).into());
    expect_connection(SdkError::<CreateTableError, HttpResponse>::dispatch_failure(no_response()).into());
    let error = DynarustError::from(SdkError::<GetItemError, HttpResponse>::dispatch_failure(no_response()));
    assert_eq!(error.message(), "Connection error: could not connect to dynamo");
}

#[test]
fn an_error_of_the_service_carries_its_message() {
    let missing = || ResourceNotFoundException::builder().meta(said("no such table")).build();
    expect_service(
        SdkError::service_error(BatchGetItemError::ResourceNotFoundException(missing()), response()).into(),
        "no such table",
    );
    expect_service(
        SdkError::service_error(GetItemError::ResourceNotFoundException(missing()), response()).into(),
        "no such table",
    );
    expect_service(
        SdkError::service_error(QueryError::ResourceNotFoundException(missing()), response()).into(),
        "no such table",
    );
    let failed = || ConditionalCheckFailedException::builder().meta(said("condition failed")).build();
    expect_service(
        SdkError::service_error(PutItemError::ConditionalCheckFailedException(failed()), response()).into(),
        "condition failed",
    );
    expect_service(
        SdkError::service_error(UpdateItemError::ConditionalCheckFailedException(failed()), response())
            .into(),
        "condition failed",
    );
    expect_service(
        SdkError::service_error(DeleteItemError::ConditionalCheckFailedException(failed()), response())
            .into(),
        "condition failed",
    );
    let cancelled = TransactionCanceledException::builder()
        .meta(said("Transaction cancelled [None, ConditionalCheckFailed]"))
        .build();
    let error: DynarustError = SdkError::service_error(
        TransactWriteItemsError::TransactionCanceledException(cancelled),
        response(),
    )
    .into();
    assert_eq!(error.message(), "Transaction cancelled [None, ConditionalCheckFailed]");
}

#[test]
fn a_failure_without_message_is_an_unknown_error() {
    let silent = ResourceNotFoundException::builder().message("not the metadata").build();
    expect_service(
        SdkError::service_error(GetItemError::ResourceNotFoundException(silent), response()).into(),
        "unknown error",
    );
    expect_service(SdkError::<GetItemError, HttpResponse>::timeout_error("too slow").into(), "unknown error");
    expect_service(
        SdkError::<PutItemError, HttpResponse>::construction_failure("bad input").into(),
        "unknown error",
    );
    expect_service(
        SdkError::<QueryError, HttpResponse>::response_error("garbled", response()).into(),
        "unknown error",
    );
    expect_service(
        SdkError::<CreateTableError, HttpResponse>::timeout_error("too slow").into(),
        "unknown error",
    );
}

#[test]
fn a_table_in_use_is_a_table_that_exists_already() {
    let in_use = ResourceInUseException::builder().meta(said("Table already exists: t")).build();
    let error: DynarustError =
        SdkError::service_error(CreateTableError::ResourceInUseException(in_use), response()).into();
    match &error {
        DynarustError::TableAlreadyExistsError(detail) => {
            assert_eq!(detail, "Table already exists: t")
        }
        other => panic!("unexpected {:?}", other),
    }
    assert_eq!(error.message(), "Table already exists error: Table already exists: t");

    let silent = ResourceInUseException::builder().build();
    match SdkError::service_error(CreateTableError::ResourceInUseException(silent), response()).into() {
        DynarustError::TableAlreadyExistsError(detail) => assert_eq!(detail, "unknown error"),
        other => panic!("unexpected {:?}", other),
    }
}

#[test]
fn another_error_on_creating_a_table_is_an_error_of_the_service() {
    let limit = aws_sdk_dynamodb::types::error::LimitExceededException::builder()
        .meta(said("too many tables"))
        .build();
    expect_service(
        SdkError::service_error(CreateTableError::LimitExceededException(limit), response()).into(),
        "too many tables",
    );
}

#[test]
fn a_failure_with_the_response_of_the_client() {
    let missing = ResourceNotFoundException::builder().meta(said("no such table")).build();
    let failure: SdkError<GetItemError> =
        SdkError::service_error(GetItemError::ResourceNotFoundException(missing), response());
    expect_service(failure.into(), "no such table");
    let in_use = ResourceInUseException::builder().meta(said("taken")).build();
    let failure: SdkError<CreateTableError> =
        SdkError::service_error(CreateTableError::ResourceInUseException(in_use), response());
    match DynarustError::from(failure) {
        DynarustError::TableAlreadyExistsError(detail) => assert_eq!(detail, "taken"),
        other => panic!("unexpected {:?}", other),
    }
    let failure: SdkError<QueryError> = SdkError::response_error("garbled", response());
    expect_service(failure.into(), "unknown error");
    let failure: SdkError<TransactWriteItemsError> = SdkError::dispatch_failure(no_response());
    expect_connection(failure.into());
}
