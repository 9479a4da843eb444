use axum::http::StatusCode;
use fulfillment::service::fulfillment::transition_outcome;
use fulfillment::service::line_item::admission_outcome;
use fulfillment::service::ServiceError;

#[test]
fn errors_are_written_out_with_their_kind() {
    assert_eq!(
        ServiceError::BadInput("bad fulfillment status transition".to_string()).message(),
        "Bad input - bad fulfillment status transition"
    );
    assert_eq!(
        ServiceError::ProductNotFound(String::new()).message(),
        "Product not found - "
    );
    assert_eq!(
        ServiceError::ProviderFailure("2 rows affected, expected 1 or 0".to_string()).message(),
        "Provider error - 2 rows affected, expected 1 or 0"
    );
}

#[test]
fn errors_are_reported_with_their_status() {
    assert_eq!(
        StatusCode::from(ServiceError::BadInput("x".to_string())),
        StatusCode::BAD_REQUEST
    );
    assert_eq!(
        StatusCode::from(ServiceError::ProductNotFound("x".to_string())),
        StatusCode::NOT_FOUND
    );
    assert_eq!(
        StatusCode::from(ServiceError::ProviderFailure("x".to_string())),
        StatusCode::INTERNAL_SERVER_ERROR
    );
    let status: StatusCode = ServiceError::BadInput(String::new()).into();
    assert_eq!(status.as_u16(), 400);
}

#[test]
fn a_missing_row_is_bad_input() {
    assert_eq!(
        ServiceError::from(sqlx::Error::RowNotFound),
        ServiceError::BadInput("sql row not found".to_string())
    );
}

#[test]
fn other_failures_of_the_storage_are_provider_failures() {
    assert_eq!(
        ServiceError::from(sqlx::Error::PoolClosed),
        ServiceError::ProviderFailure(
            "attempted to acquire a connection on a closed pool".to_string()
        )
    );
    assert_eq!(
        ServiceError::from(sqlx::Error::ColumnNotFound("quantity".to_string())),
        ServiceError::ProviderFailure("no column found for name: quantity".to_string())
    );
    let failures = vec![
        sqlx::Error::PoolTimedOut,
        sqlx::Error::WorkerCrashed,
        sqlx::Error::Protocol("broken".to_string()),
        sqlx::Error::ColumnIndexOutOfBounds { index: 4, len: 3 },
        sqlx::Error::InvalidArgument("no such argument".to_string()),
    ];
    for failure in failures {
        let text = failure.to_string();
        assert_eq!(
            ServiceError::from(failure),
            ServiceError::ProviderFailure(text)
        );
    }
}

#[test]
fn a_status_write_is_judged_by_the_rows_it_changed() {
    assert_eq!(transition_outcome(1), Ok(()));
    assert_eq!(
        transition_outcome(0),
        Err(ServiceError::BadInput(
            "bad fulfillment status transition".to_string()
        ))
    );
    assert_eq!(
        transition_outcome(2),
        Err(ServiceError::ProviderFailure(
            "2 rows affected, expected 1 or 0".to_string()
        ))
    );
    assert_eq!(
        transition_outcome(u64::MAX),
        Err(ServiceError::ProviderFailure(
            "18446744073709551615 rows affected, expected 1 or 0".to_string()
        ))
    );
}

#[test]
fn a_line_item_insert_is_judged_by_the_rows_it_added() {
    assert_eq!(admission_outcome(1, 12, 5), Ok(12));
    assert_eq!(admission_outcome(3, -2, 5), Ok(-2));
    assert_eq!(
        admission_outcome(0, 12, 5),
        Err(ServiceError::BadInput(
            "can't add line item to fulfillment 5".to_string()
        ))
    );
    assert_eq!(
        admission_outcome(0, 0, -17),
        Err(ServiceError::BadInput(
            "can't add line item to fulfillment -17".to_string()
        ))
    );
    assert_eq!(
        admission_outcome(0, 0, i64::MIN),
        Err(ServiceError::BadInput(
            "can't add line item to fulfillment -9223372036854775808".to_string()
        ))
    );
}
