use gdax_trader::error::{check_status, ApiError, STATUS_OK};

#[test]
fn ok_status_passes() {
    assert!(check_status(STATUS_OK).is_ok());
}

#[test]
fn other_status_is_kept() {
    assert!(matches!(check_status(404), Err(ApiError::Status(404))));
    assert!(matches!(check_status(201), Err(ApiError::Status(201))));
    assert!(matches!(check_status(500), Err(ApiError::Status(500))));
}

#[test]
fn request_error_converts() {
    let e = reqwest::blocking::get("not a url").unwrap_err();
    let converted: ApiError = e.into();
    assert!(matches!(converted, ApiError::Request(_)));
}
