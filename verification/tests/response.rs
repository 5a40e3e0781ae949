use paykit::response::{ApiError, ApiResponse, PaginatedResponse, ResponseMeta, ValidationError};

#[test]
fn envelopes() {
    let r: ApiResponse<u32> = ApiResponse::success_data("done", 7);
    assert!(r.success);
    assert_eq!(r.data, Some(7));
    let ok: ApiResponse<u32> = ApiResponse::ok("fine");
    assert!(ok.data.is_none());
    let e: ApiResponse<u32> = ApiResponse::error("nope", Some(ApiError { code: "E1".to_string(), details: None }));
    assert!(!e.success);
    assert_eq!(e.error.unwrap().code, "E1");
    let m: ApiResponse<u32> = ApiResponse::ok("x").with_meta(ResponseMeta::new(1, 10, 25));
    assert_eq!(m.meta.unwrap().total_pages, 3);
}

#[test]
fn validation_errors() {
    let v: ApiResponse<()> = ApiResponse::validation_error(vec![ValidationError { field: "email".to_string(), message: "required".to_string() }]);
    assert!(!v.success);
    assert_eq!(v.message, "Validation failed");
    let err = v.error.unwrap();
    assert_eq!(err.code, "VALIDATION_ERROR");
    assert_eq!(err.details.unwrap().to_string(), r#"[{"field":"email","message":"required"}]"#);
}

#[test]
fn page_counts() {
    assert_eq!(ResponseMeta::new(1, 10, 0).total_pages, 0);
    assert_eq!(ResponseMeta::new(1, 10, 10).total_pages, 1);
    assert_eq!(ResponseMeta::new(1, 10, 11).total_pages, 2);
    assert_eq!(ResponseMeta::new(1, 1, u64::MAX).total_pages, u32::MAX);
    assert_eq!(ResponseMeta::new(1, 0, 5).total_pages, u32::MAX);
    assert_eq!(ResponseMeta::new(1, 0, 0).total_pages, 0);
    let p = PaginatedResponse::new("list", vec![1, 2], ResponseMeta::new(2, 2, 4));
    assert!(p.success);
    assert_eq!(p.meta.page, 2);
    assert_eq!(p.data, vec![1, 2]);
}

#[test]
fn validation_error_details_keep_every_error_in_order() {
    let v: ApiResponse<()> = ApiResponse::validation_error(vec![
        ValidationError { field: "a".to_string(), message: "x".to_string() },
        ValidationError { field: "b".to_string(), message: "y".to_string() },
    ]);
    assert_eq!(
        v.error.unwrap().details.unwrap().to_string(),
        r#"[{"field":"a","message":"x"},{"field":"b","message":"y"}]"#
    );
    let empty: ApiResponse<()> = ApiResponse::validation_error(Vec::new());
    assert_eq!(empty.error.unwrap().details.unwrap().to_string(), "[]");
}
