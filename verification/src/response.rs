//! Standard API responses: success and error envelopes, validation errors,
//! and pagination.
use vstd::prelude::*;
use crate::json::{json_string, json_object, json_array, json_string_of, json_object_of, json_array_of, entries_view};

verus! {

/// Standard API response wrapper for consistent responses across the workspace
#[derive(Debug)]
pub struct ApiResponse<T> {
    pub success: bool,
    pub message: String,
    pub data: Option<T>,
    pub error: Option<ApiError>,
    pub meta: Option<ResponseMeta>,
}

impl<T> ApiResponse<T> {
    /// Create a successful response with data
    pub fn success_data(message: &str, data: T) -> (r: Self)
        ensures
            r.success,
            r.message@ == message@,
            r.data == Some(data),
            r.error is None,
            r.meta is None,
    {
        ApiResponse { success: true, message: message.to_owned(), data: Some(data), error: None, meta: None }
    }

    /// Create a successful response without data
    pub fn ok(message: &str) -> (r: Self)
        ensures
            r.success,
            r.message@ == message@,
            r.data is None,
            r.error is None,
            r.meta is None,
    {
        ApiResponse { success: true, message: message.to_owned(), data: None, error: None, meta: None }
    }

    /// Create an error response
    pub fn error(message: &str, error: Option<ApiError>) -> (r: Self)
        ensures
            !r.success,
            r.message@ == message@,
            r.data is None,
            r.error == error,
            r.meta is None,
    {
        ApiResponse { success: false, message: message.to_owned(), data: None, error, meta: None }
    }

    /// Create a validation error response: "Validation failed", with the
    /// code "VALIDATION_ERROR" and the errors as details, a JSON array of
    /// objects with their field and message.
    pub fn validation_error(errors: Vec<ValidationError>) -> (r: Self)
        ensures
            !r.success,
            r.message@ == "Validation failed"@,
            r.data is None,
            r.error matches Some(e) && e.code@ == "VALIDATION_ERROR"@
                && e.details == Some(json_array_of(validation_details(errors@))),
            r.meta is None,
    {
        let mut items: Vec<serde_json::Value> = Vec::new();
        let mut i: usize = 0;
        while i < errors.len()
            invariant
                i <= errors@.len(),
                items@ == validation_details(errors@.take(i as int)),
            decreases errors@.len() - i,
        {
            let mut entries: Vec<(String, serde_json::Value)> = Vec::new();
            entries.push((String::from_str("field"), json_string(errors[i].field.as_str())));
            entries.push((String::from_str("message"), json_string(errors[i].message.as_str())));
            assert(entries_view(entries@) =~= seq![
                ("field"@, json_string_of(errors@[i as int].field@)),
                ("message"@, json_string_of(errors@[i as int].message@)),
            ]);
            let item = json_object(entries);
            let ghost before = items@;
            items.push(item);
            assert(errors@.take(i + 1).drop_last() =~= errors@.take(i as int));
            assert(items@ =~= validation_details(errors@.take(i + 1)));
            i = i + 1;
        }
        assert(errors@.take(errors@.len() as int) =~= errors@);
        ApiResponse {
            success: false,
            message: String::from_str("Validation failed"),
            data: None,
            error: Some(ApiError { code: String::from_str("VALIDATION_ERROR"), details: Some(json_array(items)) }),
            meta: None,
        }
    }

    /// Add pagination metadata to response
    pub fn with_meta(self, meta: ResponseMeta) -> (r: Self)
        ensures
            r == (ApiResponse { meta: Some(meta), ..self }),
    {
        ApiResponse { meta: Some(meta), ..self }
    }
}

/// API Error structure
#[derive(Debug, Clone)]
pub struct ApiError {
    pub code: String,
    pub details: Option<serde_json::Value>,
}

/// Validation error for form/API input
#[derive(Debug, Clone)]
pub struct ValidationError {
    pub field: String,
    pub message: String,
}

/// The JSON form of a validation error: an object with its field and message.
pub open spec fn validation_item(e: ValidationError) -> serde_json::Value {
    json_object_of(seq![("field"@, json_string_of(e.field@)), ("message"@, json_string_of(e.message@))])
}

/// The JSON forms of validation errors, in their order.
pub open spec fn validation_details(errors: Seq<ValidationError>) -> Seq<serde_json::Value>
    decreases errors.len(),
{
    if errors.len() == 0 {
        seq![]
    } else {
        validation_details(errors.drop_last()).push(validation_item(errors.last()))
    }
}

/// Pagination metadata
#[derive(Debug, Clone, Copy)]
pub struct ResponseMeta {
    pub page: u32,
    pub per_page: u32,
    pub total: u64,
    pub total_pages: u32,
}

/// The number of pages that `total` items fill at `per_page` a page, rounded
/// up and capped at `u32::MAX`; with no item a page, 0 pages when there is
/// no item and `u32::MAX` otherwise.
pub open spec fn total_pages_of(total: u64, per_page: u32) -> u32 {
    if per_page == 0 {
        if total == 0 { 0 } else { u32::MAX }
    } else {
        let q = (total + per_page - 1) / (per_page as int);
        if q > u32::MAX { u32::MAX } else { q as u32 }
    }
}

impl ResponseMeta {
    /// Pagination of `total` items, `per_page` a page; see `total_pages_of`.
    pub fn new(page: u32, per_page: u32, total: u64) -> (r: Self)
        ensures
            r.page == page,
            r.per_page == per_page,
            r.total == total,
            r.total_pages == total_pages_of(total, per_page),
    {
        let total_pages: u32 = if per_page == 0 {
            if total == 0 { 0 } else { u32::MAX }
        } else {
            let p = per_page as u64;
            assert(total % p != 0 ==> total / p < 18446744073709551615) by (nonlinear_arith)
                requires
                    p > 0;
            let q: u64 = total / p + if total % p != 0 { 1 } else { 0 };
            assert(q == (total + per_page - 1) / (per_page as int)) by (nonlinear_arith)
                requires
                    p == per_page,
                    p > 0,
                    q == total / p + if total % p != 0 { 1int } else { 0int };
            if q > 4294967295 { u32::MAX } else { q as u32 }
        };
        ResponseMeta { page, per_page, total, total_pages }
    }
}

/// Paginated response helper
#[derive(Debug)]
pub struct PaginatedResponse<T> {
    pub success: bool,
    pub message: String,
    pub data: Vec<T>,
    pub meta: ResponseMeta,
}

impl<T> PaginatedResponse<T> {
    pub fn new(message: &str, data: Vec<T>, meta: ResponseMeta) -> (r: Self)
        ensures
            r.success,
            r.message@ == message@,
            r.data == data,
            r.meta == meta,
    {
        PaginatedResponse { success: true, message: message.to_owned(), data, meta }
    }
}

/// Where the count is not capped, the pages hold every item and the last
/// page is not empty: `(pages - 1) * per_page < total <= pages * per_page`.
pub proof fn pages_cover_items(total: u64, per_page: u32)
    requires
        per_page > 0,
        total_pages_of(total, per_page) < u32::MAX,
    ensures
        total <= total_pages_of(total, per_page) * per_page,
        total > 0 ==> (total_pages_of(total, per_page) - 1) * per_page < total,
{
    let p = per_page as int;
    let t = total as int;
    let q = (t + p - 1) / p;
    assert(q == total_pages_of(total, per_page));
    assert(t <= q * p && (t > 0 ==> (q - 1) * p < t)) by (nonlinear_arith)
        requires
            p > 0,
            t >= 0,
            q == (t + p - 1) / p;
}

} // verus!
