//! The pipeline rules on their own: envelope unwrapping, status
//! classification, parameter rendering, and the decode faults.
use cufinder::envelope::{classify_status, parse_json, process_response, unwrap_envelope};
use cufinder::ops::{
    bcd_handle_response, ccp_handle_response, cse_build_request, cuf_build_request,
    cuf_handle_response, isc_handle_response, pse_build_request, rel_build_request,
};
use cufinder::{CseParams, CufParams, CufinderError, JsonValue, PseParams, RelParams};

fn obj_member<'a>(v: &'a JsonValue, key: &str) -> Option<&'a JsonValue> {
    match v {
        JsonValue::Obj(entries) => entries.iter().find(|e| e.0 == key).map(|e| &e.1),
        _ => None,
    }
}

#[test]
fn envelope_data_with_sibling_meta_is_merged() {
    let body = r#"{
        "data": {"domain": "techcorp.com", "query": "TechCorp", "meta_data": "stale"},
        "meta_data": {"credits_left": 5}
    }"#;
    let result = cuf_handle_response(200, body).unwrap();
    assert_eq!(result.domain, "techcorp.com");
    // the sibling wins over the meta_data the data object already carried
    let meta = result.base.meta_data.expect("meta_data should be present");
    let credits = obj_member(&meta, "credits_left").expect("the sibling object");
    assert!(matches!(credits, JsonValue::Int(5)));
}

#[test]
fn envelope_data_without_meta_is_unwrapped_alone() {
    let body = r#"{"data": {"domain": "techcorp.com", "credit_count": 2}}"#;
    let result = cuf_handle_response(200, body).unwrap();
    assert_eq!(result.domain, "techcorp.com");
    assert_eq!(result.base.credit_count, Some(2));
    assert!(result.base.meta_data.is_none());
}

#[test]
fn envelope_absent_data_leaves_payload_unchanged() {
    let wrapped = r#"{"data": {"domain": "techcorp.com", "query": "TechCorp"}}"#;
    let bare = r#"{"domain": "techcorp.com", "query": "TechCorp"}"#;
    let from_wrapped = cuf_handle_response(200, wrapped).unwrap();
    let from_bare = cuf_handle_response(200, bare).unwrap();
    assert_eq!(from_wrapped.domain, from_bare.domain);
    assert!(matches!(from_bare.base.query, Some(JsonValue::Str(ref s)) if s == "TechCorp"));
}

#[test]
fn envelope_non_object_data_is_returned_as_is() {
    // the data value replaces the payload even when it is no object, and
    // the sibling meta_data is then not injected; decoding must fail
    let body = r#"{"data": 5, "meta_data": {"credits_left": 1}}"#;
    let result = cuf_handle_response(200, body);
    assert!(matches!(result, Err(CufinderError::JsonError(_))));
}

#[test]
fn unwrap_envelope_is_observable_directly() {
    let v = parse_json(r#"{"data": {"a": 1, "meta_data": 0}, "meta_data": 7}"#).unwrap();
    let unwrapped = unwrap_envelope(&v);
    assert!(matches!(
        obj_member(&unwrapped, "a"),
        Some(JsonValue::Int(1))
    ));
    assert!(matches!(
        obj_member(&unwrapped, "meta_data"),
        Some(JsonValue::Int(7))
    ));
}

#[test]
fn status_401_is_an_authentication_failure() {
    let e = classify_status(401, "denied".to_string()).unwrap();
    assert!(matches!(e, CufinderError::AuthenticationError(ref m) if m == "denied"));
}

#[test]
fn status_429_is_a_rate_limit_failure() {
    let e = classify_status(429, "slow down".to_string()).unwrap();
    assert!(matches!(e, CufinderError::RateLimitError(ref m) if m == "slow down"));
}

#[test]
fn status_402_is_a_credit_failure() {
    let e = classify_status(402, "top up".to_string()).unwrap();
    assert!(matches!(e, CufinderError::CreditLimitError(ref m) if m == "top up"));
}

#[test]
fn status_500_is_a_generic_api_failure_with_status_and_body() {
    let result = cuf_handle_response(500, "server exploded");
    match result {
        Err(CufinderError::ApiError { status, message }) => {
            assert_eq!(status, 500);
            assert_eq!(message, "server exploded");
        }
        other => panic!("expected a generic API failure, got {:?}", other),
    }
}

#[test]
fn status_404_is_a_generic_api_failure() {
    let result = cuf_handle_response(404, "not found");
    assert!(matches!(
        result,
        Err(CufinderError::ApiError { status: 404, .. })
    ));
}

#[test]
fn statuses_inside_2xx_are_successes() {
    assert!(classify_status(200, String::new()).is_none());
    assert!(classify_status(204, String::new()).is_none());
    assert!(classify_status(299, String::new()).is_none());
    assert!(classify_status(300, String::new()).is_some());
    assert!(classify_status(199, String::new()).is_some());
}

#[test]
fn malformed_body_is_a_json_error() {
    let result = cuf_handle_response(200, "this is not json");
    assert!(matches!(result, Err(CufinderError::JsonError(_))));
    let result = cuf_handle_response(200, "");
    assert!(matches!(result, Err(CufinderError::JsonError(_))));
}

#[test]
fn missing_required_member_is_a_json_error() {
    // a well-formed object without the required `domain` member
    let result = cuf_handle_response(200, r#"{"query": "TechCorp"}"#);
    assert!(matches!(result, Err(CufinderError::JsonError(_))));
}

#[test]
fn wrongly_typed_member_is_a_json_error() {
    let result = cuf_handle_response(200, r#"{"domain": 42}"#);
    assert!(matches!(result, Err(CufinderError::JsonError(_))));
    // an integer too wide for the declared 32-bit field
    let result = cuf_handle_response(200, r#"{"domain": "x", "credit_count": 3000000000}"#);
    assert!(matches!(result, Err(CufinderError::JsonError(_))));
}

#[test]
fn process_response_hands_back_the_unwrapped_payload() {
    let payload = process_response(200, r#"{"data": {"k": true}}"#).unwrap();
    assert!(matches!(obj_member(&payload, "k"), Some(JsonValue::Bool(true))));
}

#[test]
fn form_rendering_escapes_and_orders_pairs() {
    let req = cuf_build_request(&CufParams {
        company_name: "Tech Corp & Co".to_string(),
        country_code: "US".to_string(),
    })
    .unwrap();
    assert_eq!(req.body, "company_name=Tech+Corp+%26+Co&country_code=US");
}

#[test]
fn numeric_and_boolean_filters_render_in_decimal() {
    let req = cse_build_request(&CseParams {
        followers_count_min: Some(-5),
        is_school: Some(true),
        page: Some(12),
        ..Default::default()
    })
    .unwrap();
    assert_eq!(req.body, "followers_count_min=-5&is_school=true&page=12");
}

#[test]
fn empty_filters_render_an_empty_body() {
    let req = cse_build_request(&CseParams::default()).unwrap();
    assert_eq!(req.body, "");
    assert_eq!(req.path, "/cse");
}

#[test]
fn list_valued_filters_are_rejected_as_unencodable() {
    let result = cse_build_request(&CseParams {
        products_services: Some(vec!["crm".to_string()]),
        ..Default::default()
    });
    match result {
        Err(CufinderError::ValidationError(m)) => {
            assert_eq!(m, "Failed to encode form data: unsupported value");
        }
        other => panic!("expected a validation error, got {:?}", other),
    }
    let result = pse_build_request(&PseParams {
        company_products_services: Some(vec![]),
        ..Default::default()
    });
    assert!(matches!(result, Err(CufinderError::ValidationError(_))));
}

#[test]
fn rel_requires_a_non_empty_email() {
    let result = rel_build_request(&RelParams { email: String::new() });
    assert!(matches!(
        result,
        Err(CufinderError::ValidationError(ref m)) if m == "email is required"
    ));
    let req = rel_build_request(&RelParams { email: "a@b.c".to_string() }).unwrap();
    assert_eq!(req.path, "/rel");
    assert_eq!(req.body, "email=a%40b.c");
}

#[test]
fn url_operations_decode_their_payloads() {
    let result = bcd_handle_response(200, r#"{"customers": ["x.com", "y.com"]}"#).unwrap();
    assert_eq!(result.customers, vec!["x.com".to_string(), "y.com".to_string()]);
    let result = ccp_handle_response(200, r#"{"careers_page": "https://x.com/jobs"}"#).unwrap();
    assert_eq!(result.careers_page, "https://x.com/jobs");
    let result = isc_handle_response(200, r#"{"saas": true}"#).unwrap();
    assert!(result.saas);
}

#[test]
fn null_members_decode_as_absent() {
    let body = r#"{"domain": "x.com", "query": null, "credit_count": null}"#;
    let result = cuf_handle_response(200, body).unwrap();
    assert!(result.base.query.is_none());
    assert_eq!(result.base.credit_count, None);
}

#[test]
fn default_config_points_at_the_production_endpoint() {
    let c = cufinder::ClientConfig::default();
    assert_eq!(c.base_url, "https://api.cufinder.io/v2");
    assert_eq!(c.api_key, "");
    assert_eq!(c.timeout_secs, 30);
    assert_eq!(c.max_retries, 3);
}
