use aksver::cache::{CacheStep, ResponseCache};
use aksver::errors::{AksError, AzureInnerError};
use aksver::handler::{
    build_kubernetes_versions_url, build_orchestrators_url, cache_key, validate_location,
    INVALID_CHARS_DETAIL,
};
use aksver::state::AppState;
use aksver::retry::{RetryAction, RetryPolicy};
use aksver::upstream::handle_azure_response;

#[test]
fn location_is_trimmed() {
    assert_eq!(validate_location("  eastus \n").unwrap(), "eastus");
    assert_eq!(validate_location("westeurope2").unwrap(), "westeurope2");
}

#[test]
fn empty_location_is_validation_error() {
    assert!(matches!(validate_location(""), Err(AksError::Validation)));
    assert!(matches!(validate_location("   "), Err(AksError::Validation)));
    assert_eq!(AksError::Validation.http_status(), 400);
}

#[test]
fn bad_location_rejected_before_upstream() {
    let err = validate_location("bad location!").unwrap_err();
    match &err {
        AksError::InvalidLocation { location, details } => {
            assert_eq!(location, "bad location!");
            assert_eq!(details, INVALID_CHARS_DETAIL);
        }
        other => panic!("unexpected {:?}", other),
    }
    assert_eq!(err.http_status(), 400);
    assert!(err.is_client_error());
    assert!(matches!(validate_location("east-us"), Err(AksError::InvalidLocation { .. })));
}

#[test]
fn location_not_found_body_is_invalid_location() {
    let body = "{\"message\": \"location not found: nowhere\"}";
    let err = handle_azure_response(404, body, &None, "nowhere", "https://x").unwrap_err();
    match &err {
        AksError::InvalidLocation { location, details } => {
            assert_eq!(location, "nowhere");
            assert_eq!(details, body);
        }
        other => panic!("unexpected {:?}", other),
    }
    assert_eq!(err.http_status(), 400);
    let mut p = RetryPolicy::standard();
    assert_eq!(p.on_failure(&err, 0), RetryAction::Finish);
}

#[test]
fn error_code_names_invalid_location() {
    let inner = AzureInnerError {
        code: "NoRegisteredProviderFound".to_string(),
        message: "No registered resource provider found for location 'mars'".to_string(),
    };
    let err = handle_azure_response(400, "{}", &Some(inner), "mars", "u").unwrap_err();
    match err {
        AksError::InvalidLocation { details, .. } => {
            assert_eq!(details, "No registered resource provider found for location 'mars'")
        }
        other => panic!("unexpected {:?}", other),
    }
}

#[test]
fn other_failures_are_http_errors() {
    let inner = AzureInnerError { code: "AuthorizationFailed".to_string(), message: "denied".to_string() };
    let err = handle_azure_response(403, "{...}", &Some(inner), "eastus", "https://x").unwrap_err();
    match &err {
        AksError::AzureHttp { status, message, url } => {
            assert_eq!(*status, 403);
            assert_eq!(message, "denied");
            assert_eq!(url, "https://x");
        }
        other => panic!("unexpected {:?}", other),
    }
    assert_eq!(err.http_status(), 403);
    let err = handle_azure_response(503, "busy", &None, "eastus", "u").unwrap_err();
    assert_eq!(err.http_status(), 503);
    // "location not found" in a 5xx body is not a location error.
    let err = handle_azure_response(500, "location not found", &None, "x", "u").unwrap_err();
    assert!(matches!(err, AksError::AzureHttp { status: 500, .. }));
    assert!(handle_azure_response(200, "", &None, "eastus", "u").is_ok());
}

#[test]
fn error_statuses() {
    assert_eq!(AksError::AzureClient { message: "x".to_string() }.http_status(), 503);
    assert_eq!(AksError::CredentialUnavailable.http_status(), 503);
    assert_eq!(AksError::Parse("x".to_string()).http_status(), 500);
    assert_eq!(
        AksError::AzureHttp { status: 429, message: String::new(), url: String::new() }.http_status(),
        503
    );
    assert_eq!(
        AksError::AzureHttp { status: 42, message: String::new(), url: String::new() }.http_status(),
        503
    );
}

#[test]
fn cache_key_joins_parts() {
    assert_eq!(cache_key("sub-1", "eastus", false), "sub-1:eastus:false");
    let st = AppState::new(settings("sub-2", true), 0);
    assert_eq!(st.cache_key("westus"), "sub-2:westus:true");
}

#[test]
fn upstream_urls() {
    assert_eq!(
        build_orchestrators_url("s1", "eastus"),
        "https://management.azure.com/subscriptions/s1/providers/Microsoft.ContainerService/locations/eastus/orchestrators?api-version=2020-11-01"
    );
    assert_eq!(
        build_kubernetes_versions_url("s1", "eastus"),
        "https://management.azure.com/subscriptions/s1/providers/Microsoft.ContainerService/locations/eastus/kubernetesVersions?api-version=2025-10-01"
    );
}

#[test]
fn rejected_location_never_reaches_cache() {
    let st = AppState::new(settings("sub", false), 0);
    let mut c: ResponseCache<u32> = ResponseCache::new(60, 10);
    assert!(matches!(st.begin_request(&mut c, "bad location!", 0), Err(AksError::InvalidLocation { .. })));
    assert!(matches!(st.begin_request(&mut c, " ", 0), Err(AksError::Validation)));
    let (loc, key, step) = st.begin_request(&mut c, " eastus", 1).unwrap();
    assert_eq!(loc, "eastus");
    assert_eq!(key, "sub:eastus:false");
    assert_eq!(step, CacheStep::Fetch);
    let (_, _, step) = st.begin_request(&mut c, "eastus", 2).unwrap();
    assert_eq!(step, CacheStep::Join);
}

fn settings(subscription: &str, show_preview: bool) -> aksver::config::Config {
    aksver::config::Config {
        subscription_id: subscription.to_string(),
        show_preview,
        port: 8080,
        cache_ttl_seconds: 3600,
    }
}
