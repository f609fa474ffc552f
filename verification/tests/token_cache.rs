use d365_odata::auth::{
    resource_from_endpoint, resource_from_origin, scope_for, token_endpoint, token_request_failed,
    AzureAdAuth, CachedToken, Origin, TokenCache, TokenStep, SAFETY_MARGIN_MS,
};
use d365_odata::error::AuthError;

#[test]
fn test_create_auth() {
    let auth = AzureAdAuth::new(
        "tenant-id".to_string(),
        "client-id".to_string(),
        "secret".to_string(),
    );
    assert_eq!(auth.tenant_id, "tenant-id");
    assert_eq!(auth.client_id, "client-id");
}

#[test]
fn test_token_endpoint() {
    let auth = AzureAdAuth::new(
        "my-tenant".to_string(),
        "client-id".to_string(),
        "secret".to_string(),
    );
    assert_eq!(
        auth.token_endpoint(),
        "https://login.microsoftonline.com/my-tenant/oauth2/v2.0/token"
    );
    assert_eq!(token_endpoint(""), "https://login.microsoftonline.com//oauth2/v2.0/token");
}

#[test]
fn test_resource_from_endpoint() {
    assert_eq!(
        resource_from_endpoint("https://org.crm.dynamics.com/api/data/v9.2/"),
        "https://org.crm.dynamics.com"
    );
    assert_eq!(
        resource_from_endpoint("https://org.operations.dynamics.com/data/"),
        "https://org.operations.dynamics.com"
    );
}

#[test]
fn resource_drops_port_query_and_case() {
    assert_eq!(
        resource_from_endpoint("HTTPS://Org.CRM.dynamics.com:8443/api?x=1#top"),
        "https://org.crm.dynamics.com"
    );
    assert_eq!(resource_from_endpoint("mailto:someone@example.com"), "mailto://");
}

#[test]
fn resource_falls_back_to_three_segments() {
    assert_eq!(resource_from_endpoint("org.crm.dynamics.com/api/data/v9.2/"), "org.crm.dynamics.com/api/data");
    assert_eq!(resource_from_endpoint("//host/path/more"), "//host");
    assert_eq!(resource_from_endpoint("no-slashes"), "no-slashes");
    assert_eq!(resource_from_endpoint(""), "");
    assert_eq!(resource_from_endpoint("a/b"), "a/b");
    assert_eq!(resource_from_endpoint("a/b/"), "a/b/");
    assert_eq!(resource_from_endpoint("a/b/c/"), "a/b/c");
}

#[test]
fn resource_from_a_given_origin() {
    let origin = Origin { scheme: "https".to_string(), host: Some("h.example".to_string()) };
    assert_eq!(resource_from_origin("ignored", Some(origin)), "https://h.example");
    let origin = Origin { scheme: "file".to_string(), host: None };
    assert_eq!(resource_from_origin("ignored", Some(origin)), "file://");
    assert_eq!(resource_from_origin("x/y/z/w", None), "x/y/z");
}

#[test]
fn test_cached_token_validity() {
    let now: u64 = 10_000_000;
    let valid_token = CachedToken { access_token: "test".to_string(), expires_at: now + 3_600_000 };
    assert!(valid_token.is_valid(now));

    let expired_token = CachedToken { access_token: "test".to_string(), expires_at: now - 60_000 };
    assert!(!expired_token.is_valid(now));
}

#[test]
fn validity_ends_at_the_safety_margin() {
    let now: u64 = 5_000;
    assert_eq!(SAFETY_MARGIN_MS, 60_000);
    let token = |expires_at: u64| CachedToken { access_token: "t".to_string(), expires_at };
    assert!(token(now + 60_001).is_valid(now));
    assert!(!token(now + 60_000).is_valid(now));
    assert!(!token(now + 59_999).is_valid(now));
    assert!(!token(now).is_valid(now));
    assert!(!token(0).is_valid(now));
    assert!(!token(u64::MAX).is_valid(u64::MAX - 10));
    assert!(token(u64::MAX).is_valid(u64::MAX - 60_001));
}

#[test]
fn cache_serves_only_a_valid_token() {
    let mut cache = TokenCache::new();
    assert_eq!(cache.lookup(0), None);
    cache.store("abc".to_string(), 1_000, 3600);
    assert_eq!(cache.slot.as_ref().map(|t| t.expires_at), Some(3_601_000));
    assert_eq!(cache.lookup(1_000), Some("abc".to_string()));
    assert_eq!(cache.lookup(3_540_999), Some("abc".to_string()));
    assert_eq!(cache.lookup(3_541_000), None);
    cache.store("def".to_string(), 3_541_000, 61);
    assert_eq!(cache.lookup(3_541_000), Some("def".to_string()));
    cache.store("short".to_string(), 3_541_000, 60);
    assert_eq!(cache.lookup(3_541_000), None);
    cache.store("ghi".to_string(), 4_000_000, 3600);
    cache.clear();
    assert_eq!(cache.lookup(4_000_000), None);
}

#[test]
fn second_caller_reuses_the_token_of_the_first() {
    let mut auth = AzureAdAuth::new("t".to_string(), "id".to_string(), "pw".to_string());
    let now = 42_000;
    let request = match auth.next_step("https://org.crm.dynamics.com", now) {
        TokenStep::Request(request) => request,
        other => panic!("unexpected step: {:?}", other),
    };
    assert_eq!(request.url, "https://login.microsoftonline.com/t/oauth2/v2.0/token");
    assert_eq!(
        request.form,
        vec![
            ("grant_type".to_string(), "client_credentials".to_string()),
            ("client_id".to_string(), "id".to_string()),
            ("client_secret".to_string(), "pw".to_string()),
            ("scope".to_string(), "https://org.crm.dynamics.com/.default".to_string()),
        ]
    );
    assert_eq!(auth.accept("tok".to_string(), 3600, now), "tok");
    for _ in 0..5 {
        match auth.next_step("https://org.crm.dynamics.com", now + 1) {
            TokenStep::Serve(token) => assert_eq!(token, "tok"),
            other => panic!("unexpected step: {:?}", other),
        }
    }
    auth.clear_cache();
    assert!(matches!(auth.next_step("https://org.crm.dynamics.com", now + 1), TokenStep::Request(_)));
}

#[test]
fn scope_never_doubles_the_slash() {
    assert_eq!(scope_for("https://org.crm.dynamics.com"), "https://org.crm.dynamics.com/.default");
    assert_eq!(scope_for("https://org.crm.dynamics.com/"), "https://org.crm.dynamics.com/.default");
    assert_eq!(scope_for(""), "/.default");
}

#[test]
fn refused_token_request_carries_status_and_body() {
    match token_request_failed("401 Unauthorized", "{\"error\":\"invalid_client\"}") {
        AuthError::TokenRequestFailed(message) => {
            assert_eq!(message, "Status: 401 Unauthorized, Body: {\"error\":\"invalid_client\"}");
        }
        other => panic!("unexpected error: {:?}", other),
    }
}
