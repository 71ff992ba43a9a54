use aerolithdb::json::{JsonNumber, JsonValue};
use aerolithdb::saas_service::{
    Outcome, ServiceError, found_or_status, invoices_reply, login_reply, tenants_with_tier, calculate_billing, check_quota, deprovision_cluster, get_admin_metrics, get_cluster_status,
    get_pricing_tiers, get_quota_violations, get_saas_status, get_system_metrics, get_tenant_analytics,
    initiate_sso_auth, list_sso_providers, refresh_token, provision_cluster, query_usage_analytics, saas_health, saas_health_check,
    validate_sso_session,
};

fn s<'a>(v: &'a JsonValue, k: &str) -> &'a str {
    match v.get(k) {
        Some(JsonValue::Str(t)) => t.as_str(),
        other => panic!("{} is not a string: {:?}", k, other),
    }
}

fn u(v: &JsonValue, k: &str) -> u64 {
    match v.get(k) {
        Some(JsonValue::Number(JsonNumber::PosInt(n))) => *n,
        other => panic!("{} is not an integer: {:?}", k, other),
    }
}

fn f<'a>(v: &'a JsonValue, k: &str) -> &'a str {
    match v.get(k) {
        Some(JsonValue::Number(JsonNumber::Float(t))) => t.as_str(),
        other => panic!("{} is not a fraction: {:?}", k, other),
    }
}

fn b(v: &JsonValue, k: &str) -> bool {
    match v.get(k) {
        Some(JsonValue::Bool(x)) => *x,
        other => panic!("{} is not a boolean: {:?}", k, other),
    }
}

fn items(v: &JsonValue) -> &Vec<JsonValue> {
    match v {
        JsonValue::Array(xs) => xs,
        other => panic!("not an array: {:?}", other),
    }
}

#[test]
fn pricing_and_billing() {
    let p = get_pricing_tiers();
    let tiers = items(p.get("tiers").unwrap());
    assert_eq!(tiers.len(), 2);
    assert_eq!(s(&tiers[0], "name"), "starter");
    assert_eq!(f(&tiers[0], "base_fee"), "29.0");
    assert_eq!(u(tiers[1].get("included_quotas").unwrap(), "max_storage_bytes"), 10737418240);
    assert_eq!(f(tiers[1].get("overage_rates").unwrap(), "api_calls_per_1k"), "0.008");
    let bill = calculate_billing();
    assert_eq!(f(&bill, "total_amount"), "55.55");
    assert_eq!(f(bill.get("usage_charges").unwrap(), "api_calls"), "12.3");
    assert_eq!(s(&bill, "currency"), "USD");
}

#[test]
fn quotas() {
    let v = get_quota_violations();
    assert_eq!(v.len(), 1);
    assert_eq!(s(&v[0], "enforcement_action"), "Throttle");
    assert_eq!(f(&v[0], "violation_percentage"), "111.8");
    let ok = check_quota("t1", "write", 500, Some(true)).unwrap();
    assert!(b(&ok, "allowed"));
    assert_eq!(s(&ok, "tenant_id"), "t1");
    assert_eq!(s(&ok, "operation_type"), "write");
    assert_eq!(u(&ok, "resource_delta"), 500);
    assert!(matches!(check_quota("t1", "write", 1, None), Err(ServiceError::Internal)));
}

#[test]
fn sign_on() {
    let providers = list_sso_providers();
    let ps = items(providers.get("providers").unwrap());
    assert_eq!(ps.len(), 3);
    assert_eq!(s(&ps[2], "type"), "SAML");
    assert!(!b(&ps[2], "enabled"));
    let r = initiate_sso_auth(Some("https://login".to_string())).unwrap();
    assert_eq!(s(&r, "auth_url"), "https://login");
    assert_eq!(s(&r, "status"), "initiated");
    assert!(initiate_sso_auth(None).is_err());
    let valid = validate_sso_session(Some(JsonValue::Str("sess".to_string())));
    assert!(b(&valid, "valid"));
    assert_eq!(s(&valid, "session"), "sess");
    let invalid = validate_sso_session(None);
    assert!(!b(&invalid, "valid"));
    assert_eq!(s(&invalid, "error"), "Invalid or expired session");
}

#[test]
fn analytics_and_metrics() {
    let a = query_usage_analytics();
    assert_eq!(u(&a, "total_tenants"), 150);
    assert_eq!(s(&items(a.get("top_operations").unwrap())[1], "operation"), "query_documents");
    let t = get_tenant_analytics("tenant-9");
    assert_eq!(s(&t, "tenant_id"), "tenant-9");
    assert_eq!(f(&t, "error_rate"), "0.02");
    let m = get_system_metrics();
    assert_eq!(f(&m, "cache_hit_rate"), "0.94");
    assert_eq!(u(&m, "uptime_seconds"), 2592000);
    let st = get_saas_status();
    assert!(!b(st.get("features").unwrap(), "provisioning"));
    assert_eq!(f(st.get("statistics").unwrap(), "monthly_revenue"), "12750.0");
    let am = get_admin_metrics();
    assert_eq!(f(am.get("billing_metrics").unwrap(), "average_billing_amount"), "89.47");
    assert_eq!(s(am.get("quota_metrics").unwrap(), "most_common_violation"), "storage");
}

#[test]
fn clusters_and_health() {
    let p = provision_cluster();
    assert_eq!(s(&p, "cluster_id"), "cluster-abc123");
    let st = get_cluster_status("c7");
    assert_eq!(s(&st, "cluster_id"), "c7");
    assert_eq!(u(&st, "nodes"), 3);
    let e = st.get("endpoints").unwrap();
    assert_eq!(s(e, "rest"), "https://c7.aerolithdb.cloud:8080");
    assert_eq!(s(e, "grpc"), "c7.aerolithdb.cloud:9090");
    assert_eq!(s(e, "websocket"), "wss://c7.aerolithdb.cloud:8083");
    assert_eq!(s(&deprovision_cluster("c7"), "status"), "deprovisioning");
    let h = saas_health_check("2024-05-01T00:00:00Z");
    assert_eq!(s(&h, "timestamp"), "2024-05-01T00:00:00Z");
    assert_eq!(s(h.get("services").unwrap(), "provisioning_engine"), "healthy");
    assert_eq!(u(&h, "uptime_seconds"), 86400);
    let h2 = saas_health("now");
    assert_eq!(s(&h2, "status"), "healthy");
    assert_eq!(s(h2.get("services").unwrap(), "saas_manager"), "healthy");
}

#[test]
fn lookups_logins_and_listings() {
    assert_eq!(found_or_status(Outcome::Found(7)), Ok(7));
    assert_eq!(found_or_status::<u8>(Outcome::Missing), Err(ServiceError::NotFound));
    assert_eq!(found_or_status::<u8>(Outcome::Failed), Err(ServiceError::Internal));
    assert_eq!(login_reply(Some("s"), Outcome::Found(1)), Ok(("s", 1)));
    assert_eq!(login_reply::<&str, u8>(None, Outcome::Found(1)), Err(ServiceError::Unauthorized));
    assert_eq!(login_reply::<&str, u8>(Some("s"), Outcome::Missing), Err(ServiceError::NotFound));
    let tiers = vec!["pro".to_string(), "free".to_string(), "pro".to_string()];
    assert_eq!(tenants_with_tier(&tiers, Some("pro")), vec![0, 2]);
    assert_eq!(tenants_with_tier(&tiers, None), vec![0, 1, 2]);
    assert!(tenants_with_tier(&tiers, Some("gold")).is_empty());
    assert_eq!(invoices_reply::<u8>(false, None), Ok(vec![]));
    assert_eq!(invoices_reply(true, Some(vec![1, 2])), Ok(vec![1, 2]));
    assert_eq!(invoices_reply::<u8>(true, None), Err(ServiceError::Internal));
}

#[test]
fn token_refresh_reply() {
    let r = refresh_token(&aerolithdb::api::RefreshTokenRequest { refresh_token: "t".to_string() });
    assert_eq!(s(&r, "message"), "Token refresh not yet implemented");
    assert_eq!(s(&r, "status"), "placeholder");
}
