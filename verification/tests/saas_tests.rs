use aerolithdb::json::JsonValue;
use aerolithdb::saas::{
    AdminCommand, AuthCommand, BillingCommand, HttpMethod, MonitorCommand, QuotaCommand, SaaSCommand, SaasError,
    SsoCommand, TenantCommand, bearer_token, confirms, monitor_interval, monitor_request, needs_confirmation,
    quota_violations, saas_request, saas_request_with_state, service_health, usage_readings,
};

fn obj(members: Vec<(&str, JsonValue)>) -> JsonValue {
    JsonValue::Object(members.into_iter().map(|(k, v)| (k.to_string(), v)).collect())
}

fn s(x: &str) -> JsonValue {
    JsonValue::Str(x.to_string())
}

#[test]
fn tenant_list_query_parameters() {
    let r = saas_request(SaaSCommand::Tenant(TenantCommand::List {
        limit: 50,
        offset: 0,
        status: None,
        tier: Some("pro".to_string()),
    }))
    .unwrap();
    assert_eq!(r.method, HttpMethod::Get);
    assert_eq!(r.path, "/api/v1/saas/tenants");
    assert_eq!(
        r.query,
        vec![
            ("limit".to_string(), "50".to_string()),
            ("offset".to_string(), "0".to_string()),
            ("subscription_tier".to_string(), "pro".to_string()),
        ]
    );
}

#[test]
fn tenant_create_body_keys_sorted() {
    let r = saas_request(SaaSCommand::Tenant(TenantCommand::Create {
        name: "Acme".to_string(),
        domain: None,
        tier: "starter".to_string(),
        billing_email: Some("a@b.c".to_string()),
    }))
    .unwrap();
    assert_eq!(r.method, HttpMethod::Post);
    match r.body.unwrap() {
        JsonValue::Object(m) => {
            let keys: Vec<&str> = m.iter().map(|(k, _)| k.as_str()).collect();
            assert_eq!(keys, vec!["billing_info", "organization_domain", "organization_name", "subscription_tier"]);
            assert!(matches!(m[1].1, JsonValue::Null));
        }
        other => panic!("unexpected body {:?}", other),
    }
}

#[test]
fn paths_of_simple_commands() {
    let cases = vec![
        (SaaSCommand::Tenant(TenantCommand::Usage { tenant_id: "t1".to_string() }), "/api/v1/saas/tenants/t1/usage"),
        (SaaSCommand::Billing(BillingCommand::Pricing), "/api/v1/saas/billing/pricing"),
        (SaaSCommand::Billing(BillingCommand::Balance { tenant_id: "t2".to_string() }), "/api/v1/saas/billing/tenants/t2/balance"),
        (SaaSCommand::Quota(QuotaCommand::Violations), "/api/v1/saas/quotas/violations"),
        (SaaSCommand::Quota(QuotaCommand::Status { tenant_id: "x".to_string() }), "/api/v1/saas/quotas/tenants/x/status"),
        (SaaSCommand::Sso(SsoCommand::Validate { session_id: "s9".to_string() }), "/api/v1/saas/sso/sessions/s9"),
        (SaaSCommand::Admin(AdminCommand::Metrics), "/api/v1/saas/admin/metrics"),
        (SaaSCommand::Auth(AuthCommand::Status), "/api/v1/saas/auth/status"),
    ];
    for (cmd, path) in cases {
        let r = saas_request(cmd).unwrap();
        assert_eq!(r.path, path);
    }
}

#[test]
fn invoices_path_depends_on_tenant() {
    let r = saas_request(SaaSCommand::Billing(BillingCommand::Invoices { tenant_id: Some("t".to_string()), limit: 20 })).unwrap();
    assert_eq!(r.path, "/api/v1/saas/billing/tenants/t/invoices");
    assert_eq!(r.query, vec![("limit".to_string(), "20".to_string()), ("tenant_id".to_string(), "t".to_string())]);
    let r = saas_request(SaaSCommand::Billing(BillingCommand::Invoices { tenant_id: None, limit: 5 })).unwrap();
    assert_eq!(r.path, "/api/v1/saas/billing/invoices");
}

#[test]
fn login_rejects_bad_tenant_id() {
    let bad = saas_request(SaaSCommand::Auth(AuthCommand::Login {
        tenant_id: "not-a-uuid".to_string(),
        user_id: "u".to_string(),
        password: "p".to_string(),
    }));
    assert_eq!(bad.err(), Some(SaasError::InvalidTenantId));
    let ok = saas_request(SaaSCommand::Auth(AuthCommand::Login {
        tenant_id: "6BA7B810-9DAD-11D1-80B4-00C04FD430C8".to_string(),
        user_id: "u".to_string(),
        password: "p".to_string(),
    }))
    .unwrap();
    match ok.body.unwrap() {
        JsonValue::Object(m) => {
            assert_eq!(m[1].0, "tenant_id");
            match &m[1].1 {
                JsonValue::Str(t) => assert_eq!(t, "6ba7b810-9dad-11d1-80b4-00c04fd430c8"),
                other => panic!("unexpected {:?}", other),
            }
        }
        other => panic!("unexpected {:?}", other),
    }
}

#[test]
fn monitor_usage_uses_canonical_uuid() {
    let cmd = MonitorCommand::Usage { tenant_id: "{6ba7b810-9dad-11d1-80b4-00c04fd430c8}".to_string(), interval: 5 };
    let r = monitor_request(&cmd).unwrap();
    assert_eq!(r.path, "/api/v1/saas/tenants/6ba7b810-9dad-11d1-80b4-00c04fd430c8/usage/live");
    assert_eq!(monitor_interval(&cmd), 5);
    assert_eq!(monitor_interval(&MonitorCommand::Quotas { interval: 30 }), 30);
}

#[test]
fn sso_state_given_or_drawn() {
    let given = saas_request_with_state(
        SaaSCommand::Sso(SsoCommand::Auth { provider: "okta".to_string(), redirect_uri: "r".to_string(), state: None }),
        "fixed".to_string(),
    )
    .unwrap();
    match given.body.unwrap() {
        JsonValue::Object(m) => match &m[2].1 {
            JsonValue::Str(t) => assert_eq!(t, "fixed"),
            other => panic!("unexpected {:?}", other),
        },
        other => panic!("unexpected {:?}", other),
    }
    let drawn = saas_request(SaaSCommand::Sso(SsoCommand::Auth {
        provider: "okta".to_string(),
        redirect_uri: "r".to_string(),
        state: None,
    }))
    .unwrap();
    match drawn.body.unwrap() {
        JsonValue::Object(m) => match &m[2].1 {
            JsonValue::Str(t) => assert_eq!(t.len(), 36),
            other => panic!("unexpected {:?}", other),
        },
        other => panic!("unexpected {:?}", other),
    }
}

#[test]
fn deletion_confirmation() {
    assert!(needs_confirmation(&SaaSCommand::Tenant(TenantCommand::Delete { tenant_id: "t".to_string(), force: false })));
    assert!(!needs_confirmation(&SaaSCommand::Tenant(TenantCommand::Delete { tenant_id: "t".to_string(), force: true })));
    assert!(confirms("  Yes\n"));
    assert!(confirms("y"));
    assert!(!confirms("no"));
    assert!(!confirms(""));
}

#[test]
fn monitor_digests() {
    let usage = obj(vec![("storage_bytes", s("10")), ("api_calls_count", s("3")), ("other", s("x"))]);
    let r = usage_readings(&usage);
    let keys: Vec<&str> = r.iter().map(|(k, _)| k.as_str()).collect();
    assert_eq!(keys, vec!["api_calls_count", "storage_bytes"]);

    let status = obj(vec![(
        "services",
        obj(vec![
            ("db", obj(vec![("is_healthy", JsonValue::Bool(true))])),
            ("cache", obj(vec![("is_healthy", s("yes"))])),
            ("queue", obj(vec![("is_healthy", JsonValue::Bool(false))])),
        ]),
    )]);
    assert_eq!(service_health(&status), Some(vec![("db".to_string(), true), ("queue".to_string(), false)]));
    assert_eq!(service_health(&obj(vec![])), None);

    let report = JsonValue::Array(vec![
        obj(vec![("tenant_id", s("a")), ("resource", s("api")), ("current", s("5")), ("limit", s("4"))]),
        obj(vec![("tenant_id", s("b"))]),
    ]);
    let (count, rows) = quota_violations(&report).unwrap();
    assert_eq!(count, 2);
    assert_eq!(rows.len(), 1);
    assert!(quota_violations(&s("x")).is_none());

    assert_eq!(bearer_token(&obj(vec![("token", s("abc"))])), Some("abc".to_string()));
    assert_eq!(bearer_token(&obj(vec![("token", JsonValue::Null)])), None);
}
