//! The SaaS service's replies: the fixed reports of its administrative, analytics,
//! billing and provisioning endpoints, and the replies built around what the
//! tenant, quota and sign-on managers answer.
use vstd::prelude::*;
use crate::json::{
    JsonModel, JsonValue, NumberModel, array, decimal_number, items_model, members_model, no_members, object,
    push_member, text, uint,
};
use crate::text::path_with_tail;

verus! {

/// Why a reply fails: the manager behind it failed (HTTP 500), the thing asked
/// for does not exist (HTTP 404), or the credentials were refused (HTTP 401).
#[derive(Debug, PartialEq, Eq, Structural)]
pub enum ServiceError {
    Internal,
    NotFound,
    Unauthorized,
}

/// What a manager answered to a lookup.
#[derive(Debug)]
pub enum Outcome<T> {
    Found(T),
    Missing,
    Failed,
}

/// The reply to a lookup of a tenant, its usage or its live figures: what was found,
/// else not found (404) or a failure (500).
pub fn found_or_status<T>(outcome: Outcome<T>) -> (r: Result<T, ServiceError>)
    ensures
        match outcome {
            Outcome::Found(t) => r == Ok::<T, ServiceError>(t),
            Outcome::Missing => r == Err::<T, ServiceError>(ServiceError::NotFound),
            Outcome::Failed => r == Err::<T, ServiceError>(ServiceError::Internal),
        },
{
    match outcome {
        Outcome::Found(t) => Ok(t),
        Outcome::Missing => Err(ServiceError::NotFound),
        Outcome::Failed => Err(ServiceError::Internal),
    }
}

/// The reply to a login: refused credentials give 401; once they are accepted, the
/// tenant lookup decides, as `found_or_status` does.
pub fn login_reply<S, T>(session: Option<S>, tenant: Outcome<T>) -> (r: Result<(S, T), ServiceError>)
    ensures
        match session {
            None => r == Err::<(S, T), ServiceError>(ServiceError::Unauthorized),
            Some(s) => match tenant {
                Outcome::Found(t) => r == Ok::<(S, T), ServiceError>((s, t)),
                Outcome::Missing => r == Err::<(S, T), ServiceError>(ServiceError::NotFound),
                Outcome::Failed => r == Err::<(S, T), ServiceError>(ServiceError::Internal),
            },
        },
{
    let s = match session {
        Some(s) => s,
        None => return Err(ServiceError::Unauthorized),
    };
    match tenant {
        Outcome::Found(t) => Ok((s, t)),
        Outcome::Missing => Err(ServiceError::NotFound),
        Outcome::Failed => Err(ServiceError::Internal),
    }
}

/// The positions of the tenants a listing keeps: all of them, or those on the
/// subscription tier asked for.
pub open spec fn kept_tenants(tiers: Seq<Seq<char>>, wanted: Option<Seq<char>>) -> Seq<int>
    decreases tiers.len(),
{
    if tiers.len() == 0 {
        Seq::empty()
    } else {
        kept_tenants(tiers.drop_last(), wanted) + if wanted is None || wanted == Some(tiers.last()) {
            seq![tiers.len() - 1]
        } else {
            Seq::empty()
        }
    }
}

/// Which tenants of a listing to return, given each one's subscription tier.
pub fn tenants_with_tier(tiers: &Vec<String>, wanted: Option<&str>) -> (kept: Vec<usize>)
    ensures
        kept@.map_values(|i: usize| i as int) == kept_tenants(
            crate::text::strings_view(tiers@),
            match wanted {
                Some(w) => Some(w@),
                None => None,
            },
        ),
{
    let ghost tv = crate::text::strings_view(tiers@);
    let ghost w = match wanted {
        Some(w) => Some(w@),
        None => None::<Seq<char>>,
    };
    let mut kept: Vec<usize> = Vec::new();
    let mut i: usize = 0;
    while i < tiers.len()
        invariant
            i <= tiers@.len(),
            tv == crate::text::strings_view(tiers@),
            w == match wanted {
                Some(x) => Some(x@),
                None => None::<Seq<char>>,
            },
            kept@.map_values(|k: usize| k as int) == kept_tenants(tv.take(i as int), w),
        decreases tiers@.len() - i,
    {
        assert(tv.take((i + 1) as int).drop_last() =~= tv.take(i as int));
        assert(tv.take((i + 1) as int).last() == tiers@[i as int]@);
        let keep = match wanted {
            None => true,
            Some(x) => crate::text::str_equal(tiers[i].as_str(), x),
        };
        let ghost before = kept@;
        if keep {
            kept.push(i);
            assert(kept@.map_values(|k: usize| k as int) =~= before.map_values(|k: usize| k as int).push(i as int));
        }
        i = i + 1;
    }
    assert(tv.take(i as int) =~= tv);
    kept
}

/// The reply to an invoice listing: a tenant's invoices as the billing engine gave
/// them (`None`: it failed), or nothing when no tenant is named.
pub fn invoices_reply<T>(tenant_named: bool, invoices: Option<Vec<T>>) -> (r: Result<Vec<T>, ServiceError>)
    ensures
        !tenant_named ==> (r matches Ok(v) && v@.len() == 0),
        tenant_named ==> match invoices {
            Some(v) => r == Ok::<Vec<T>, ServiceError>(v),
            None => r == Err::<Vec<T>, ServiceError>(ServiceError::Internal),
        },
{
    if !tenant_named {
        return Ok(Vec::new());
    }
    match invoices {
        Some(v) => Ok(v),
        None => Err(ServiceError::Internal),
    }
}

/// The one sample quota violation: a tenant over its storage limit, throttled.
pub open spec fn violation_reply() -> JsonModel {
    JsonModel::Object(
        seq![
            ("current_usage"@, JsonModel::Number(NumberModel::PosInt(1200000000))),
            ("enforcement_action"@, JsonModel::Str("Throttle"@)),
            ("limit"@, JsonModel::Number(NumberModel::PosInt(1073741824))),
            ("quota_type"@, JsonModel::Str("storage"@)),
            ("tenant_id"@, JsonModel::Str("00000000-0000-0000-0000-000000000001"@)),
            ("timestamp"@, JsonModel::Str("2024-01-15T10:30:00Z"@)),
            ("violation_percentage"@, JsonModel::Number(NumberModel::Float("111.8"@))),
        ],
    )
}

/// The current quota violations: the one sample violation.
pub fn get_quota_violations() -> (violations: Vec<JsonValue>)
    ensures
        items_model(violations@) == seq![violation_reply()],
{
    let mut m = no_members();
    push_member(&mut m, "current_usage", uint(1200000000));
    push_member(&mut m, "enforcement_action", text("Throttle"));
    push_member(&mut m, "limit", uint(1073741824));
    push_member(&mut m, "quota_type", text("storage"));
    push_member(&mut m, "tenant_id", text("00000000-0000-0000-0000-000000000001"));
    push_member(&mut m, "timestamp", text("2024-01-15T10:30:00Z"));
    push_member(&mut m, "violation_percentage", decimal_number("111.8"));
    assert(members_model(m@) =~= violation_reply()->Object_0);
    let v = vec![object(m)];
    assert(items_model(v@) =~= seq![violation_reply()]);
    v
}

/// The reply to a quota check once the quota manager has answered whether the
/// operation is allowed (`None`: it failed).
pub open spec fn quota_check_reply(
    allowed: bool,
    tenant_id: Seq<char>,
    operation_type: Seq<char>,
    resource_delta: u64,
) -> JsonModel {
    JsonModel::Object(
        seq![
            ("allowed"@, JsonModel::Bool(allowed)),
            ("operation_type"@, JsonModel::Str(operation_type)),
            ("resource_delta"@, JsonModel::Number(NumberModel::PosInt(resource_delta as nat))),
            ("tenant_id"@, JsonModel::Str(tenant_id)),
        ],
    )
}

/// The reply to a quota check: the manager's verdict with the request's tenant,
/// operation and amount; the manager's failure fails the reply.
pub fn check_quota(tenant_id: &str, operation_type: &str, resource_delta: u64, allowed: Option<bool>) -> (r:
    Result<JsonValue, ServiceError>)
    ensures
        match allowed {
            Some(a) => r matches Ok(v) && v.model() == quota_check_reply(a, tenant_id@, operation_type@, resource_delta),
            None => r == Err::<JsonValue, ServiceError>(ServiceError::Internal),
        },
{
    let a = match allowed {
        Some(a) => a,
        None => return Err(ServiceError::Internal),
    };
    let mut m = no_members();
    push_member(&mut m, "allowed", JsonValue::Bool(a));
    push_member(&mut m, "operation_type", text(operation_type));
    push_member(&mut m, "resource_delta", uint(resource_delta));
    push_member(&mut m, "tenant_id", text(tenant_id));
    assert(members_model(m@) =~= quota_check_reply(a, tenant_id@, operation_type@, resource_delta)->Object_0);
    Ok(object(m))
}

/// The reply that starts a sign-on: where to authenticate.
pub open spec fn sso_initiated_reply(auth_url: Seq<char>) -> JsonModel {
    JsonModel::Object(seq![("auth_url"@, JsonModel::Str(auth_url)), ("status"@, JsonModel::Str("initiated"@))])
}

/// The reply to starting a sign-on, once the sign-on manager has answered with the
/// authentication URL (`None`: it failed).
pub fn initiate_sso_auth(auth_url: Option<String>) -> (r: Result<JsonValue, ServiceError>)
    ensures
        match auth_url {
            Some(u) => r matches Ok(v) && v.model() == sso_initiated_reply(u@),
            None => r == Err::<JsonValue, ServiceError>(ServiceError::Internal),
        },
{
    let u = match auth_url {
        Some(u) => u,
        None => return Err(ServiceError::Internal),
    };
    let mut m = no_members();
    push_member(&mut m, "auth_url", text(u.as_str()));
    push_member(&mut m, "status", text("initiated"));
    assert(members_model(m@) =~= sso_initiated_reply(u@)->Object_0);
    Ok(object(m))
}

/// The reply to a session check: the session when it is valid, else an error.
pub open spec fn session_reply(session: Option<JsonModel>) -> JsonModel {
    match session {
        Some(s) => JsonModel::Object(seq![("session"@, s), ("valid"@, JsonModel::Bool(true))]),
        None => JsonModel::Object(
            seq![("error"@, JsonModel::Str("Invalid or expired session"@)), ("valid"@, JsonModel::Bool(false))],
        ),
    }
}

/// The reply to a session check, from the session the sign-on manager found
/// (`None`: invalid or expired); it never fails.
pub fn validate_sso_session(session: Option<JsonValue>) -> (r: JsonValue)
    ensures
        r.model() == session_reply(
            match session {
                Some(s) => Some(s.model()),
                None => None,
            },
        ),
{
    let mut m = no_members();
    match session {
        Some(s) => {
            let ghost sm = s.model();
            push_member(&mut m, "session", s);
            push_member(&mut m, "valid", JsonValue::Bool(true));
            assert(members_model(m@) =~= session_reply(Some(sm))->Object_0);
        },
        None => {
            push_member(&mut m, "error", text("Invalid or expired session"));
            push_member(&mut m, "valid", JsonValue::Bool(false));
            assert(members_model(m@) =~= session_reply(None)->Object_0);
        },
    }
    object(m)
}

/// The pricing tiers: starter and professional, with their fees, included quotas and overage rates.
pub open spec fn pricing_tiers_reply() -> JsonModel {
    JsonModel::Object(
        seq![
            ("tiers"@, JsonModel::Array(seq![JsonModel::Object(
                    seq![
                        ("base_fee"@, JsonModel::Number(NumberModel::Float("29.0"@))),
                        ("included_quotas"@, JsonModel::Object(
                            seq![
                                ("max_api_calls_per_hour"@, JsonModel::Number(NumberModel::PosInt(1000))),
                                ("max_connections"@, JsonModel::Number(NumberModel::PosInt(10))),
                                ("max_storage_bytes"@, JsonModel::Number(NumberModel::PosInt(1073741824))),
                            ],
                        )),
                        ("name"@, JsonModel::Str("starter"@)),
                        ("overage_rates"@, JsonModel::Object(
                            seq![
                                ("api_calls_per_1k"@, JsonModel::Number(NumberModel::Float("0.01"@))),
                                ("connections"@, JsonModel::Number(NumberModel::Float("5.0"@))),
                                ("storage_per_gb"@, JsonModel::Number(NumberModel::Float("0.1"@))),
                            ],
                        )),
                    ],
                ), JsonModel::Object(
                    seq![
                        ("base_fee"@, JsonModel::Number(NumberModel::Float("99.0"@))),
                        ("included_quotas"@, JsonModel::Object(
                            seq![
                                ("max_api_calls_per_hour"@, JsonModel::Number(NumberModel::PosInt(10000))),
                                ("max_connections"@, JsonModel::Number(NumberModel::PosInt(100))),
                                ("max_storage_bytes"@, JsonModel::Number(NumberModel::PosInt(10737418240))),
                            ],
                        )),
                        ("name"@, JsonModel::Str("professional"@)),
                        ("overage_rates"@, JsonModel::Object(
                            seq![
                                ("api_calls_per_1k"@, JsonModel::Number(NumberModel::Float("0.008"@))),
                                ("connections"@, JsonModel::Number(NumberModel::Float("4.0"@))),
                                ("storage_per_gb"@, JsonModel::Number(NumberModel::Float("0.08"@))),
                            ],
                        )),
                    ],
                )])),
        ],
    )
}

/// The pricing tiers: starter and professional, with their fees, included quotas and overage rates.
pub fn get_pricing_tiers() -> (reply: JsonValue)
    ensures
        reply.model() == pricing_tiers_reply(),
{
    let mut o1 = no_members();
    let mut o3 = no_members();
    push_member(&mut o3, "base_fee", decimal_number("29.0"));
    let mut o4 = no_members();
    push_member(&mut o4, "max_api_calls_per_hour", uint(1000));
    push_member(&mut o4, "max_connections", uint(10));
    push_member(&mut o4, "max_storage_bytes", uint(1073741824));
    assert(members_model(o4@) =~= pricing_tiers_reply()->Object_0[0].1->Array_0[0]->Object_0[1].1->Object_0);
    let o4 = object(o4);
    push_member(&mut o3, "included_quotas", o4);
    push_member(&mut o3, "name", text("starter"));
    let mut o5 = no_members();
    push_member(&mut o5, "api_calls_per_1k", decimal_number("0.01"));
    push_member(&mut o5, "connections", decimal_number("5.0"));
    push_member(&mut o5, "storage_per_gb", decimal_number("0.1"));
    assert(members_model(o5@) =~= pricing_tiers_reply()->Object_0[0].1->Array_0[0]->Object_0[3].1->Object_0);
    let o5 = object(o5);
    push_member(&mut o3, "overage_rates", o5);
    assert(members_model(o3@) =~= pricing_tiers_reply()->Object_0[0].1->Array_0[0]->Object_0);
    let o3 = object(o3);
    let mut o6 = no_members();
    push_member(&mut o6, "base_fee", decimal_number("99.0"));
    let mut o7 = no_members();
    push_member(&mut o7, "max_api_calls_per_hour", uint(10000));
    push_member(&mut o7, "max_connections", uint(100));
    push_member(&mut o7, "max_storage_bytes", uint(10737418240));
    assert(members_model(o7@) =~= pricing_tiers_reply()->Object_0[0].1->Array_0[1]->Object_0[1].1->Object_0);
    let o7 = object(o7);
    push_member(&mut o6, "included_quotas", o7);
    push_member(&mut o6, "name", text("professional"));
    let mut o8 = no_members();
    push_member(&mut o8, "api_calls_per_1k", decimal_number("0.008"));
    push_member(&mut o8, "connections", decimal_number("4.0"));
    push_member(&mut o8, "storage_per_gb", decimal_number("0.08"));
    assert(members_model(o8@) =~= pricing_tiers_reply()->Object_0[0].1->Array_0[1]->Object_0[3].1->Object_0);
    let o8 = object(o8);
    push_member(&mut o6, "overage_rates", o8);
    assert(members_model(o6@) =~= pricing_tiers_reply()->Object_0[0].1->Array_0[1]->Object_0);
    let o6 = object(o6);
    let a2 = vec![o3, o6];
    assert(items_model(a2@) =~= pricing_tiers_reply()->Object_0[0].1->Array_0);
    let a2 = array(a2);
    push_member(&mut o1, "tiers", a2);
    assert(members_model(o1@) =~= pricing_tiers_reply()->Object_0);
    let o1 = object(o1);
    o1
}

/// A billing calculation: the sample January period with its base fee, usage charges and total.
pub open spec fn billing_reply() -> JsonModel {
    JsonModel::Object(
        seq![
            ("base_fee"@, JsonModel::Number(NumberModel::Float("29.0"@))),
            ("currency"@, JsonModel::Str("USD"@)),
            ("period_end"@, JsonModel::Str("2024-01-31T23:59:59Z"@)),
            ("period_start"@, JsonModel::Str("2024-01-01T00:00:00Z"@)),
            ("total_amount"@, JsonModel::Number(NumberModel::Float("55.55"@))),
            ("usage_charges"@, JsonModel::Object(
                seq![
                    ("api_calls"@, JsonModel::Number(NumberModel::Float("12.3"@))),
                    ("compute"@, JsonModel::Number(NumberModel::Float("8.75"@))),
                    ("storage"@, JsonModel::Number(NumberModel::Float("5.5"@))),
                ],
            )),
        ],
    )
}

/// A billing calculation: the sample January period with its base fee, usage charges and total.
pub fn calculate_billing() -> (reply: JsonValue)
    ensures
        reply.model() == billing_reply(),
{
    let mut o1 = no_members();
    push_member(&mut o1, "base_fee", decimal_number("29.0"));
    push_member(&mut o1, "currency", text("USD"));
    push_member(&mut o1, "period_end", text("2024-01-31T23:59:59Z"));
    push_member(&mut o1, "period_start", text("2024-01-01T00:00:00Z"));
    push_member(&mut o1, "total_amount", decimal_number("55.55"));
    let mut o2 = no_members();
    push_member(&mut o2, "api_calls", decimal_number("12.3"));
    push_member(&mut o2, "compute", decimal_number("8.75"));
    push_member(&mut o2, "storage", decimal_number("5.5"));
    assert(members_model(o2@) =~= billing_reply()->Object_0[5].1->Object_0);
    let o2 = object(o2);
    push_member(&mut o1, "usage_charges", o2);
    assert(members_model(o1@) =~= billing_reply()->Object_0);
    let o1 = object(o1);
    o1
}

/// The single sign-on providers: Google and Microsoft over OAuth2, enabled; Okta over SAML, disabled.
pub open spec fn sso_providers_reply() -> JsonModel {
    JsonModel::Object(
        seq![
            ("providers"@, JsonModel::Array(seq![JsonModel::Object(
                    seq![
                        ("display_name"@, JsonModel::Str("Google"@)),
                        ("enabled"@, JsonModel::Bool(true)),
                        ("name"@, JsonModel::Str("google"@)),
                        ("type"@, JsonModel::Str("OAuth2"@)),
                    ],
                ), JsonModel::Object(
                    seq![
                        ("display_name"@, JsonModel::Str("Microsoft"@)),
                        ("enabled"@, JsonModel::Bool(true)),
                        ("name"@, JsonModel::Str("microsoft"@)),
                        ("type"@, JsonModel::Str("OAuth2"@)),
                    ],
                ), JsonModel::Object(
                    seq![
                        ("display_name"@, JsonModel::Str("Okta"@)),
                        ("enabled"@, JsonModel::Bool(false)),
                        ("name"@, JsonModel::Str("okta"@)),
                        ("type"@, JsonModel::Str("SAML"@)),
                    ],
                )])),
        ],
    )
}

/// The single sign-on providers: Google and Microsoft over OAuth2, enabled; Okta over SAML, disabled.
pub fn list_sso_providers() -> (reply: JsonValue)
    ensures
        reply.model() == sso_providers_reply(),
{
    let mut o1 = no_members();
    let mut o3 = no_members();
    push_member(&mut o3, "display_name", text("Google"));
    push_member(&mut o3, "enabled", JsonValue::Bool(true));
    push_member(&mut o3, "name", text("google"));
    push_member(&mut o3, "type", text("OAuth2"));
    assert(members_model(o3@) =~= sso_providers_reply()->Object_0[0].1->Array_0[0]->Object_0);
    let o3 = object(o3);
    let mut o4 = no_members();
    push_member(&mut o4, "display_name", text("Microsoft"));
    push_member(&mut o4, "enabled", JsonValue::Bool(true));
    push_member(&mut o4, "name", text("microsoft"));
    push_member(&mut o4, "type", text("OAuth2"));
    assert(members_model(o4@) =~= sso_providers_reply()->Object_0[0].1->Array_0[1]->Object_0);
    let o4 = object(o4);
    let mut o5 = no_members();
    push_member(&mut o5, "display_name", text("Okta"));
    push_member(&mut o5, "enabled", JsonValue::Bool(false));
    push_member(&mut o5, "name", text("okta"));
    push_member(&mut o5, "type", text("SAML"));
    assert(members_model(o5@) =~= sso_providers_reply()->Object_0[0].1->Array_0[2]->Object_0);
    let o5 = object(o5);
    let a2 = vec![o3, o4, o5];
    assert(items_model(a2@) =~= sso_providers_reply()->Object_0[0].1->Array_0);
    let a2 = array(a2);
    push_member(&mut o1, "providers", a2);
    assert(members_model(o1@) =~= sso_providers_reply()->Object_0);
    let o1 = object(o1);
    o1
}

/// The service-wide usage figures and the three most frequent operations.
pub open spec fn usage_analytics_reply() -> JsonModel {
    JsonModel::Object(
        seq![
            ("active_tenants"@, JsonModel::Number(NumberModel::PosInt(142))),
            ("average_response_time_ms"@, JsonModel::Number(NumberModel::PosInt(45))),
            ("top_operations"@, JsonModel::Array(seq![JsonModel::Object(
                    seq![
                        ("count"@, JsonModel::Number(NumberModel::PosInt(450000))),
                        ("operation"@, JsonModel::Str("get_document"@)),
                    ],
                ), JsonModel::Object(
                    seq![
                        ("count"@, JsonModel::Number(NumberModel::PosInt(320000))),
                        ("operation"@, JsonModel::Str("query_documents"@)),
                    ],
                ), JsonModel::Object(
                    seq![
                        ("count"@, JsonModel::Number(NumberModel::PosInt(280000))),
                        ("operation"@, JsonModel::Str("put_document"@)),
                    ],
                )])),
            ("total_api_calls"@, JsonModel::Number(NumberModel::PosInt(1250000))),
            ("total_storage_gb"@, JsonModel::Number(NumberModel::Float("2500.5"@))),
            ("total_tenants"@, JsonModel::Number(NumberModel::PosInt(150))),
        ],
    )
}

/// The service-wide usage figures and the three most frequent operations.
pub fn query_usage_analytics() -> (reply: JsonValue)
    ensures
        reply.model() == usage_analytics_reply(),
{
    let mut o1 = no_members();
    push_member(&mut o1, "active_tenants", uint(142));
    push_member(&mut o1, "average_response_time_ms", uint(45));
    let mut o3 = no_members();
    push_member(&mut o3, "count", uint(450000));
    push_member(&mut o3, "operation", text("get_document"));
    assert(members_model(o3@) =~= usage_analytics_reply()->Object_0[2].1->Array_0[0]->Object_0);
    let o3 = object(o3);
    let mut o4 = no_members();
    push_member(&mut o4, "count", uint(320000));
    push_member(&mut o4, "operation", text("query_documents"));
    assert(members_model(o4@) =~= usage_analytics_reply()->Object_0[2].1->Array_0[1]->Object_0);
    let o4 = object(o4);
    let mut o5 = no_members();
    push_member(&mut o5, "count", uint(280000));
    push_member(&mut o5, "operation", text("put_document"));
    assert(members_model(o5@) =~= usage_analytics_reply()->Object_0[2].1->Array_0[2]->Object_0);
    let o5 = object(o5);
    let a2 = vec![o3, o4, o5];
    assert(items_model(a2@) =~= usage_analytics_reply()->Object_0[2].1->Array_0);
    let a2 = array(a2);
    push_member(&mut o1, "top_operations", a2);
    push_member(&mut o1, "total_api_calls", uint(1250000));
    push_member(&mut o1, "total_storage_gb", decimal_number("2500.5"));
    push_member(&mut o1, "total_tenants", uint(150));
    assert(members_model(o1@) =~= usage_analytics_reply()->Object_0);
    let o1 = object(o1);
    o1
}

/// The usage figures of tenant `tenant_id` over the last 30 days, with its busiest collections.
pub open spec fn tenant_analytics_reply(tenant_id: Seq<char>) -> JsonModel {
    JsonModel::Object(
        seq![
            ("api_calls"@, JsonModel::Number(NumberModel::PosInt(25000))),
            ("average_response_time_ms"@, JsonModel::Number(NumberModel::PosInt(42))),
            ("bandwidth_gb"@, JsonModel::Number(NumberModel::Float("8.2"@))),
            ("error_rate"@, JsonModel::Number(NumberModel::Float("0.02"@))),
            ("period"@, JsonModel::Str("last_30_days"@)),
            ("storage_usage_gb"@, JsonModel::Number(NumberModel::Float("15.5"@))),
            ("tenant_id"@, JsonModel::Str(tenant_id)),
            ("top_collections"@, JsonModel::Array(seq![JsonModel::Object(
                    seq![
                        ("name"@, JsonModel::Str("users"@)),
                        ("operations"@, JsonModel::Number(NumberModel::PosInt(8500))),
                    ],
                ), JsonModel::Object(
                    seq![
                        ("name"@, JsonModel::Str("orders"@)),
                        ("operations"@, JsonModel::Number(NumberModel::PosInt(6200))),
                    ],
                ), JsonModel::Object(
                    seq![
                        ("name"@, JsonModel::Str("products"@)),
                        ("operations"@, JsonModel::Number(NumberModel::PosInt(4800))),
                    ],
                )])),
        ],
    )
}

/// The usage figures of tenant `tenant_id` over the last 30 days, with its busiest collections.
pub fn get_tenant_analytics(tenant_id: &str) -> (reply: JsonValue)
    ensures
        reply.model() == tenant_analytics_reply(tenant_id@),
{
    let mut o1 = no_members();
    push_member(&mut o1, "api_calls", uint(25000));
    push_member(&mut o1, "average_response_time_ms", uint(42));
    push_member(&mut o1, "bandwidth_gb", decimal_number("8.2"));
    push_member(&mut o1, "error_rate", decimal_number("0.02"));
    push_member(&mut o1, "period", text("last_30_days"));
    push_member(&mut o1, "storage_usage_gb", decimal_number("15.5"));
    push_member(&mut o1, "tenant_id", text(tenant_id));
    let mut o3 = no_members();
    push_member(&mut o3, "name", text("users"));
    push_member(&mut o3, "operations", uint(8500));
    assert(members_model(o3@) =~= tenant_analytics_reply(tenant_id@)->Object_0[7].1->Array_0[0]->Object_0);
    let o3 = object(o3);
    let mut o4 = no_members();
    push_member(&mut o4, "name", text("orders"));
    push_member(&mut o4, "operations", uint(6200));
    assert(members_model(o4@) =~= tenant_analytics_reply(tenant_id@)->Object_0[7].1->Array_0[1]->Object_0);
    let o4 = object(o4);
    let mut o5 = no_members();
    push_member(&mut o5, "name", text("products"));
    push_member(&mut o5, "operations", uint(4800));
    assert(members_model(o5@) =~= tenant_analytics_reply(tenant_id@)->Object_0[7].1->Array_0[2]->Object_0);
    let o5 = object(o5);
    let a2 = vec![o3, o4, o5];
    assert(items_model(a2@) =~= tenant_analytics_reply(tenant_id@)->Object_0[7].1->Array_0);
    let a2 = array(a2);
    push_member(&mut o1, "top_collections", a2);
    assert(members_model(o1@) =~= tenant_analytics_reply(tenant_id@)->Object_0);
    let o1 = object(o1);
    o1
}

/// The system figures: uptime, requests, resource use, connections and cache hit rate.
pub open spec fn system_metrics_reply() -> JsonModel {
    JsonModel::Object(
        seq![
            ("active_connections"@, JsonModel::Number(NumberModel::PosInt(1250))),
            ("cache_hit_rate"@, JsonModel::Number(NumberModel::Float("0.94"@))),
            ("cpu_usage_percent"@, JsonModel::Number(NumberModel::Float("42.3"@))),
            ("disk_usage_percent"@, JsonModel::Number(NumberModel::Float("35.8"@))),
            ("memory_usage_percent"@, JsonModel::Number(NumberModel::Float("68.5"@))),
            ("requests_per_second"@, JsonModel::Number(NumberModel::Float("125.5"@))),
            ("total_requests"@, JsonModel::Number(NumberModel::PosInt(5000000))),
            ("uptime_seconds"@, JsonModel::Number(NumberModel::PosInt(2592000))),
        ],
    )
}

/// The system figures: uptime, requests, resource use, connections and cache hit rate.
pub fn get_system_metrics() -> (reply: JsonValue)
    ensures
        reply.model() == system_metrics_reply(),
{
    let mut o1 = no_members();
    push_member(&mut o1, "active_connections", uint(1250));
    push_member(&mut o1, "cache_hit_rate", decimal_number("0.94"));
    push_member(&mut o1, "cpu_usage_percent", decimal_number("42.3"));
    push_member(&mut o1, "disk_usage_percent", decimal_number("35.8"));
    push_member(&mut o1, "memory_usage_percent", decimal_number("68.5"));
    push_member(&mut o1, "requests_per_second", decimal_number("125.5"));
    push_member(&mut o1, "total_requests", uint(5000000));
    push_member(&mut o1, "uptime_seconds", uint(2592000));
    assert(members_model(o1@) =~= system_metrics_reply()->Object_0);
    let o1 = object(o1);
    o1
}

/// The reply to a provisioning request: the sample cluster, being provisioned, and its endpoints.
pub open spec fn provisioning_reply() -> JsonModel {
    JsonModel::Object(
        seq![
            ("cluster_id"@, JsonModel::Str("cluster-abc123"@)),
            ("endpoints"@, JsonModel::Object(
                seq![
                    ("grpc"@, JsonModel::Str("cluster-abc123.aerolithdb.cloud:9090"@)),
                    ("rest"@, JsonModel::Str("https://cluster-abc123.aerolithdb.cloud:8080"@)),
                    ("websocket"@, JsonModel::Str("wss://cluster-abc123.aerolithdb.cloud:8083"@)),
                ],
            )),
            ("estimated_completion"@, JsonModel::Str("2024-01-15T15:30:00Z"@)),
            ("status"@, JsonModel::Str("provisioning"@)),
        ],
    )
}

/// The reply to a provisioning request: the sample cluster, being provisioned, and its endpoints.
pub fn provision_cluster() -> (reply: JsonValue)
    ensures
        reply.model() == provisioning_reply(),
{
    let mut o1 = no_members();
    push_member(&mut o1, "cluster_id", text("cluster-abc123"));
    let mut o2 = no_members();
    push_member(&mut o2, "grpc", text("cluster-abc123.aerolithdb.cloud:9090"));
    push_member(&mut o2, "rest", text("https://cluster-abc123.aerolithdb.cloud:8080"));
    push_member(&mut o2, "websocket", text("wss://cluster-abc123.aerolithdb.cloud:8083"));
    assert(members_model(o2@) =~= provisioning_reply()->Object_0[1].1->Object_0);
    let o2 = object(o2);
    push_member(&mut o1, "endpoints", o2);
    push_member(&mut o1, "estimated_completion", text("2024-01-15T15:30:00Z"));
    push_member(&mut o1, "status", text("provisioning"));
    assert(members_model(o1@) =~= provisioning_reply()->Object_0);
    let o1 = object(o1);
    o1
}

/// The status of cluster `cluster_id`: running and healthy on three nodes, with its endpoints.
pub open spec fn cluster_status_reply(cluster_id: Seq<char>) -> JsonModel {
    JsonModel::Object(
        seq![
            ("cluster_id"@, JsonModel::Str(cluster_id)),
            ("created_at"@, JsonModel::Str("2024-01-10T10:00:00Z"@)),
            ("endpoints"@, JsonModel::Object(
                seq![
                    ("grpc"@, JsonModel::Str(""@ + cluster_id + ".aerolithdb.cloud:9090"@)),
                    ("rest"@, JsonModel::Str("https://"@ + cluster_id + ".aerolithdb.cloud:8080"@)),
                    ("websocket"@, JsonModel::Str("wss://"@ + cluster_id + ".aerolithdb.cloud:8083"@)),
                ],
            )),
            ("health"@, JsonModel::Str("healthy"@)),
            ("last_health_check"@, JsonModel::Str("2024-01-15T14:45:00Z"@)),
            ("nodes"@, JsonModel::Number(NumberModel::PosInt(3))),
            ("status"@, JsonModel::Str("running"@)),
        ],
    )
}

/// The status of cluster `cluster_id`: running and healthy on three nodes, with its endpoints.
pub fn get_cluster_status(cluster_id: &str) -> (reply: JsonValue)
    ensures
        reply.model() == cluster_status_reply(cluster_id@),
{
    let mut o1 = no_members();
    push_member(&mut o1, "cluster_id", text(cluster_id));
    push_member(&mut o1, "created_at", text("2024-01-10T10:00:00Z"));
    let mut o2 = no_members();
    push_member(&mut o2, "grpc", text(path_with_tail("", cluster_id, ".aerolithdb.cloud:9090").as_str()));
    push_member(&mut o2, "rest", text(path_with_tail("https://", cluster_id, ".aerolithdb.cloud:8080").as_str()));
    push_member(&mut o2, "websocket", text(path_with_tail("wss://", cluster_id, ".aerolithdb.cloud:8083").as_str()));
    assert(members_model(o2@) =~= cluster_status_reply(cluster_id@)->Object_0[2].1->Object_0);
    let o2 = object(o2);
    push_member(&mut o1, "endpoints", o2);
    push_member(&mut o1, "health", text("healthy"));
    push_member(&mut o1, "last_health_check", text("2024-01-15T14:45:00Z"));
    push_member(&mut o1, "nodes", uint(3));
    push_member(&mut o1, "status", text("running"));
    assert(members_model(o1@) =~= cluster_status_reply(cluster_id@)->Object_0);
    let o1 = object(o1);
    o1
}

/// The reply to removing cluster `cluster_id`: it is being deprovisioned.
pub open spec fn deprovisioning_reply(cluster_id: Seq<char>) -> JsonModel {
    JsonModel::Object(
        seq![
            ("cluster_id"@, JsonModel::Str(cluster_id)),
            ("estimated_completion"@, JsonModel::Str("2024-01-15T16:00:00Z"@)),
            ("status"@, JsonModel::Str("deprovisioning"@)),
        ],
    )
}

/// The reply to removing cluster `cluster_id`: it is being deprovisioned.
pub fn deprovision_cluster(cluster_id: &str) -> (reply: JsonValue)
    ensures
        reply.model() == deprovisioning_reply(cluster_id@),
{
    let mut o1 = no_members();
    push_member(&mut o1, "cluster_id", text(cluster_id));
    push_member(&mut o1, "estimated_completion", text("2024-01-15T16:00:00Z"));
    push_member(&mut o1, "status", text("deprovisioning"));
    assert(members_model(o1@) =~= deprovisioning_reply(cluster_id@)->Object_0);
    let o1 = object(o1);
    o1
}

/// The administrative health report at `timestamp`: every service healthy, the database connected.
pub open spec fn health_check_reply(timestamp: Seq<char>) -> JsonModel {
    JsonModel::Object(
        seq![
            ("database"@, JsonModel::Str("connected"@)),
            ("services"@, JsonModel::Object(
                seq![
                    ("analytics_engine"@, JsonModel::Str("healthy"@)),
                    ("billing_engine"@, JsonModel::Str("healthy"@)),
                    ("provisioning_engine"@, JsonModel::Str("healthy"@)),
                    ("quota_manager"@, JsonModel::Str("healthy"@)),
                    ("sso_manager"@, JsonModel::Str("healthy"@)),
                    ("tenant_manager"@, JsonModel::Str("healthy"@)),
                ],
            )),
            ("status"@, JsonModel::Str("healthy"@)),
            ("timestamp"@, JsonModel::Str(timestamp)),
            ("uptime_seconds"@, JsonModel::Number(NumberModel::PosInt(86400))),
        ],
    )
}

/// The administrative health report at `timestamp`: every service healthy, the database connected.
pub fn saas_health_check(timestamp: &str) -> (reply: JsonValue)
    ensures
        reply.model() == health_check_reply(timestamp@),
{
    let mut o1 = no_members();
    push_member(&mut o1, "database", text("connected"));
    let mut o2 = no_members();
    push_member(&mut o2, "analytics_engine", text("healthy"));
    push_member(&mut o2, "billing_engine", text("healthy"));
    push_member(&mut o2, "provisioning_engine", text("healthy"));
    push_member(&mut o2, "quota_manager", text("healthy"));
    push_member(&mut o2, "sso_manager", text("healthy"));
    push_member(&mut o2, "tenant_manager", text("healthy"));
    assert(members_model(o2@) =~= health_check_reply(timestamp@)->Object_0[1].1->Object_0);
    let o2 = object(o2);
    push_member(&mut o1, "services", o2);
    push_member(&mut o1, "status", text("healthy"));
    push_member(&mut o1, "timestamp", text(timestamp));
    push_member(&mut o1, "uptime_seconds", uint(86400));
    assert(members_model(o1@) =~= health_check_reply(timestamp@)->Object_0);
    let o1 = object(o1);
    o1
}

/// The service status: version, environment, features and statistics.
pub open spec fn saas_status_reply() -> JsonModel {
    JsonModel::Object(
        seq![
            ("environment"@, JsonModel::Str("production"@)),
            ("features"@, JsonModel::Object(
                seq![
                    ("analytics"@, JsonModel::Bool(true)),
                    ("billing"@, JsonModel::Bool(true)),
                    ("multi_tenancy"@, JsonModel::Bool(true)),
                    ("provisioning"@, JsonModel::Bool(false)),
                    ("quotas"@, JsonModel::Bool(true)),
                    ("sso"@, JsonModel::Bool(true)),
                ],
            )),
            ("statistics"@, JsonModel::Object(
                seq![
                    ("active_tenants"@, JsonModel::Number(NumberModel::PosInt(142))),
                    ("monthly_revenue"@, JsonModel::Number(NumberModel::Float("12750.0"@))),
                    ("total_storage_gb"@, JsonModel::Number(NumberModel::Float("2500.5"@))),
                    ("total_tenants"@, JsonModel::Number(NumberModel::PosInt(150))),
                ],
            )),
            ("version"@, JsonModel::Str("1.0.0"@)),
        ],
    )
}

/// The service status: version, environment, features and statistics.
pub fn get_saas_status() -> (reply: JsonValue)
    ensures
        reply.model() == saas_status_reply(),
{
    let mut o1 = no_members();
    push_member(&mut o1, "environment", text("production"));
    let mut o2 = no_members();
    push_member(&mut o2, "analytics", JsonValue::Bool(true));
    push_member(&mut o2, "billing", JsonValue::Bool(true));
    push_member(&mut o2, "multi_tenancy", JsonValue::Bool(true));
    push_member(&mut o2, "provisioning", JsonValue::Bool(false));
    push_member(&mut o2, "quotas", JsonValue::Bool(true));
    push_member(&mut o2, "sso", JsonValue::Bool(true));
    assert(members_model(o2@) =~= saas_status_reply()->Object_0[1].1->Object_0);
    let o2 = object(o2);
    push_member(&mut o1, "features", o2);
    let mut o3 = no_members();
    push_member(&mut o3, "active_tenants", uint(142));
    push_member(&mut o3, "monthly_revenue", decimal_number("12750.0"));
    push_member(&mut o3, "total_storage_gb", decimal_number("2500.5"));
    push_member(&mut o3, "total_tenants", uint(150));
    assert(members_model(o3@) =~= saas_status_reply()->Object_0[2].1->Object_0);
    let o3 = object(o3);
    push_member(&mut o1, "statistics", o3);
    push_member(&mut o1, "version", text("1.0.0"));
    assert(members_model(o1@) =~= saas_status_reply()->Object_0);
    let o1 = object(o1);
    o1
}

/// The administrative figures on tenants, billing, usage and quotas.
pub open spec fn admin_metrics_reply() -> JsonModel {
    JsonModel::Object(
        seq![
            ("billing_metrics"@, JsonModel::Object(
                seq![
                    ("average_billing_amount"@, JsonModel::Number(NumberModel::Float("89.47"@))),
                    ("collection_rate"@, JsonModel::Number(NumberModel::Float("0.98"@))),
                    ("monthly_revenue"@, JsonModel::Number(NumberModel::Float("12750.0"@))),
                    ("outstanding_invoices"@, JsonModel::Number(NumberModel::PosInt(5))),
                ],
            )),
            ("quota_metrics"@, JsonModel::Object(
                seq![
                    ("most_common_violation"@, JsonModel::Str("storage"@)),
                    ("tenants_near_limit"@, JsonModel::Number(NumberModel::PosInt(12))),
                    ("violations_today"@, JsonModel::Number(NumberModel::PosInt(3))),
                ],
            )),
            ("tenant_metrics"@, JsonModel::Object(
                seq![
                    ("active"@, JsonModel::Number(NumberModel::PosInt(142))),
                    ("new_this_month"@, JsonModel::Number(NumberModel::PosInt(12))),
                    ("suspended"@, JsonModel::Number(NumberModel::PosInt(0))),
                    ("total"@, JsonModel::Number(NumberModel::PosInt(150))),
                    ("trial"@, JsonModel::Number(NumberModel::PosInt(8))),
                ],
            )),
            ("usage_metrics"@, JsonModel::Object(
                seq![
                    ("average_response_time_ms"@, JsonModel::Number(NumberModel::PosInt(45))),
                    ("error_rate"@, JsonModel::Number(NumberModel::Float("0.015"@))),
                    ("total_api_calls_today"@, JsonModel::Number(NumberModel::PosInt(125000))),
                    ("total_storage_gb"@, JsonModel::Number(NumberModel::Float("2500.5"@))),
                ],
            )),
        ],
    )
}

/// The administrative figures on tenants, billing, usage and quotas.
pub fn get_admin_metrics() -> (reply: JsonValue)
    ensures
        reply.model() == admin_metrics_reply(),
{
    let mut o1 = no_members();
    let mut o2 = no_members();
    push_member(&mut o2, "average_billing_amount", decimal_number("89.47"));
    push_member(&mut o2, "collection_rate", decimal_number("0.98"));
    push_member(&mut o2, "monthly_revenue", decimal_number("12750.0"));
    push_member(&mut o2, "outstanding_invoices", uint(5));
    assert(members_model(o2@) =~= admin_metrics_reply()->Object_0[0].1->Object_0);
    let o2 = object(o2);
    push_member(&mut o1, "billing_metrics", o2);
    let mut o3 = no_members();
    push_member(&mut o3, "most_common_violation", text("storage"));
    push_member(&mut o3, "tenants_near_limit", uint(12));
    push_member(&mut o3, "violations_today", uint(3));
    assert(members_model(o3@) =~= admin_metrics_reply()->Object_0[1].1->Object_0);
    let o3 = object(o3);
    push_member(&mut o1, "quota_metrics", o3);
    let mut o4 = no_members();
    push_member(&mut o4, "active", uint(142));
    push_member(&mut o4, "new_this_month", uint(12));
    push_member(&mut o4, "suspended", uint(0));
    push_member(&mut o4, "total", uint(150));
    push_member(&mut o4, "trial", uint(8));
    assert(members_model(o4@) =~= admin_metrics_reply()->Object_0[2].1->Object_0);
    let o4 = object(o4);
    push_member(&mut o1, "tenant_metrics", o4);
    let mut o5 = no_members();
    push_member(&mut o5, "average_response_time_ms", uint(45));
    push_member(&mut o5, "error_rate", decimal_number("0.015"));
    push_member(&mut o5, "total_api_calls_today", uint(125000));
    push_member(&mut o5, "total_storage_gb", decimal_number("2500.5"));
    assert(members_model(o5@) =~= admin_metrics_reply()->Object_0[3].1->Object_0);
    let o5 = object(o5);
    push_member(&mut o1, "usage_metrics", o5);
    assert(members_model(o1@) =~= admin_metrics_reply()->Object_0);
    let o1 = object(o1);
    o1
}

/// The health report at `timestamp`: the service and its managers healthy.
pub open spec fn saas_health_reply(timestamp: Seq<char>) -> JsonModel {
    JsonModel::Object(
        seq![
            ("services"@, JsonModel::Object(
                seq![
                    ("billing_manager"@, JsonModel::Str("healthy"@)),
                    ("quota_manager"@, JsonModel::Str("healthy"@)),
                    ("saas_manager"@, JsonModel::Str("healthy"@)),
                    ("tenant_manager"@, JsonModel::Str("healthy"@)),
                ],
            )),
            ("status"@, JsonModel::Str("healthy"@)),
            ("timestamp"@, JsonModel::Str(timestamp)),
        ],
    )
}

/// The health report at `timestamp`: the service and its managers healthy.
pub fn saas_health(timestamp: &str) -> (reply: JsonValue)
    ensures
        reply.model() == saas_health_reply(timestamp@),
{
    let mut o1 = no_members();
    let mut o2 = no_members();
    push_member(&mut o2, "billing_manager", text("healthy"));
    push_member(&mut o2, "quota_manager", text("healthy"));
    push_member(&mut o2, "saas_manager", text("healthy"));
    push_member(&mut o2, "tenant_manager", text("healthy"));
    assert(members_model(o2@) =~= saas_health_reply(timestamp@)->Object_0[0].1->Object_0);
    let o2 = object(o2);
    push_member(&mut o1, "services", o2);
    push_member(&mut o1, "status", text("healthy"));
    push_member(&mut o1, "timestamp", text(timestamp));
    assert(members_model(o1@) =~= saas_health_reply(timestamp@)->Object_0);
    let o1 = object(o1);
    o1
}
/// The reply to a token refresh: refreshing is not offered, and the reply says so.
pub open spec fn refresh_reply() -> JsonModel {
    JsonModel::Object(
        seq![
            ("message"@, JsonModel::Str("Token refresh not yet implemented"@)),
            ("status"@, JsonModel::Str("placeholder"@)),
        ],
    )
}

/// Answers a token refresh request; the token is not examined.
pub fn refresh_token(request: &crate::api::RefreshTokenRequest) -> (reply: JsonValue)
    ensures
        reply.model() == refresh_reply(),
{
    let mut m = no_members();
    push_member(&mut m, "message", text("Token refresh not yet implemented"));
    push_member(&mut m, "status", text("placeholder"));
    assert(members_model(m@) =~= refresh_reply()->Object_0);
    object(m)
}

} // verus!
