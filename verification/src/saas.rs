//! The SaaS management commands of the command-line client, and the HTTP
//! request that each of them sends.
use vstd::prelude::*;
use crate::json::{
    JsonModel, JsonNumber, JsonValue, NumberModel, lookup, members_model, no_members, object, push_member, text,
    text_or_null, text_or_null_model,
};
use crate::text::{concat, decimal, is_ascii_char, opt_view, owned, push_str, u64_to_decimal};

verus! {

/// Arguments of the `saas` command.
#[derive(Debug)]
pub struct SaaSArgs {
    pub command: SaaSCommand,
}

/// The SaaS command groups.
#[derive(Debug)]
pub enum SaaSCommand {
    Auth(AuthCommand),
    Tenant(TenantCommand),
    Billing(BillingCommand),
    Quota(QuotaCommand),
    Sso(SsoCommand),
    Analytics(AnalyticsCommand),
    Monitor(MonitorCommand),
    Admin(AdminCommand),
}

/// Tenant management.
#[derive(Debug)]
pub enum TenantCommand {
    Create { name: String, domain: Option<String>, tier: String, billing_email: Option<String> },
    List { limit: u32, offset: u32, status: Option<String>, tier: Option<String> },
    Get { tenant_id: String },
    Update { tenant_id: String, name: Option<String>, tier: Option<String> },
    Usage { tenant_id: String },
    Delete { tenant_id: String, force: bool },
}

/// Billing.
#[derive(Debug)]
pub enum BillingCommand {
    Invoices { tenant_id: Option<String>, limit: u32 },
    Balance { tenant_id: String },
    Pricing,
    Calculate { tenant_id: String, start_date: String, end_date: String },
}

/// Quotas.
#[derive(Debug)]
pub enum QuotaCommand {
    Check { tenant_id: String, operation: String, delta: u64 },
    Violations,
    Status { tenant_id: String },
}

/// Single sign-on.
#[derive(Debug)]
pub enum SsoCommand {
    Providers,
    Auth { provider: String, redirect_uri: String, state: Option<String> },
    Validate { session_id: String },
}

/// Usage analytics.
#[derive(Debug)]
pub enum AnalyticsCommand {
    Usage { start_date: Option<String>, end_date: Option<String> },
    Tenant { tenant_id: String },
    System,
}

/// Administration.
#[derive(Debug)]
pub enum AdminCommand {
    Health,
    Status,
    Metrics,
}

/// Authentication.
#[derive(Debug)]
pub enum AuthCommand {
    Login { tenant_id: String, user_id: String, password: String },
    Logout { session_id: Option<String> },
    Status,
    Sessions { tenant_id: String, user_id: String },
    Refresh,
}

/// Live monitoring; each polls the server every `interval` seconds.
#[derive(Debug)]
pub enum MonitorCommand {
    Usage { tenant_id: String, interval: u64 },
    Health { interval: u64 },
    Quotas { interval: u64 },
}

/// An HTTP method.
#[derive(Clone, Copy, Debug, PartialEq, Eq, Structural)]
pub enum HttpMethod {
    Get,
    Post,
    Put,
    Delete,
}

/// An HTTP request to the server: method, path, query parameters and JSON body.
#[derive(Debug)]
pub struct ApiRequest {
    pub method: HttpMethod,
    pub path: String,
    pub query: Vec<(String, String)>,
    pub body: Option<JsonValue>,
}

/// The mathematical form of a request.
pub struct RequestModel {
    pub method: HttpMethod,
    pub path: Seq<char>,
    pub query: Seq<(Seq<char>, Seq<char>)>,
    pub body: Option<JsonModel>,
}

/// The views of query parameters.
pub open spec fn pairs_view(q: Seq<(String, String)>) -> Seq<(Seq<char>, Seq<char>)> {
    Seq::new(q.len(), |i: int| (q[i].0@, q[i].1@))
}

impl ApiRequest {
    pub open spec fn model(&self) -> RequestModel {
        RequestModel {
            method: self.method,
            path: self.path@,
            query: pairs_view(self.query@),
            body: match self.body {
                Some(b) => Some(b.model()),
                None => None,
            },
        }
    }
}

/// A request without query parameters.
pub open spec fn request_model(method: HttpMethod, path: Seq<char>, body: Option<JsonModel>) -> RequestModel {
    RequestModel { method, path, query: Seq::empty(), body }
}

/// A GET request with query parameters.
pub open spec fn query_model(path: Seq<char>, query: Seq<(Seq<char>, Seq<char>)>) -> RequestModel {
    RequestModel { method: HttpMethod::Get, path, query, body: None }
}

/// Why a SaaS command was refused before anything was sent.
#[derive(Debug, PartialEq, Eq, Structural)]
pub enum SaasError {
    /// The tenant ID is not a UUID.
    InvalidTenantId,
}

/// The hyphenated lower-case form of the UUID that `s` denotes, or nothing when
/// `uuid::Uuid::parse_str` refuses `s`.
pub uninterp spec fn uuid_canonical(s: Seq<char>) -> Option<Seq<char>>;

/// `uuid::Uuid::parse_str`, then `to_string` on the identifier: the canonical form
/// named by `uuid_canonical`; the crate's `Display` writes the 36-character hyphenated form,
/// which parses back to the same identifier. The parser takes only ASCII text of 32, 36,
/// 38 or 45 characters (simple, hyphenated, braced, URN); which texts of those lengths it
/// accepts is left to the name.
#[verifier::external_body]
fn parse_uuid(s: &str) -> (r: Option<String>)
    ensures
        opt_view(r) == uuid_canonical(s@),
        r matches Some(t) ==> t@.len() == 36 && uuid_canonical(t@) == Some(t@),
        (forall|i: int| 0 <= i < s@.len() ==> is_ascii_char(#[trigger] s@[i])) && !(s@.len() == 32
            || s@.len() == 36 || s@.len() == 38 || s@.len() == 45) ==> r is None,
{
    uuid::Uuid::parse_str(s).ok().map(|u| u.to_string())
}

/// `uuid::Uuid::new_v4().to_string()`: a fresh random identifier in its 36-character
/// hyphenated form, which is its own canonical form. Which identifier it is stays open; it
/// changes from call to call.
#[verifier::external_body]
pub(crate) fn fresh_uuid() -> (r: String)
    ensures
        r@.len() == 36,
        uuid_canonical(r@) == Some(r@),
{
    uuid::Uuid::new_v4().to_string()
}

pub(crate) fn request(method: HttpMethod, path: String, body: Option<JsonValue>) -> (r: ApiRequest)
    ensures
        r.model() == request_model(
            method,
            path@,
            match body {
                Some(b) => Some(b.model()),
                None => None,
            },
        ),
{
    let r = ApiRequest { method, path, query: Vec::new(), body };
    assert(pairs_view(r.query@) =~= Seq::empty());
    r
}

pub(crate) fn push_pair(q: &mut Vec<(String, String)>, key: &str, value: String)
    ensures
        pairs_view(final(q)@) == pairs_view(old(q)@).push((key@, value@)),
{
    let ghost before = q@;
    q.push((owned(key), value));
    assert(pairs_view(q@) =~= pairs_view(before).push((key@, value@)));
}

/// `prefix`, then `id`, then `suffix`.
pub fn path_with(prefix: &str, id: &str, suffix: &str) -> (p: String)
    ensures
        p@ == prefix@ + id@ + suffix@,
{
    let mut p = owned(prefix);
    push_str(&mut p, id);
    push_str(&mut p, suffix);
    p
}

/// The member `key: value` if there is a value, else nothing.
pub open spec fn optional_member(key: Seq<char>, value: Option<Seq<char>>) -> Seq<(Seq<char>, JsonModel)> {
    match value {
        Some(v) => seq![(key, JsonModel::Str(v))],
        None => Seq::empty(),
    }
}

/// The query parameter `key=value` if there is a value, else nothing.
pub open spec fn optional_pair(key: Seq<char>, value: Option<Seq<char>>) -> Seq<(Seq<char>, Seq<char>)> {
    match value {
        Some(v) => seq![(key, v)],
        None => Seq::empty(),
    }
}

pub(crate) fn push_optional_member(members: &mut Vec<(String, JsonValue)>, key: &str, value: Option<String>)
    ensures
        members_model(final(members)@) == members_model(old(members)@) + optional_member(key@, opt_view(value)),
{
    match value {
        Some(v) => {
            let ghost vv = v@;
            push_member(members, key, JsonValue::Str(v));
            assert(members_model(members@) =~= members_model(old(members)@) + optional_member(key@, Some(vv)));
        },
        None => {
            assert(members_model(members@) =~= members_model(old(members)@) + optional_member(key@, None));
        },
    }
}

pub(crate) fn push_optional_pair(q: &mut Vec<(String, String)>, key: &str, value: Option<String>)
    ensures
        pairs_view(final(q)@) == pairs_view(old(q)@) + optional_pair(key@, opt_view(value)),
{
    match value {
        Some(v) => {
            let ghost vv = v@;
            push_pair(q, key, v);
            assert(pairs_view(q@) =~= pairs_view(old(q)@) + optional_pair(key@, Some(vv)));
        },
        None => {
            assert(pairs_view(q@) =~= pairs_view(old(q)@) + optional_pair(key@, None));
        },
    }
}

/// The start of a day in UTC, `date` being `YYYY-MM-DD`.
pub open spec fn day_start(date: Seq<char>) -> Seq<char> {
    date + "T00:00:00Z"@
}

/// The last second of a day in UTC.
pub open spec fn day_end(date: Seq<char>) -> Seq<char> {
    date + "T23:59:59Z"@
}

/// The request a tenant command sends.
pub open spec fn tenant_request_spec(cmd: TenantCommand) -> RequestModel {
    match cmd {
        TenantCommand::Create { name, domain, tier, billing_email } => request_model(
            HttpMethod::Post,
            "/api/v1/saas/tenants"@,
            Some(
                JsonModel::Object(
                    seq![
                        ("billing_info"@, match billing_email {
                            Some(e) => JsonModel::Object(
                                seq![
                                    ("billing_cycle"@, JsonModel::Str("Monthly"@)),
                                    ("billing_email"@, JsonModel::Str(e@)),
                                    ("currency"@, JsonModel::Str("USD"@)),
                                ],
                            ),
                            None => JsonModel::Null,
                        }),
                        ("organization_domain"@, text_or_null_model(opt_view(domain))),
                        ("organization_name"@, JsonModel::Str(name@)),
                        ("subscription_tier"@, JsonModel::Str(tier@)),
                    ],
                ),
            ),
        ),
        TenantCommand::List { limit, offset, status, tier } => query_model(
            "/api/v1/saas/tenants"@,
            seq![("limit"@, decimal(limit as nat)), ("offset"@, decimal(offset as nat))]
                + optional_pair("status"@, opt_view(status)) + optional_pair(
                "subscription_tier"@,
                opt_view(tier),
            ),
        ),
        TenantCommand::Get { tenant_id } => request_model(
            HttpMethod::Get,
            "/api/v1/saas/tenants/"@ + tenant_id@,
            None,
        ),
        TenantCommand::Update { tenant_id, name, tier } => request_model(
            HttpMethod::Put,
            "/api/v1/saas/tenants/"@ + tenant_id@,
            Some(
                JsonModel::Object(
                    optional_member("organization_name"@, opt_view(name)) + optional_member(
                        "subscription_tier"@,
                        opt_view(tier),
                    ),
                ),
            ),
        ),
        TenantCommand::Usage { tenant_id } => request_model(
            HttpMethod::Get,
            "/api/v1/saas/tenants/"@ + tenant_id@ + "/usage"@,
            None,
        ),
        TenantCommand::Delete { tenant_id, force } => request_model(
            HttpMethod::Delete,
            "/api/v1/saas/tenants/"@ + tenant_id@,
            None,
        ),
    }
}

/// The request that a tenant command sends.
pub fn tenant_request(cmd: TenantCommand) -> (r: ApiRequest)
    ensures
        r.model() == tenant_request_spec(cmd),
{
    match cmd {
        TenantCommand::Create { name, domain, tier, billing_email } => {
            let ghost expected = tenant_request_spec(cmd).body->0;
            let billing = match billing_email {
                Some(e) => {
                    let mut m: Vec<(String, JsonValue)> = Vec::new();
                    assert(members_model(m@) =~= Seq::empty());
                    push_member(&mut m, "billing_cycle", text("Monthly"));
                    push_member(&mut m, "billing_email", JsonValue::Str(e));
                    push_member(&mut m, "currency", text("USD"));
                    assert(members_model(m@) =~= expected->Object_0[0].1->Object_0);
                    object(m)
                },
                None => JsonValue::Null,
            };
            let mut body: Vec<(String, JsonValue)> = Vec::new();
            assert(members_model(body@) =~= Seq::empty());
            push_member(&mut body, "billing_info", billing);
            push_member(&mut body, "organization_domain", text_or_null(domain));
            push_member(&mut body, "organization_name", JsonValue::Str(name));
            push_member(&mut body, "subscription_tier", JsonValue::Str(tier));
            assert(members_model(body@) =~= expected->Object_0);
            let r = request(HttpMethod::Post, owned("/api/v1/saas/tenants"), Some(object(body)));
            r
        },
        TenantCommand::List { limit, offset, status, tier } => {
            let mut q: Vec<(String, String)> = Vec::new();
            assert(pairs_view(q@) =~= Seq::empty());
            push_pair(&mut q, "limit", u64_to_decimal(limit as u64));
            push_pair(&mut q, "offset", u64_to_decimal(offset as u64));
            assert(pairs_view(q@) =~= seq![("limit"@, decimal(limit as nat)), ("offset"@, decimal(offset as nat))]);
            push_optional_pair(&mut q, "status", status);
            push_optional_pair(&mut q, "subscription_tier", tier);
            ApiRequest { method: HttpMethod::Get, path: owned("/api/v1/saas/tenants"), query: q, body: None }
        },
        TenantCommand::Get { tenant_id } => request(
            HttpMethod::Get,
            concat("/api/v1/saas/tenants/", tenant_id.as_str()),
            None,
        ),
        TenantCommand::Update { tenant_id, name, tier } => {
            let mut body: Vec<(String, JsonValue)> = Vec::new();
            push_optional_member(&mut body, "organization_name", name);
            push_optional_member(&mut body, "subscription_tier", tier);
            request(
                HttpMethod::Put,
                concat("/api/v1/saas/tenants/", tenant_id.as_str()),
                Some(object(body)),
            )
        },
        TenantCommand::Usage { tenant_id } => request(
            HttpMethod::Get,
            path_with("/api/v1/saas/tenants/", tenant_id.as_str(), "/usage"),
            None,
        ),
        TenantCommand::Delete { tenant_id, force } => request(
            HttpMethod::Delete,
            concat("/api/v1/saas/tenants/", tenant_id.as_str()),
            None,
        ),
    }
}

/// The end of a day for an optional date.
pub open spec fn opt_day_end(o: Option<String>) -> Option<Seq<char>> {
    match o {
        Some(d) => Some(day_end(d@)),
        None => None,
    }
}

/// The start of a day for an optional date.
pub open spec fn opt_day_start(o: Option<String>) -> Option<Seq<char>> {
    match o {
        Some(d) => Some(day_start(d@)),
        None => None,
    }
}

/// A GET request without parameters.
pub open spec fn get_model(path: Seq<char>) -> RequestModel {
    request_model(HttpMethod::Get, path, None)
}

/// A POST request with a JSON object body.
pub open spec fn post_model(path: Seq<char>, members: Seq<(Seq<char>, JsonModel)>) -> RequestModel {
    request_model(HttpMethod::Post, path, Some(JsonModel::Object(members)))
}

/// The request a billing command sends.
pub open spec fn billing_request_spec(cmd: BillingCommand) -> RequestModel {
    match cmd {
        BillingCommand::Invoices { tenant_id, limit } => query_model(
            match tenant_id {
                Some(t) => "/api/v1/saas/billing/tenants/"@ + t@ + "/invoices"@,
                None => "/api/v1/saas/billing/invoices"@,
            },
            seq![("limit"@, decimal(limit as nat))] + optional_pair("tenant_id"@, opt_view(tenant_id)),
        ),
        BillingCommand::Balance { tenant_id } => get_model(
            "/api/v1/saas/billing/tenants/"@ + tenant_id@ + "/balance"@,
        ),
        BillingCommand::Pricing => get_model("/api/v1/saas/billing/pricing"@),
        BillingCommand::Calculate { tenant_id, start_date, end_date } => post_model(
            "/api/v1/saas/billing/calculate"@,
            seq![
                ("end_date"@, JsonModel::Str(day_end(end_date@))),
                ("start_date"@, JsonModel::Str(day_start(start_date@))),
                ("tenant_id"@, JsonModel::Str(tenant_id@)),
            ],
        ),
    }
}

pub(crate) fn get_request(path: String) -> (r: ApiRequest)
    ensures
        r.model() == get_model(path@),
{
    request(HttpMethod::Get, path, None)
}

pub(crate) fn post_request(path: String, members: Vec<(String, JsonValue)>) -> (r: ApiRequest)
    ensures
        r.model() == post_model(path@, members_model(members@)),
{
    request(HttpMethod::Post, path, Some(object(members)))
}

pub(crate) fn no_pairs() -> (q: Vec<(String, String)>)
    ensures
        pairs_view(q@) == Seq::<(Seq<char>, Seq<char>)>::empty(),
{
    let q: Vec<(String, String)> = Vec::new();
    assert(pairs_view(q@) =~= Seq::empty());
    q
}

/// The request that a billing command sends.
pub fn billing_request(cmd: BillingCommand) -> (r: ApiRequest)
    ensures
        r.model() == billing_request_spec(cmd),
{
    match cmd {
        BillingCommand::Invoices { tenant_id, limit } => {
            let mut q = no_pairs();
            push_pair(&mut q, "limit", u64_to_decimal(limit as u64));
            let path = match &tenant_id {
                Some(t) => path_with("/api/v1/saas/billing/tenants/", t.as_str(), "/invoices"),
                None => owned("/api/v1/saas/billing/invoices"),
            };
            push_optional_pair(&mut q, "tenant_id", tenant_id);
            assert(pairs_view(q@) =~= billing_request_spec(cmd).query);
            ApiRequest { method: HttpMethod::Get, path, query: q, body: None }
        },
        BillingCommand::Balance { tenant_id } => get_request(
            path_with("/api/v1/saas/billing/tenants/", tenant_id.as_str(), "/balance"),
        ),
        BillingCommand::Pricing => get_request(owned("/api/v1/saas/billing/pricing")),
        BillingCommand::Calculate { tenant_id, start_date, end_date } => {
            let mut m = no_members();
            push_member(&mut m, "end_date", JsonValue::Str(concat(end_date.as_str(), "T23:59:59Z")));
            push_member(
                &mut m,
                "start_date",
                JsonValue::Str(concat(start_date.as_str(), "T00:00:00Z")),
            );
            push_member(&mut m, "tenant_id", JsonValue::Str(tenant_id));
            let ghost expected = billing_request_spec(cmd).body->0->Object_0;
            assert(members_model(m@) =~= expected);
            post_request(owned("/api/v1/saas/billing/calculate"), m)
        },
    }
}

/// The request a quota command sends.
pub open spec fn quota_request_spec(cmd: QuotaCommand) -> RequestModel {
    match cmd {
        QuotaCommand::Check { tenant_id, operation, delta } => post_model(
            "/api/v1/saas/quotas/check"@,
            seq![
                ("operation_type"@, JsonModel::Str(operation@)),
                ("resource_delta"@, JsonModel::Number(NumberModel::PosInt(delta as nat))),
                ("tenant_id"@, JsonModel::Str(tenant_id@)),
            ],
        ),
        QuotaCommand::Violations => get_model("/api/v1/saas/quotas/violations"@),
        QuotaCommand::Status { tenant_id } => get_model(
            "/api/v1/saas/quotas/tenants/"@ + tenant_id@ + "/status"@,
        ),
    }
}

/// The request that a quota command sends.
pub fn quota_request(cmd: QuotaCommand) -> (r: ApiRequest)
    ensures
        r.model() == quota_request_spec(cmd),
{
    match cmd {
        QuotaCommand::Check { tenant_id, operation, delta } => {
            let mut m = no_members();
            push_member(&mut m, "operation_type", JsonValue::Str(operation));
            push_member(&mut m, "resource_delta", JsonValue::Number(JsonNumber::PosInt(delta)));
            push_member(&mut m, "tenant_id", JsonValue::Str(tenant_id));
            let ghost expected = quota_request_spec(cmd).body->0->Object_0;
            assert(members_model(m@) =~= expected);
            post_request(owned("/api/v1/saas/quotas/check"), m)
        },
        QuotaCommand::Violations => get_request(owned("/api/v1/saas/quotas/violations")),
        QuotaCommand::Status { tenant_id } => get_request(
            path_with("/api/v1/saas/quotas/tenants/", tenant_id.as_str(), "/status"),
        ),
    }
}

/// The request a single sign-on command sends; `fresh_state` is the state sent when
/// the command gives none.
pub open spec fn sso_request_spec(cmd: SsoCommand, fresh_state: Seq<char>) -> RequestModel {
    match cmd {
        SsoCommand::Providers => get_model("/api/v1/saas/sso/providers"@),
        SsoCommand::Auth { provider, redirect_uri, state } => post_model(
            "/api/v1/saas/sso/auth/initiate"@,
            seq![
                ("provider"@, JsonModel::Str(provider@)),
                ("redirect_uri"@, JsonModel::Str(redirect_uri@)),
                ("state"@, JsonModel::Str(match state {
                    Some(s) => s@,
                    None => fresh_state,
                })),
            ],
        ),
        SsoCommand::Validate { session_id } => get_model("/api/v1/saas/sso/sessions/"@ + session_id@),
    }
}

/// The request that a single sign-on command sends, with `fresh_state` as the state
/// when the command gives none.
pub fn sso_request(cmd: SsoCommand, fresh_state: String) -> (r: ApiRequest)
    ensures
        r.model() == sso_request_spec(cmd, fresh_state@),
{
    match cmd {
        SsoCommand::Providers => get_request(owned("/api/v1/saas/sso/providers")),
        SsoCommand::Auth { provider, redirect_uri, state } => {
            let st = match state {
                Some(s) => s,
                None => fresh_state,
            };
            let mut m = no_members();
            push_member(&mut m, "provider", JsonValue::Str(provider));
            push_member(&mut m, "redirect_uri", JsonValue::Str(redirect_uri));
            push_member(&mut m, "state", JsonValue::Str(st));
            let ghost expected = sso_request_spec(cmd, fresh_state@).body->0->Object_0;
            assert(members_model(m@) =~= expected);
            post_request(owned("/api/v1/saas/sso/auth/initiate"), m)
        },
        SsoCommand::Validate { session_id } => get_request(
            concat("/api/v1/saas/sso/sessions/", session_id.as_str()),
        ),
    }
}

/// The request an analytics command sends.
pub open spec fn analytics_request_spec(cmd: AnalyticsCommand) -> RequestModel {
    match cmd {
        AnalyticsCommand::Usage { start_date, end_date } => post_model(
            "/api/v1/saas/analytics/usage"@,
            seq![("aggregation"@, JsonModel::Str("Sum"@))] + optional_member(
                "end_time"@,
                opt_day_end(end_date),
            ) + seq![("metric_name"@, JsonModel::Str("usage_summary"@))] + optional_member(
                "start_time"@,
                opt_day_start(start_date),
            ),
        ),
        AnalyticsCommand::Tenant { tenant_id } => get_model(
            "/api/v1/saas/analytics/tenants/"@ + tenant_id@ + "/summary"@,
        ),
        AnalyticsCommand::System => get_model("/api/v1/saas/analytics/system/metrics"@),
    }
}

/// The request that an analytics command sends.
pub fn analytics_request(cmd: AnalyticsCommand) -> (r: ApiRequest)
    ensures
        r.model() == analytics_request_spec(cmd),
{
    match cmd {
        AnalyticsCommand::Usage { start_date, end_date } => {
            let end = match &end_date {
                Some(e) => Some(concat(e.as_str(), "T23:59:59Z")),
                None => None,
            };
            let start = match &start_date {
                Some(b) => Some(concat(b.as_str(), "T00:00:00Z")),
                None => None,
            };
            let mut m = no_members();
            push_member(&mut m, "aggregation", text("Sum"));
            push_optional_member(&mut m, "end_time", end);
            let ghost after_end = members_model(m@);
            push_member(&mut m, "metric_name", text("usage_summary"));
            push_optional_member(&mut m, "start_time", start);
            let ghost expected = analytics_request_spec(cmd).body->0->Object_0;
            assert(after_end =~= seq![("aggregation"@, JsonModel::Str("Sum"@))] + optional_member(
                "end_time"@,
                opt_day_end(end_date),
            ));
            assert(members_model(m@) =~= expected);
            post_request(owned("/api/v1/saas/analytics/usage"), m)
        },
        AnalyticsCommand::Tenant { tenant_id } => get_request(
            path_with("/api/v1/saas/analytics/tenants/", tenant_id.as_str(), "/summary"),
        ),
        AnalyticsCommand::System => get_request(owned("/api/v1/saas/analytics/system/metrics")),
    }
}

/// The request an administration command sends.
pub open spec fn admin_request_spec(cmd: AdminCommand) -> RequestModel {
    match cmd {
        AdminCommand::Health => get_model("/api/v1/saas/admin/health"@),
        AdminCommand::Status => get_model("/api/v1/saas/admin/status"@),
        AdminCommand::Metrics => get_model("/api/v1/saas/admin/metrics"@),
    }
}

/// The request that an administration command sends.
pub fn admin_request(cmd: AdminCommand) -> (r: ApiRequest)
    ensures
        r.model() == admin_request_spec(cmd),
{
    match cmd {
        AdminCommand::Health => get_request(owned("/api/v1/saas/admin/health")),
        AdminCommand::Status => get_request(owned("/api/v1/saas/admin/status")),
        AdminCommand::Metrics => get_request(owned("/api/v1/saas/admin/metrics")),
    }
}

/// The request an authentication command sends, or why none is sent: a tenant ID
/// that is not a UUID.
pub open spec fn auth_request_spec(cmd: AuthCommand) -> Result<RequestModel, SaasError> {
    match cmd {
        AuthCommand::Login { tenant_id, user_id, password } => match uuid_canonical(tenant_id@) {
            Some(u) => Ok(
                post_model(
                    "/api/v1/saas/auth/login"@,
                    seq![
                        ("password"@, JsonModel::Str(password@)),
                        ("tenant_id"@, JsonModel::Str(u)),
                        ("user_id"@, JsonModel::Str(user_id@)),
                    ],
                ),
            ),
            None => Err(SaasError::InvalidTenantId),
        },
        AuthCommand::Logout { session_id } => Ok(
            post_model("/api/v1/saas/auth/logout"@, optional_member("session_id"@, opt_view(session_id))),
        ),
        AuthCommand::Status => Ok(get_model("/api/v1/saas/auth/status"@)),
        AuthCommand::Sessions { tenant_id, user_id } => if uuid_canonical(tenant_id@) is Some {
            Ok(query_model("/api/v1/saas/auth/sessions"@, seq![("tenant_id"@, tenant_id@), ("user_id"@, user_id@)]))
        } else {
            Err(SaasError::InvalidTenantId)
        },
        AuthCommand::Refresh => Ok(
            post_model("/api/v1/saas/auth/refresh"@, seq![("refresh_token"@, JsonModel::Str("placeholder"@))]),
        ),
    }
}

/// The model of a request, or the reason none is sent.
pub open spec fn result_model(r: Result<ApiRequest, SaasError>) -> Result<RequestModel, SaasError> {
    match r {
        Ok(q) => Ok(q.model()),
        Err(e) => Err(e),
    }
}

/// The request that an authentication command sends.
pub fn auth_request(cmd: AuthCommand) -> (r: Result<ApiRequest, SaasError>)
    ensures
        result_model(r) == auth_request_spec(cmd),
{
    match cmd {
        AuthCommand::Login { tenant_id, user_id, password } => {
            match parse_uuid(tenant_id.as_str()) {
                Some(u) => {
                    let mut m = no_members();
                    push_member(&mut m, "password", JsonValue::Str(password));
                    push_member(&mut m, "tenant_id", JsonValue::Str(u));
                    push_member(&mut m, "user_id", JsonValue::Str(user_id));
                    let ghost expected = auth_request_spec(cmd)->Ok_0.body->0->Object_0;
                    assert(members_model(m@) =~= expected);
                    Ok(post_request(owned("/api/v1/saas/auth/login"), m))
                },
                None => Err(SaasError::InvalidTenantId),
            }
        },
        AuthCommand::Logout { session_id } => {
            let mut m = no_members();
            push_optional_member(&mut m, "session_id", session_id);
            assert(members_model(m@) =~= optional_member("session_id"@, opt_view(session_id)));
            Ok(post_request(owned("/api/v1/saas/auth/logout"), m))
        },
        AuthCommand::Status => Ok(get_request(owned("/api/v1/saas/auth/status"))),
        AuthCommand::Sessions { tenant_id, user_id } => {
            match parse_uuid(tenant_id.as_str()) {
                Some(_) => {
                    let mut q = no_pairs();
                    push_pair(&mut q, "tenant_id", tenant_id);
                    push_pair(&mut q, "user_id", user_id);
                    let ghost expected = auth_request_spec(cmd)->Ok_0.query;
                    assert(pairs_view(q@) =~= expected);
                    Ok(ApiRequest { method: HttpMethod::Get, path: owned("/api/v1/saas/auth/sessions"), query: q, body: None })
                },
                None => Err(SaasError::InvalidTenantId),
            }
        },
        AuthCommand::Refresh => {
            let mut m = no_members();
            push_member(&mut m, "refresh_token", text("placeholder"));
            assert(members_model(m@) =~= seq![("refresh_token"@, JsonModel::Str("placeholder"@))]);
            Ok(post_request(owned("/api/v1/saas/auth/refresh"), m))
        },
    }
}

/// The request a monitoring command polls with, or why none is sent.
pub open spec fn monitor_request_spec(cmd: MonitorCommand) -> Result<RequestModel, SaasError> {
    match cmd {
        MonitorCommand::Usage { tenant_id, interval } => match uuid_canonical(tenant_id@) {
            Some(u) => Ok(get_model("/api/v1/saas/tenants/"@ + u + "/usage/live"@)),
            None => Err(SaasError::InvalidTenantId),
        },
        MonitorCommand::Health { interval } => Ok(get_model("/api/v1/saas/status"@)),
        MonitorCommand::Quotas { interval } => Ok(get_model("/api/v1/saas/quotas/violations"@)),
    }
}

/// The request that a monitoring command polls with.
pub fn monitor_request(cmd: &MonitorCommand) -> (r: Result<ApiRequest, SaasError>)
    ensures
        result_model(r) == monitor_request_spec(*cmd),
{
    match cmd {
        MonitorCommand::Usage { tenant_id, interval } => match parse_uuid(tenant_id.as_str()) {
            Some(u) => Ok(get_request(path_with("/api/v1/saas/tenants/", u.as_str(), "/usage/live"))),
            None => Err(SaasError::InvalidTenantId),
        },
        MonitorCommand::Health { interval } => Ok(get_request(owned("/api/v1/saas/status"))),
        MonitorCommand::Quotas { interval } => Ok(get_request(owned("/api/v1/saas/quotas/violations"))),
    }
}

/// Seconds between two polls of a monitoring command.
pub fn monitor_interval(cmd: &MonitorCommand) -> (secs: u64)
    ensures
        secs == match *cmd {
            MonitorCommand::Usage { interval, .. } => interval,
            MonitorCommand::Health { interval } => interval,
            MonitorCommand::Quotas { interval } => interval,
        },
{
    match cmd {
        MonitorCommand::Usage { interval, .. } => *interval,
        MonitorCommand::Health { interval } => *interval,
        MonitorCommand::Quotas { interval } => *interval,
    }
}

/// The request any SaaS command sends, `fresh_state` standing for the state of a
/// sign-on that gives none.
pub open spec fn saas_request_spec(cmd: SaaSCommand, fresh_state: Seq<char>) -> Result<RequestModel, SaasError> {
    match cmd {
        SaaSCommand::Auth(c) => auth_request_spec(c),
        SaaSCommand::Tenant(c) => Ok(tenant_request_spec(c)),
        SaaSCommand::Billing(c) => Ok(billing_request_spec(c)),
        SaaSCommand::Quota(c) => Ok(quota_request_spec(c)),
        SaaSCommand::Sso(c) => Ok(sso_request_spec(c, fresh_state)),
        SaaSCommand::Analytics(c) => Ok(analytics_request_spec(c)),
        SaaSCommand::Monitor(c) => monitor_request_spec(c),
        SaaSCommand::Admin(c) => Ok(admin_request_spec(c)),
    }
}

/// Whether the command is a sign-on that gives no state, so that a fresh one is drawn.
pub open spec fn draws_fresh_state(cmd: SaaSCommand) -> bool {
    cmd matches SaaSCommand::Sso(SsoCommand::Auth { state: None, .. })
}

/// The request that a SaaS command sends, with `fresh_state` as the state of a sign-on
/// that gives none.
pub fn saas_request_with_state(cmd: SaaSCommand, fresh_state: String) -> (r: Result<ApiRequest, SaasError>)
    ensures
        result_model(r) == saas_request_spec(cmd, fresh_state@),
{
    match cmd {
        SaaSCommand::Auth(c) => auth_request(c),
        SaaSCommand::Tenant(c) => Ok(tenant_request(c)),
        SaaSCommand::Billing(c) => Ok(billing_request(c)),
        SaaSCommand::Quota(c) => Ok(quota_request(c)),
        SaaSCommand::Sso(c) => Ok(sso_request(c, fresh_state)),
        SaaSCommand::Analytics(c) => Ok(analytics_request(c)),
        SaaSCommand::Monitor(c) => monitor_request(&c),
        SaaSCommand::Admin(c) => Ok(admin_request(c)),
    }
}

/// The request that a SaaS command sends. A sign-on that gives no state sends a fresh
/// random UUID; every other command's request is fixed by the command alone.
pub fn saas_request(cmd: SaaSCommand) -> (r: Result<ApiRequest, SaasError>)
    ensures
        exists|fresh: Seq<char>|
            fresh.len() == 36 && result_model(r) == #[trigger] saas_request_spec(cmd, fresh),
{
    let fresh = if matches!(cmd, SaaSCommand::Sso(SsoCommand::Auth { state: None, .. })) {
        fresh_uuid()
    } else {
        owned("00000000-0000-0000-0000-000000000000")
    };
    proof {
        reveal_strlit("00000000-0000-0000-0000-000000000000");
    }
    let ghost f = fresh@;
    let r = saas_request_with_state(cmd, fresh);
    assert(f.len() == 36 && result_model(r) == saas_request_spec(cmd, f));
    r
}

/// Whether the command asks for a confirmation before it runs: deleting a tenant
/// without `--force`.
pub fn needs_confirmation(cmd: &SaaSCommand) -> (b: bool)
    ensures
        b == (*cmd matches SaaSCommand::Tenant(TenantCommand::Delete { force, .. }) && !force),
{
    match cmd {
        SaaSCommand::Tenant(TenantCommand::Delete { force, .. }) => !*force,
        _ => false,
    }
}

/// Whether an answer to a confirmation prompt says yes: once trimmed and lower-cased
/// it begins with `y`.
pub fn confirms(answer: &str) -> (b: bool)
    ensures
        b == ({
            let a = crate::text::lower_text(crate::text::trimmed(answer@));
            a.len() > 0 && a[0] == 'y'
        }),
{
    let t = crate::text::trim(answer);
    let lower = crate::text::to_lower(t.as_str());
    crate::text::starts_with_char(lower.as_str(), 'y')
}

/// The fields of a live usage reading, in the order in which the monitor shows them.
pub open spec fn usage_keys() -> Seq<Seq<char>> {
    seq!["api_calls_count"@, "storage_bytes"@, "compute_time_ms"@, "network_bytes"@]
}

/// The members named by `keys` that `v` has, in the order of `keys`.
pub open spec fn present_readings(v: JsonModel, keys: Seq<Seq<char>>) -> Seq<(Seq<char>, JsonModel)>
    decreases keys.len(),
{
    if keys.len() == 0 {
        Seq::empty()
    } else {
        present_readings(v, keys.drop_last()) + match lookup(v, keys.last()) {
            Some(x) => seq![(keys.last(), x)],
            None => Seq::empty(),
        }
    }
}

/// The readings of a live usage report that the monitor shows: each of the usage
/// fields that the report has, with its value, in the usual order.
pub fn usage_readings(usage: &JsonValue) -> (r: Vec<(String, JsonValue)>)
    ensures
        members_model(r@) == present_readings(usage.model(), usage_keys()),
{
    let keys: &[&str] = &["api_calls_count", "storage_bytes", "compute_time_ms", "network_bytes"];
    let ghost km = keys@.map_values(|k: &str| k@);
    assert(km =~= usage_keys());
    let mut r = no_members();
    let mut i: usize = 0;
    while i < keys.len()
        invariant
            i <= keys@.len(),
            km == keys@.map_values(|k: &str| k@),
            members_model(r@) == present_readings(usage.model(), km.take(i as int)),
        decreases keys@.len() - i,
    {
        assert(km.take((i + 1) as int).drop_last() =~= km.take(i as int));
        match usage.get(keys[i]) {
            Some(x) => {
                push_member(&mut r, keys[i], x.copy());
            },
            None => {},
        }
        i = i + 1;
        assert(members_model(r@) =~= present_readings(usage.model(), km.take(i as int)));
    }
    assert(km.take(keys@.len() as int) =~= km);
    r
}

/// The services whose `is_healthy` member is a boolean, with that boolean, in order.
pub open spec fn health_flags(ms: Seq<(Seq<char>, JsonModel)>) -> Seq<(Seq<char>, bool)>
    decreases ms.len(),
{
    if ms.len() == 0 {
        Seq::empty()
    } else {
        health_flags(ms.drop_last()) + match lookup(ms.last().1, "is_healthy"@) {
            Some(JsonModel::Bool(b)) => seq![(ms.last().0, b)],
            _ => Seq::empty(),
        }
    }
}

/// The health of each service in a status report, when its `services` member is an object.
pub open spec fn service_health_spec(status: JsonModel) -> Option<Seq<(Seq<char>, bool)>> {
    match lookup(status, "services"@) {
        Some(JsonModel::Object(ms)) => Some(health_flags(ms)),
        _ => None,
    }
}

/// The views of a list of named flags.
pub open spec fn flags_view(v: Seq<(String, bool)>) -> Seq<(Seq<char>, bool)> {
    Seq::new(v.len(), |i: int| (v[i].0@, v[i].1))
}

/// The health of each service in a status report.
pub fn service_health(status: &JsonValue) -> (r: Option<Vec<(String, bool)>>)
    ensures
        match r {
            Some(v) => service_health_spec(status.model()) == Some(flags_view(v@)),
            None => service_health_spec(status.model()) is None,
        },
{
    match status.get("services") {
        Some(JsonValue::Object(members)) => {
            let ghost ms = JsonValue::Object(*members).model()->Object_0;
            let mut out: Vec<(String, bool)> = Vec::new();
            let mut i: usize = 0;
            while i < members.len()
                invariant
                    i <= members@.len(),
                    ms == JsonValue::Object(*members).model()->Object_0,
                    ms.len() == members@.len(),
                    flags_view(out@) == health_flags(ms.take(i as int)),
                decreases members@.len() - i,
            {
                assert(ms[i as int] == (members@[i as int].0@, members@[i as int].1.model()));
                assert(ms.take((i + 1) as int).drop_last() =~= ms.take(i as int));
                let ghost before = out@;
                match members[i].1.get("is_healthy") {
                    Some(JsonValue::Bool(b)) => {
                        out.push((members[i].0.clone(), *b));
                        assert(flags_view(out@) =~= flags_view(before).push((members@[i as int].0@, *b)));
                    },
                    _ => {},
                }
                i = i + 1;
                assert(flags_view(out@) =~= health_flags(ms.take(i as int)));
            }
            assert(ms.take(members@.len() as int) =~= ms);
            Some(out)
        },
        _ => None,
    }
}

/// The members of a quota violation that the monitor shows, in order.
pub open spec fn violation_keys() -> Seq<Seq<char>> {
    seq!["tenant_id"@, "resource"@, "current"@, "limit"@]
}

/// The violations that have all four members, each as the list of their values.
pub open spec fn complete_violations(items: Seq<JsonModel>) -> Seq<Seq<JsonModel>>
    decreases items.len(),
{
    if items.len() == 0 {
        Seq::empty()
    } else {
        complete_violations(items.drop_last()) + violation_row(items.last())
    }
}

/// The models of a row of values.
pub open spec fn row_model(row: Vec<JsonValue>) -> Seq<JsonModel> {
    Seq::new(row@.len(), |j: int| row@[j].model())
}

/// The models of a list of rows of values.
pub open spec fn rows_model(rows: Seq<Vec<JsonValue>>) -> Seq<Seq<JsonModel>> {
    Seq::new(rows.len(), |i: int| row_model(rows[i]))
}

/// The row that one violation contributes: its four values, or nothing when one lacks.
pub open spec fn violation_row(v: JsonModel) -> Seq<Seq<JsonModel>> {
    if lookup(v, "tenant_id"@) is Some && lookup(v, "resource"@) is Some && lookup(v, "current"@) is Some
        && lookup(v, "limit"@) is Some {
        seq![
            seq![
                lookup(v, "tenant_id"@)->0,
                lookup(v, "resource"@)->0,
                lookup(v, "current"@)->0,
                lookup(v, "limit"@)->0,
            ],
        ]
    } else {
        Seq::empty()
    }
}

fn violation_values(v: &JsonValue) -> (r: Option<Vec<JsonValue>>)
    ensures
        match r {
            Some(row) => violation_row(v.model()) == seq![row_model(row)],
            None => violation_row(v.model()) == Seq::<Seq<JsonModel>>::empty(),
        },
{
    match (v.get("tenant_id"), v.get("resource"), v.get("current"), v.get("limit")) {
        (Some(a), Some(b), Some(c), Some(d)) => {
            let row = vec![a.copy(), b.copy(), c.copy(), d.copy()];
            assert(row_model(row) =~= seq![a.model(), b.model(), c.model(), d.model()]);
            Some(row)
        },
        _ => None,
    }
}

/// For a report that is an array: how many violations it lists, and the values of
/// those that have a tenant, a resource, a current use and a limit.
pub fn quota_violations(report: &JsonValue) -> (r: Option<(usize, Vec<Vec<JsonValue>>)>)
    ensures
        match report.model() {
            JsonModel::Array(items) => r matches Some(p) && p.0 == items.len() && rows_model(p.1@)
                == complete_violations(items),
            _ => r is None,
        },
{
    match report {
        JsonValue::Array(items) => {
            let ghost ims = report.model()->Array_0;
            let mut rows: Vec<Vec<JsonValue>> = Vec::new();
            let mut i: usize = 0;
            while i < items.len()
                invariant
                    i <= items@.len(),
                    ims.len() == items@.len(),
                    forall|k: int| 0 <= k < items@.len() ==> #[trigger] ims[k] == items@[k].model(),
                    rows_model(rows@) == complete_violations(ims.take(i as int)),
                decreases items@.len() - i,
            {
                assert(ims.take((i + 1) as int).drop_last() =~= ims.take(i as int));
                assert(ims.take((i + 1) as int).last() == ims[i as int]);
                let ghost before = rows@;
                match violation_values(&items[i]) {
                    Some(row) => {
                        rows.push(row);
                        assert(rows_model(rows@) =~= rows_model(before) + violation_row(ims[i as int]));
                    },
                    None => {
                        assert(rows_model(rows@) =~= rows_model(before) + violation_row(ims[i as int]));
                    },
                }
                i = i + 1;
            }
            assert(ims.take(items@.len() as int) =~= ims);
            Some((items.len(), rows))
        },
        _ => None,
    }
}

/// The bearer token of a login reply: its `token` member, when that is a string.
pub fn bearer_token(reply: &JsonValue) -> (r: Option<String>)
    ensures
        opt_view(r) == match lookup(reply.model(), "token"@) {
            Some(JsonModel::Str(t)) => Some(t),
            _ => None,
        },
{
    match reply.get("token") {
        Some(JsonValue::Str(t)) => Some(t.clone()),
        _ => None,
    }
}

} // verus!
