//! The payment service's replies: wallet connection, balances, payment creation and
//! status, confirmation, history and the pricing tiers. What a blockchain provider
//! answers comes in as plain values; these functions decide the reply.
use vstd::prelude::*;
use crate::api::{CreatePaymentRequest, PaymentError, get_service_wallet, parse_amount, parsed_amount, service_wallet_spec};
use crate::integration::clone_all;
use crate::json::{JsonModel, JsonValue, members_model, no_members, object, push_member, text};
use crate::saas::fresh_uuid;
use crate::text::{decimal, opt_view, owned, str_equal, strings_view, u64_to_decimal};

verus! {

/// What a blockchain provider declares about itself.
#[derive(Debug)]
pub struct ProviderInfo {
    pub supported_networks: Vec<String>,
    pub supported_tokens: Vec<String>,
}

/// A request to connect a wallet.
#[derive(Debug)]
pub struct ConnectWalletRequest {
    pub wallet_address: String,
    pub network: String,
    pub signature: Option<String>,
    pub message: Option<String>,
}

/// The reply to a wallet connection.
#[derive(Debug)]
pub struct ConnectWalletResponse {
    pub success: bool,
    pub connection_id: String,
    pub supported_tokens: Vec<String>,
    pub message: String,
}

/// Whether `s` is one of the strings of `v`.
pub fn has_string(v: &Vec<String>, s: &str) -> (b: bool)
    ensures
        b == strings_view(v@).contains(s@),
{
    let mut i: usize = 0;
    while i < v.len()
        invariant
            i <= v@.len(),
            forall|k: int| 0 <= k < i ==> v@[k]@ != s@,
        decreases v@.len() - i,
    {
        if str_equal(v[i].as_str(), s) {
            assert(strings_view(v@)[i as int] == s@);
            return true;
        }
        i = i + 1;
    }
    assert(!strings_view(v@).contains(s@)) by {
        if strings_view(v@).contains(s@) {
            let k = choose|k: int| 0 <= k < strings_view(v@).len() && strings_view(v@)[k] == s@;
            assert(v@[k]@ == s@);
        }
    }
    false
}

/// Connects a wallet through `provider`, the provider registered for the request's
/// network (none: the request is refused). A provider that does not serve the
/// network gives an unsuccessful reply; otherwise the connection gets a fresh random
/// identifier and the provider's tokens.
pub fn connect_wallet(request: &ConnectWalletRequest, provider: Option<&ProviderInfo>) -> (r: Result<
    ConnectWalletResponse,
    PaymentError,
>)
    ensures
        provider is None ==> r == Err::<ConnectWalletResponse, PaymentError>(PaymentError::BadRequest),
        provider matches Some(p) ==> if strings_view(p.supported_networks@).contains(request.network@) {
            r matches Ok(resp) && resp.success && resp.connection_id@.len() == 36 && strings_view(
                resp.supported_tokens@,
            ) == strings_view(p.supported_tokens@) && resp.message@ == "Wallet connected successfully"@
        } else {
            r matches Ok(resp) && !resp.success && resp.connection_id@ == Seq::<char>::empty()
                && resp.supported_tokens@.len() == 0 && resp.message@
                == "Invalid wallet address or unsupported network"@
        },
{
    let p = match provider {
        Some(p) => p,
        None => return Err(PaymentError::BadRequest),
    };
    if !has_string(&p.supported_networks, request.network.as_str()) {
        return Ok(ConnectWalletResponse {
            success: false,
            connection_id: String::new(),
            supported_tokens: Vec::new(),
            message: owned("Invalid wallet address or unsupported network"),
        });
    }
    Ok(ConnectWalletResponse {
        success: true,
        connection_id: fresh_uuid(),
        supported_tokens: clone_all(&p.supported_tokens),
        message: owned("Wallet connected successfully"),
    })
}

/// A balance query.
#[derive(Debug)]
pub struct BalanceQuery {
    pub wallet_address: String,
    pub network: String,
    pub token: Option<String>,
}

/// A balance as a provider reads it; the amount is in the token's smallest unit.
#[derive(Debug)]
pub struct BalanceReading {
    pub token: String,
    pub amount: u64,
    pub formatted_amount: String,
    pub decimals: u8,
}

/// One token's balance in a reply.
#[derive(Debug)]
pub struct TokenBalance {
    pub token: String,
    pub amount: String,
    pub formatted_amount: String,
    pub decimals: u8,
}

/// The reply to a balance query.
#[derive(Debug)]
pub struct BalanceResponse {
    pub wallet_address: String,
    pub balances: Vec<TokenBalance>,
}

/// The tokens whose balances a query asks the provider for: the one it names, else
/// every token the provider supports. Without a provider the query is refused.
pub fn balance_tokens(query: &BalanceQuery, provider: Option<&ProviderInfo>) -> (r: Result<
    Vec<String>,
    PaymentError,
>)
    ensures
        provider is None ==> r == Err::<Vec<String>, PaymentError>(PaymentError::BadRequest),
        provider matches Some(p) ==> (r matches Ok(ts) && strings_view(ts@) == match query.token {
            Some(t) => seq![t@],
            None => strings_view(p.supported_tokens@),
        }),
{
    let p = match provider {
        Some(p) => p,
        None => return Err(PaymentError::BadRequest),
    };
    match &query.token {
        Some(t) => {
            let mut v: Vec<String> = Vec::new();
            v.push(t.clone());
            assert(strings_view(v@) =~= seq![t@]);
            Ok(v)
        },
        None => Ok(clone_all(&p.supported_tokens)),
    }
}

/// A balance in a reply: the reading with its amount written in decimal.
pub open spec fn balance_matches(b: TokenBalance, r: BalanceReading) -> bool {
    &&& b.token@ == r.token@
    &&& b.amount@ == decimal(r.amount as nat)
    &&& b.formatted_amount@ == r.formatted_amount@
    &&& b.decimals == r.decimals
}

/// The readings that succeeded, in order.
pub open spec fn successful(readings: Seq<Option<BalanceReading>>) -> Seq<BalanceReading>
    decreases readings.len(),
{
    if readings.len() == 0 {
        Seq::empty()
    } else {
        successful(readings.drop_last()) + match readings.last() {
            Some(r) => seq![r],
            None => Seq::empty(),
        }
    }
}

/// The reply to a balance query, from the provider's answer for each token asked
/// (`None` where reading failed). When the query named one token, a failed reading
/// fails the reply (HTTP 500); otherwise failed readings are left out.
pub fn balance_response(query: &BalanceQuery, readings: Vec<Option<BalanceReading>>) -> (r: Result<
    BalanceResponse,
    PaymentError,
>)
    ensures
        (query.token is Some && (exists|i: int| 0 <= i < readings@.len() && readings@[i] is None)) ==> r
            == Err::<BalanceResponse, PaymentError>(PaymentError::Internal),
        !(query.token is Some && (exists|i: int| 0 <= i < readings@.len() && readings@[i] is None)) ==> (
        r matches Ok(resp) && resp.wallet_address@ == query.wallet_address@ && resp.balances@.len()
            == successful(readings@).len() && forall|i: int|
            0 <= i < resp.balances@.len() ==> balance_matches(
                #[trigger] resp.balances@[i],
                successful(readings@)[i],
            )),
{
    let single = query.token.is_some();
    let mut balances: Vec<TokenBalance> = Vec::new();
    let mut i: usize = 0;
    while i < readings.len()
        invariant
            i <= readings@.len(),
            single == query.token is Some,
            single ==> forall|k: int| 0 <= k < i ==> readings@[k] is Some,
            balances@.len() == successful(readings@.take(i as int)).len(),
            forall|k: int|
                0 <= k < balances@.len() ==> balance_matches(
                    #[trigger] balances@[k],
                    successful(readings@.take(i as int))[k],
                ),
        decreases readings@.len() - i,
    {
        assert(readings@.take(i + 1).drop_last() =~= readings@.take(i as int));
        match &readings[i] {
            Some(b) => {
                balances.push(
                    TokenBalance {
                        token: b.token.clone(),
                        amount: u64_to_decimal(b.amount),
                        formatted_amount: b.formatted_amount.clone(),
                        decimals: b.decimals,
                    },
                );
            },
            None => {
                if single {
                    return Err(PaymentError::Internal);
                }
            },
        }
        i = i + 1;
    }
    assert(readings@.take(i as int) =~= readings@);
    Ok(BalanceResponse { wallet_address: query.wallet_address.clone(), balances })
}

/// The reply to a wallet disconnection.
pub open spec fn disconnect_reply() -> JsonModel {
    JsonModel::Object(
        seq![
            ("message"@, JsonModel::Str("Wallet disconnected successfully"@)),
            ("success"@, JsonModel::Bool(true)),
        ],
    )
}

/// Disconnects a wallet: the reply always reports success.
pub fn disconnect_wallet(request: &JsonValue) -> (r: JsonValue)
    ensures
        r.model() == disconnect_reply(),
{
    let mut m = no_members();
    push_member(&mut m, "message", text("Wallet disconnected successfully"));
    push_member(&mut m, "success", JsonValue::Bool(true));
    assert(members_model(m@) =~= disconnect_reply()->Object_0);
    object(m)
}

/// The payment a provider is asked to create: to the service's wallet, the amount
/// in the token's smallest unit, with no metadata.
#[derive(Debug)]
pub struct PaymentOrder {
    pub from_wallet: String,
    pub to_wallet: String,
    pub amount: u64,
    pub token: String,
    pub service_id: String,
    pub description: Option<String>,
}

/// The order for a payment request: refused without a provider, for an amount that
/// is not a number, or for a network the service takes no payments on.
pub fn payment_order(request: &CreatePaymentRequest, provider: Option<&ProviderInfo>) -> (r: Result<
    PaymentOrder,
    PaymentError,
>)
    ensures
        (provider is None || parsed_amount(request.amount@) is None || service_wallet_spec(
            request.network@,
        ) is Err) ==> r == Err::<PaymentOrder, PaymentError>(PaymentError::BadRequest),
        (provider is Some && parsed_amount(request.amount@) is Some && service_wallet_spec(
            request.network@,
        ) is Ok) ==> (r matches Ok(o) && o.from_wallet@ == request.from_wallet@ && Ok::<
            Seq<char>,
            PaymentError,
        >(o.to_wallet@) == service_wallet_spec(request.network@) && Some(o.amount as nat)
            == parsed_amount(request.amount@) && o.token@ == request.token@ && o.service_id@
            == request.service_id@ && opt_view(o.description) == opt_view(request.description)),
{
    if provider.is_none() {
        return Err(PaymentError::BadRequest);
    }
    let amount = match parse_amount(request.amount.as_str()) {
        Some(a) => a,
        None => return Err(PaymentError::BadRequest),
    };
    let to_wallet = match get_service_wallet(request.network.as_str()) {
        Ok(w) => w,
        Err(e) => return Err(e),
    };
    let description = match &request.description {
        Some(d) => Some(d.clone()),
        None => None,
    };
    Ok(PaymentOrder {
        from_wallet: request.from_wallet.clone(),
        to_wallet,
        amount,
        token: request.token.clone(),
        service_id: request.service_id.clone(),
        description,
    })
}

/// A payment transaction as a provider created it; the expiry is RFC 3339 text.
#[derive(Debug)]
pub struct CreatedTransaction {
    pub transaction_id: String,
    pub fee: u64,
    pub expires_at: String,
}

/// What the client signs to make the payment.
#[derive(Debug)]
pub struct PaymentTransactionData {
    pub network: String,
    pub transaction_data: String,
    pub hash_to_sign: String,
    pub estimated_fee: String,
}

/// The reply to a payment creation.
#[derive(Debug)]
pub struct CreatePaymentResponse {
    pub transaction_id: String,
    pub payment_data: PaymentTransactionData,
    pub expires_at: String,
}

/// The reply once the provider has answered an order on `network`: its failure
/// fails the reply (HTTP 500); a transaction is passed on with its fee in decimal.
pub fn payment_created(network: &str, created: Option<CreatedTransaction>) -> (r: Result<
    CreatePaymentResponse,
    PaymentError,
>)
    ensures
        created is None ==> r == Err::<CreatePaymentResponse, PaymentError>(PaymentError::Internal),
        created matches Some(t) ==> (r matches Ok(resp) && resp.transaction_id@ == t.transaction_id@
            && resp.payment_data.network@ == network@ && resp.payment_data.transaction_data@
            == "transaction_data_placeholder"@ && resp.payment_data.hash_to_sign@ == "hash_placeholder"@
            && resp.payment_data.estimated_fee@ == decimal(t.fee as nat) && resp.expires_at@
            == t.expires_at@),
{
    let t = match created {
        Some(t) => t,
        None => return Err(PaymentError::Internal),
    };
    Ok(CreatePaymentResponse {
        transaction_id: t.transaction_id,
        payment_data: PaymentTransactionData {
            network: owned(network),
            transaction_data: owned("transaction_data_placeholder"),
            hash_to_sign: owned("hash_placeholder"),
            estimated_fee: u64_to_decimal(t.fee),
        },
        expires_at: t.expires_at,
    })
}

/// The status of a payment as a provider reports it.
#[derive(Debug)]
pub struct StatusReading {
    pub status: String,
    pub confirmations: u32,
    pub required_confirmations: u32,
    pub estimated_completion: Option<String>,
    pub error_message: Option<String>,
}

/// The reply to a status query.
#[derive(Debug)]
pub struct TransactionStatusResponse {
    pub transaction_id: String,
    pub status: String,
    pub confirmations: u32,
    pub required_confirmations: u32,
    pub network_hash: Option<String>,
    pub estimated_completion: Option<String>,
    pub error_message: Option<String>,
}

/// The reply to a status query once the provider has answered: its failure fails
/// the reply (HTTP 500); otherwise the reading is passed on, with no network hash.
pub fn transaction_status(transaction_id: String, reading: Option<StatusReading>) -> (r: Result<
    TransactionStatusResponse,
    PaymentError,
>)
    ensures
        reading is None ==> r == Err::<TransactionStatusResponse, PaymentError>(PaymentError::Internal),
        reading matches Some(s) ==> (r matches Ok(resp) && resp.transaction_id@ == transaction_id@
            && resp.status@ == s.status@ && resp.confirmations == s.confirmations
            && resp.required_confirmations == s.required_confirmations && resp.network_hash is None
            && opt_view(resp.estimated_completion) == opt_view(s.estimated_completion) && opt_view(
            resp.error_message,
        ) == opt_view(s.error_message)),
{
    match reading {
        Some(s) => Ok(
            TransactionStatusResponse {
                transaction_id,
                status: s.status,
                confirmations: s.confirmations,
                required_confirmations: s.required_confirmations,
                network_hash: None,
                estimated_completion: s.estimated_completion,
                error_message: s.error_message,
            },
        ),
        None => Err(PaymentError::Internal),
    }
}

/// A signed transaction to confirm.
#[derive(Debug)]
pub struct ConfirmPaymentRequest {
    pub signed_transaction: String,
}

/// The reply to a confirmation.
#[derive(Debug)]
pub struct ConfirmPaymentResponse {
    pub success: bool,
    pub network_hash: String,
    pub message: String,
}

/// Confirms a payment: the reply always reports success and broadcast.
pub fn confirm_payment_transaction(transaction_id: &str, request: &ConfirmPaymentRequest) -> (r:
    ConfirmPaymentResponse)
    ensures
        r.success,
        r.network_hash@ == "network_tx_hash_placeholder"@,
        r.message@ == "Payment confirmed and broadcast to network"@,
{
    ConfirmPaymentResponse {
        success: true,
        network_hash: owned("network_tx_hash_placeholder"),
        message: owned("Payment confirmed and broadcast to network"),
    }
}

/// A payment history query.
#[derive(Debug)]
pub struct HistoryQuery {
    pub wallet_address: String,
    pub network: Option<String>,
    pub limit: Option<u32>,
    pub offset: Option<u32>,
}

/// One payment of a history.
#[derive(Debug)]
pub struct PaymentHistoryItem {
    pub transaction_id: String,
    pub network_hash: Option<String>,
    pub amount: String,
    pub token: String,
    pub service_id: String,
    pub status: String,
    pub created_at: String,
    pub confirmed_at: Option<String>,
}

/// A payment history.
#[derive(Debug)]
pub struct PaymentHistoryResponse {
    pub payments: Vec<PaymentHistoryItem>,
    pub total_count: u32,
}

/// The payment history: the one sample payment of 50 USDC for the professional
/// plan, created at `created_at` and confirmed at `confirmed_at`, whatever the query.
pub fn get_payment_history(query: &HistoryQuery, created_at: String, confirmed_at: String) -> (r:
    PaymentHistoryResponse)
    ensures
        r.total_count == 1,
        r.payments@.len() == 1,
        r.payments@[0].transaction_id@ == "tx_001"@,
        opt_view(r.payments@[0].network_hash) == Some("0xabc123..."@),
        r.payments@[0].amount@ == "50000000"@,
        r.payments@[0].token@ == "USDC"@,
        r.payments@[0].service_id@ == "professional"@,
        r.payments@[0].status@ == "Confirmed"@,
        r.payments@[0].created_at@ == created_at@,
        opt_view(r.payments@[0].confirmed_at) == Some(confirmed_at@),
{
    let item = PaymentHistoryItem {
        transaction_id: owned("tx_001"),
        network_hash: Some(owned("0xabc123...")),
        amount: owned("50000000"),
        token: owned("USDC"),
        service_id: owned("professional"),
        status: owned("Confirmed"),
        created_at,
        confirmed_at: Some(confirmed_at),
    };
    let mut payments: Vec<PaymentHistoryItem> = Vec::new();
    payments.push(item);
    PaymentHistoryResponse { payments, total_count: 1 }
}

/// Levels of support.
#[derive(Clone, Copy, Debug, PartialEq, Eq, Structural)]
pub enum SupportLevel {
    Basic,
    Standard,
    Premium,
    Enterprise,
}

/// Limits of a service tier.
#[derive(Clone, Copy, Debug, PartialEq, Eq, Structural)]
pub struct ServiceLimits {
    pub max_requests_per_second: u32,
    pub max_concurrent_connections: u32,
    pub max_storage_gb: u32,
    pub data_retention_days: u32,
}

/// Features of a service tier.
#[derive(Clone, Copy, Debug, PartialEq, Eq, Structural)]
pub struct ServiceFeatures {
    pub api_calls_per_day: u32,
    pub storage_gb: u32,
    pub support_level: SupportLevel,
    pub advanced_analytics: bool,
    pub priority_support: bool,
    pub custom_integrations: bool,
}

/// A service tier and its price in USDT and USDC.
#[derive(Debug)]
pub struct ServiceTier {
    pub id: String,
    pub name: String,
    pub description: String,
    pub price_usdt: String,
    pub price_usdc: String,
    pub features: ServiceFeatures,
    pub limits: ServiceLimits,
}

/// The tiers on offer: the starter tier alone, at 10 USDT or USDC, with basic
/// support, 10,000 calls a day and 1 GB, limited to 10 requests a second, 5
/// connections, 1 GB and 30 days of retention. It carries no description.
pub fn get_pricing_tiers() -> (tiers: Vec<ServiceTier>)
    ensures
        tiers@.len() == 1,
        tiers@[0].id@ == "starter"@,
        tiers@[0].name@ == "Starter"@,
        tiers@[0].description@ == Seq::<char>::empty(),
        tiers@[0].price_usdt@ == "10"@,
        tiers@[0].price_usdc@ == "10"@,
        tiers@[0].features == (ServiceFeatures {
            api_calls_per_day: 10_000,
            storage_gb: 1,
            support_level: SupportLevel::Basic,
            advanced_analytics: false,
            priority_support: false,
            custom_integrations: false,
        }),
        tiers@[0].limits == (ServiceLimits {
            max_requests_per_second: 10,
            max_concurrent_connections: 5,
            max_storage_gb: 1,
            data_retention_days: 30,
        }),
{
    let starter = ServiceTier {
        id: owned("starter"),
        name: owned("Starter"),
        description: String::new(),
        price_usdt: owned("10"),
        price_usdc: owned("10"),
        features: ServiceFeatures {
            api_calls_per_day: 10_000,
            storage_gb: 1,
            support_level: SupportLevel::Basic,
            advanced_analytics: false,
            priority_support: false,
            custom_integrations: false,
        },
        limits: ServiceLimits {
            max_requests_per_second: 10,
            max_concurrent_connections: 5,
            max_storage_gb: 1,
            data_retention_days: 30,
        },
    };
    let mut tiers: Vec<ServiceTier> = Vec::new();
    tiers.push(starter);
    tiers
}

/// A service switched on by a purchase, with its features by name.
#[derive(Debug)]
pub struct ServiceActivation {
    pub service_id: String,
    pub activated_at: String,
    pub expires_at: String,
    pub features: Vec<(String, JsonValue)>,
}

/// The reply to a service purchase.
#[derive(Debug)]
pub struct ServicePurchaseResponse {
    pub payment_required: bool,
    pub payment_transaction: Option<CreatePaymentResponse>,
    pub service_activation: Option<ServiceActivation>,
}

/// The reply to a purchase once its payment was created: a payment is required and
/// carried; a failed creation fails the purchase the same way.
pub fn purchase_reply(created: Result<CreatePaymentResponse, PaymentError>) -> (r: Result<
    ServicePurchaseResponse,
    PaymentError,
>)
    ensures
        match created {
            Ok(p) => r matches Ok(resp) && resp.payment_required && resp.payment_transaction == Some(p)
                && resp.service_activation is None,
            Err(e) => r == Err::<ServicePurchaseResponse, PaymentError>(e),
        },
{
    match created {
        Ok(p) => Ok(
            ServicePurchaseResponse {
                payment_required: true,
                payment_transaction: Some(p),
                service_activation: None,
            },
        ),
        Err(e) => Err(e),
    }
}

} // verus!
