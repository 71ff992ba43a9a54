use aerolithdb::api::{CreatePaymentRequest, PaymentError};
use aerolithdb::json::JsonValue;
use aerolithdb::payments::{
    BalanceQuery, BalanceReading, ConfirmPaymentRequest, ConnectWalletRequest, CreatedTransaction, HistoryQuery,
    ProviderInfo, StatusReading, SupportLevel, balance_response, balance_tokens, confirm_payment_transaction,
    connect_wallet, disconnect_wallet, get_payment_history, get_pricing_tiers, has_string, payment_created,
    payment_order, purchase_reply, transaction_status,
};

fn provider() -> ProviderInfo {
    ProviderInfo {
        supported_networks: vec!["tron".to_string()],
        supported_tokens: vec!["USDT".to_string(), "USDC".to_string()],
    }
}

fn connect(network: &str) -> ConnectWalletRequest {
    ConnectWalletRequest { wallet_address: "w".to_string(), network: network.to_string(), signature: None, message: None }
}

#[test]
fn wallet_connection() {
    let p = provider();
    assert!(matches!(connect_wallet(&connect("tron"), None), Err(PaymentError::BadRequest)));
    let ok = connect_wallet(&connect("tron"), Some(&p)).unwrap();
    assert!(ok.success);
    assert_eq!(ok.connection_id.len(), 36);
    assert_eq!(ok.supported_tokens, vec!["USDT".to_string(), "USDC".to_string()]);
    assert_eq!(ok.message, "Wallet connected successfully");
    let no = connect_wallet(&connect("solana"), Some(&p)).unwrap();
    assert!(!no.success);
    assert_eq!(no.connection_id, "");
    assert!(no.supported_tokens.is_empty());
    assert_eq!(no.message, "Invalid wallet address or unsupported network");
    assert!(has_string(&p.supported_tokens, "USDC"));
    assert!(!has_string(&p.supported_tokens, "BTC"));
}

fn reading(token: &str, amount: u64) -> BalanceReading {
    BalanceReading { token: token.to_string(), amount, formatted_amount: "1.5".to_string(), decimals: 6 }
}

#[test]
fn wallet_balances() {
    let p = provider();
    let all = BalanceQuery { wallet_address: "w".to_string(), network: "tron".to_string(), token: None };
    assert!(matches!(balance_tokens(&all, None), Err(PaymentError::BadRequest)));
    assert_eq!(balance_tokens(&all, Some(&p)).unwrap(), vec!["USDT".to_string(), "USDC".to_string()]);
    let r = balance_response(&all, vec![None, Some(reading("USDC", 1500000))]).unwrap();
    assert_eq!(r.wallet_address, "w");
    assert_eq!(r.balances.len(), 1);
    assert_eq!(r.balances[0].token, "USDC");
    assert_eq!(r.balances[0].amount, "1500000");
    let one = BalanceQuery { wallet_address: "w".to_string(), network: "tron".to_string(), token: Some("USDT".to_string()) };
    assert_eq!(balance_tokens(&one, Some(&p)).unwrap(), vec!["USDT".to_string()]);
    assert!(matches!(balance_response(&one, vec![None]), Err(PaymentError::Internal)));
}

fn order_request(network: &str, amount: &str) -> CreatePaymentRequest {
    CreatePaymentRequest {
        from_wallet: "me".to_string(),
        network: network.to_string(),
        amount: amount.to_string(),
        token: "usdt".to_string(),
        service_id: "starter".to_string(),
        description: Some("d".to_string()),
    }
}

#[test]
fn payment_orders_and_replies() {
    let p = provider();
    let o = payment_order(&order_request("tron", "10000000"), Some(&p)).unwrap();
    assert_eq!(o.to_wallet, "TR7NHqjeKQxGTCi8q8ZY4pL8otSzgjLj6t");
    assert_eq!(o.amount, 10_000_000);
    assert_eq!(o.description, Some("d".to_string()));
    assert!(matches!(payment_order(&order_request("tron", "ten"), Some(&p)), Err(PaymentError::BadRequest)));
    assert!(matches!(payment_order(&order_request("eth", "1"), Some(&p)), Err(PaymentError::BadRequest)));
    assert!(matches!(payment_order(&order_request("tron", "1"), None), Err(PaymentError::BadRequest)));
    let created = payment_created(
        "tron",
        Some(CreatedTransaction { transaction_id: "t1".to_string(), fee: 250, expires_at: "x".to_string() }),
    )
    .unwrap();
    assert_eq!(created.transaction_id, "t1");
    assert_eq!(created.payment_data.estimated_fee, "250");
    assert_eq!(created.payment_data.network, "tron");
    assert!(matches!(payment_created("tron", None), Err(PaymentError::Internal)));
    let purchase = purchase_reply(Ok(created)).unwrap();
    assert!(purchase.payment_required);
    assert!(purchase.service_activation.is_none());
    assert_eq!(purchase.payment_transaction.unwrap().transaction_id, "t1");
    assert!(matches!(purchase_reply(Err(PaymentError::BadRequest)), Err(PaymentError::BadRequest)));
}

#[test]
fn status_confirmation_history_and_tiers() {
    let s = transaction_status(
        "t1".to_string(),
        Some(StatusReading {
            status: "Pending".to_string(),
            confirmations: 1,
            required_confirmations: 3,
            estimated_completion: None,
            error_message: None,
        }),
    )
    .unwrap();
    assert_eq!(s.status, "Pending");
    assert_eq!(s.required_confirmations, 3);
    assert!(s.network_hash.is_none());
    assert!(matches!(transaction_status("t".to_string(), None), Err(PaymentError::Internal)));
    let c = confirm_payment_transaction("t1", &ConfirmPaymentRequest { signed_transaction: "s".to_string() });
    assert!(c.success);
    assert_eq!(c.message, "Payment confirmed and broadcast to network");
    let h = get_payment_history(
        &HistoryQuery { wallet_address: "w".to_string(), network: None, limit: None, offset: None },
        "c".to_string(),
        "d".to_string(),
    );
    assert_eq!(h.total_count, 1);
    assert_eq!(h.payments[0].amount, "50000000");
    assert_eq!(h.payments[0].created_at, "c");
    assert_eq!(h.payments[0].confirmed_at, Some("d".to_string()));
    let tiers = get_pricing_tiers();
    assert_eq!(tiers.len(), 1);
    assert_eq!(tiers[0].id, "starter");
    assert_eq!(tiers[0].features.support_level, SupportLevel::Basic);
    assert_eq!(tiers[0].limits.data_retention_days, 30);
    let d = disconnect_wallet(&JsonValue::Null);
    assert!(matches!(d.get("success"), Some(JsonValue::Bool(true))));
    assert!(matches!(d.get("message"), Some(JsonValue::Str(m)) if m == "Wallet disconnected successfully"));
}
