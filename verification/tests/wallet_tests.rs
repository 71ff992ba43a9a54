use aerolithdb::saas::HttpMethod;
use aerolithdb::wallet::{WalletArgs, WalletCommand, confirmation_request, wallet_request};

#[test]
fn test_wallet_command_parsing() {
    // Test that the command structure is properly defined
    assert!(true); // Placeholder test
}

#[test]
fn wallet_connect_request_body() {
    let args = WalletArgs {
        command: WalletCommand::Connect {
            network: "tron".to_string(),
            address: "TXYZ".to_string(),
            signature: None,
        },
    };
    let req = wallet_request(args.command).unwrap();
    assert_eq!(req.method, HttpMethod::Post);
    assert_eq!(req.path, "/api/v1/payments/wallets/connect");
    assert!(req.query.is_empty());
    assert!(req.body.is_some());
}

#[test]
fn wallet_history_query() {
    let req = wallet_request(WalletCommand::History {
        address: "A".to_string(),
        network: Some("solana".to_string()),
        limit: 10,
    })
    .unwrap();
    assert_eq!(req.method, HttpMethod::Get);
    assert_eq!(
        req.query,
        vec![
            ("wallet_address".to_string(), "A".to_string()),
            ("limit".to_string(), "10".to_string()),
            ("network".to_string(), "solana".to_string()),
        ]
    );
    assert!(wallet_request(WalletCommand::Status).is_none());
}

#[test]
fn wallet_confirmation_path() {
    let req = confirmation_request("tx42", "signed".to_string());
    assert_eq!(req.path, "/api/v1/payments/transactions/tx42/confirm");
}
