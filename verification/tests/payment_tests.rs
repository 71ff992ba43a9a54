use aerolithdb::api::{PaymentError, get_service_wallet, subscription_description, subscription_price};

#[test]
fn test_get_service_wallet() {
    assert!(get_service_wallet("tron").is_ok());
    assert!(get_service_wallet("solana").is_ok());
    assert!(get_service_wallet("invalid").is_err());
}

#[test]
fn service_wallet_addresses() {
    assert_eq!(get_service_wallet("tron").unwrap(), "TR7NHqjeKQxGTCi8q8ZY4pL8otSzgjLj6t");
    assert_eq!(get_service_wallet("solana").unwrap(), "EPjFWdd5AufqSSqeM2qN1xzybapC8G4wEGGkZwyTDt1v");
    assert_eq!(get_service_wallet("eth"), Err(PaymentError::BadRequest));
}

#[test]
fn subscription_prices() {
    assert_eq!(subscription_price("starter", "usdt", 3), Ok(30_000_000));
    assert_eq!(subscription_price("professional", "usdc", 1), Ok(50_000_000));
    assert_eq!(subscription_price("enterprise", "usdt", 12), Ok(2_400_000_000));
    assert_eq!(subscription_price("enterprise", "btc", 1), Err(PaymentError::BadRequest));
    assert_eq!(subscription_price("gold", "usdt", 1), Err(PaymentError::BadRequest));
    assert_eq!(subscription_price("enterprise", "usdt", u32::MAX), Ok(200_000_000 * u32::MAX as u64));
    assert_eq!(subscription_description(6), "Service subscription for 6 months");
}

