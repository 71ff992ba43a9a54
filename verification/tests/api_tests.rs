use aerolithdb::api::{DocumentAction, RealtimeAPI, WebSocketEvent};
use aerolithdb::json::text;
use aerolithdb::api::{
    APIConfig, ConnectionManager, QueryDocumentsRequest, ServicePurchaseRequest, Subscription, deleted_reply, document_reply,
    enabled_apis, listen_address, parse_amount, purchase_payment_request, query_paging, query_reply,
    stored_reply,
};
use aerolithdb::cache::{CacheConfig, CacheError, CacheLayer, IntelligentCacheSystem, TTLStrategy};
use aerolithdb::mocks::{MockAerolithsClient, MockClient};

fn sub(id: &str, conn: &str) -> Subscription {
    Subscription { id: id.to_string(), collection: None, query: None, connection_id: conn.to_string() }
}

#[test]
fn api_defaults() {
    let c = APIConfig::default();
    assert_eq!(c.rest_api.port, 8080);
    assert_eq!(c.grpc_api.port, 8082);
    assert_eq!(c.websocket_api.max_connections, 1000);
    assert_eq!(enabled_apis(&c), (true, true, true));
    assert_eq!(listen_address(&c.grpc_api.bind_address, c.grpc_api.port), "127.0.0.1:8082");
}

#[test]
fn grpc_replies() {
    let r = document_reply(vec![1, 2]);
    assert_eq!(r.version, 1);
    assert_eq!(r.metadata, vec![("content_type".to_string(), "application/json".to_string())]);
    let q = query_reply(vec![vec![1], vec![2]], 7);
    assert_eq!(q.total, 7);
    assert_eq!(q.documents[1].id, "doc_1");
    let req = QueryDocumentsRequest { collection: "c".to_string(), filter: vec![], limit: Some(4), offset: None };
    assert_eq!(query_paging(&req), (false, Some(4), None));
    let s = stored_reply();
    assert!(s.success);
    assert_eq!(s.version, 1);
    assert!(deleted_reply().success);
}

#[test]
fn registry_removal_drops_subscriptions() {
    let mut m = ConnectionManager::new();
    m.add_connection("a".to_string(), 10).unwrap();
    m.add_connection("b".to_string(), 5).unwrap();
    m.add_subscription(sub("s1", "a")).unwrap();
    m.add_subscription(sub("s2", "b")).unwrap();
    m.add_subscription(sub("s3", "a")).unwrap();
    let st = m.get_stats(99);
    assert_eq!((st.active_connections, st.total_subscriptions, st.oldest_connection_ms), (2, 3, 5));
    m.remove_connection("a").unwrap();
    let st = m.get_stats(99);
    assert_eq!((st.active_connections, st.total_subscriptions, st.oldest_connection_ms), (1, 1, 5));
    m.add_connection("b".to_string(), 50).unwrap();
    assert_eq!(m.get_stats(99).active_connections, 1);
    assert_eq!(m.get_stats(99).oldest_connection_ms, 50);
    m.remove_connection("b").unwrap();
    assert_eq!(m.get_stats(99).oldest_connection_ms, 99);
}

#[test]
fn amounts_parse_like_u64() {
    assert_eq!(parse_amount("123"), Some(123));
    assert_eq!(parse_amount("+7"), Some(7));
    assert_eq!(parse_amount("18446744073709551615"), Some(u64::MAX));
    assert_eq!(parse_amount("18446744073709551616"), None);
    assert_eq!(parse_amount(""), None);
    assert_eq!(parse_amount("+"), None);
    assert_eq!(parse_amount("1a"), None);
    assert_eq!(parse_amount("-1"), None);
    for t in ["0", "00042", "99999999999", "4x", " 4"] {
        assert_eq!(parse_amount(t), t.parse::<u64>().ok());
    }
}

#[test]
fn purchase_request() {
    let r = ServicePurchaseRequest { wallet_address: "w".to_string(), network: "tron".to_string(), service_id: "professional".to_string(), token: "usdc".to_string(), duration_months: 2 };
    let p = purchase_payment_request(&r).unwrap();
    assert_eq!(p.amount, "100000000");
    assert_eq!(p.description.as_deref(), Some("Service subscription for 2 months"));
}

#[test]
fn cache_settings() {
    let c = CacheConfig::default();
    assert_eq!(c.hierarchy, vec![CacheLayer::Memory, CacheLayer::NVMe]);
    assert!(matches!(c.ttl_strategy, TTLStrategy::Adaptive));
    assert!(matches!(TTLStrategy::default(), TTLStrategy::LRU));
    let s = IntelligentCacheSystem::new(&c).unwrap();
    assert_eq!(s.layer_count(), 2);
    assert_eq!(s.max_memory_megabytes(), 1024);
    let bad = CacheConfig { hierarchy: vec![CacheLayer::Network, CacheLayer::Memory], ..CacheConfig::default() };
    assert!(matches!(IntelligentCacheSystem::new(&bad), Err(CacheError::InvalidHierarchy)));
    let all = CacheConfig {
        hierarchy: vec![CacheLayer::Memory, CacheLayer::NVMe, CacheLayer::Network],
        ..CacheConfig::default()
    };
    assert_eq!(IntelligentCacheSystem::new(&all).unwrap().layer_count(), 3);
    let late = CacheConfig { hierarchy: vec![CacheLayer::Memory, CacheLayer::Network, CacheLayer::NVMe], ..CacheConfig::default() };
    assert!(IntelligentCacheSystem::new(&late).is_err());
}

#[test]
fn mocks_always_succeed() {
    let m = MockAerolithsClient::new("http://localhost:8080".to_string(), None).unwrap();
    assert_eq!(m.url, "http://localhost:8080");
    assert!(m.health_check());
    assert!(MockClient::new("u".to_string(), None).unwrap().health_check());
}

#[test]
fn realtime_events_and_subscriptions() {
    let config = APIConfig::default().websocket_api;
    let mut api = RealtimeAPI::new(&config);
    assert_eq!(api.config.port, 8083);
    assert_eq!(api.get_connection_stats(5).active_connections, 0);
    let id = api.add_subscription("conn-1".to_string(), Some("users".to_string()), None).unwrap();
    assert_eq!(id.len(), 36);
    let st = api.get_connection_stats(5);
    assert_eq!(st.total_subscriptions, 1);
    assert_eq!(st.oldest_connection_ms, 5);
    let e = api.notify_query_update("q1", vec![text("a"), text("b")], "t".to_string());
    match e {
        WebSocketEvent::QueryUpdate { query_id, results, count, timestamp } => {
            assert_eq!(query_id, "q1");
            assert_eq!(results.len(), 2);
            assert_eq!(count, 2);
            assert_eq!(timestamp, "t");
        }
        _ => panic!("wrong event"),
    }
    let e = api.notify_document_change("users", "u1", DocumentAction::Deleted, None, "t2".to_string());
    match e {
        WebSocketEvent::DocumentChanged { collection, document_id, action, data, timestamp } => {
            assert_eq!(collection, "users");
            assert_eq!(document_id, "u1");
            assert_eq!(action, DocumentAction::Deleted);
            assert!(data.is_none());
            assert_eq!(timestamp, "t2");
        }
        _ => panic!("wrong event"),
    }
}

#[test]
fn registry_keeps_one_entry_per_id() {
    let mut m = ConnectionManager::new();
    m.add_subscription(sub("s1", "a")).unwrap();
    m.add_subscription(sub("s2", "a")).unwrap();
    m.add_subscription(sub("s1", "b")).unwrap();
    assert_eq!(m.get_stats(1).total_subscriptions, 2);
    m.remove_connection("a").unwrap();
    assert_eq!(m.get_stats(1).total_subscriptions, 1);
}

#[test]
fn written_amounts_parse_back() {
    for n in [0u64, 7, 10, 99, 100, 50_000_000, u64::MAX] {
        assert_eq!(parse_amount(&n.to_string()), Some(n));
    }
}
