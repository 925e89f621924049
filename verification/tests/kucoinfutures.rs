use ccxt_rust::kucoinfutures::Kucoinfutures;
use ccxt_rust::types::{ExchangeConfig, ExchangeId};

#[test]
fn kucoinfutures_test_exchange_info() {
    let config = ExchangeConfig::default();
    let exchange = Kucoinfutures::new(config).unwrap();

    assert_eq!(exchange.id(), ExchangeId::KucoinFutures);
    assert_eq!(exchange.name(), "KuCoin Futures");
    assert_eq!(exchange.version(), "v1");

    // KuCoin Futures features
    assert!(exchange.has().swap);
    assert!(exchange.has().future);
    assert!(!exchange.has().spot);
    assert!(exchange.has().fetch_markets);
    assert!(exchange.has().fetch_ticker);
    assert!(exchange.has().fetch_positions);
    assert!(exchange.has().fetch_funding_rate);
    assert!(exchange.has().create_order);
}

#[test]
fn test_rate_limit() {
    let config = ExchangeConfig::default();
    let exchange = Kucoinfutures::new(config).unwrap();

    assert_eq!(exchange.rate_limit(), 75);
}

#[test]
fn test_countries() {
    let config = ExchangeConfig::default();
    let exchange = Kucoinfutures::new(config).unwrap();

    let countries = exchange.countries();
    assert_eq!(countries, &["SC"]);
}
