use ccxt_rust::onetrading::Onetrading;
use ccxt_rust::dec::Dec;
use ccxt_rust::types::{CcxtError, ExchangeConfig, ExchangeId, OrderSide, OrderType};

#[test]
fn onetrading_test_symbol_conversion() {
    let config = ExchangeConfig::new();
    let onetrading = Onetrading::new(config).unwrap();

    assert_eq!(onetrading.to_market_id("BTC/EUR"), "BTC_EUR");
    assert_eq!(onetrading.to_market_id("ETH/CHF"), "ETH_CHF");
}

#[test]
fn onetrading_test_exchange_info() {
    let config = ExchangeConfig::new();
    let onetrading = Onetrading::new(config).unwrap();

    assert_eq!(onetrading.id(), ExchangeId::Onetrading);
    assert_eq!(onetrading.name(), "One Trading");
    assert!(onetrading.has().spot);
    assert!(!onetrading.has().margin);
    assert!(!onetrading.has().swap);
}

#[test]
fn onetrading_unsupported_order_type_names_it() {
    let ex = Onetrading::new(ExchangeConfig::new()).unwrap();
    let amount = Dec::parse("1").unwrap();
    match ex.create_order_request("BTC/EUR", OrderType::StopMarket, OrderSide::Buy, amount, None) {
        Err(CcxtError::NotSupported { feature }) => assert_eq!(feature, "Order type: StopMarket"),
        other => panic!("unexpected {:?}", other),
    }
}
