use trade_common_rs::api::{health_check_response, market_data_message};
use trade_common_rs::calculations::{log_return_count, sharpe_ratio_defined, volatility_defined};
use trade_common_rs::config::{DatabaseConfig, RedisConfig, ServerConfig, Settings};
use trade_common_rs::market_data::MarketDataService;
use trade_common_rs::models::TradeSide;
use trade_common_rs::utils::{seconds_to_timestamp, timestamp_now};

#[test]
fn sharpe_ratio_not_defined_on_empty_series() {
    assert!(!sharpe_ratio_defined(0));
}

#[test]
fn sharpe_ratio_defined_on_nonempty_series() {
    assert!(sharpe_ratio_defined(1));
    assert!(sharpe_ratio_defined(5));
}

#[test]
fn volatility_not_defined_below_two_prices() {
    assert!(!volatility_defined(0));
    assert!(!volatility_defined(1));
}

#[test]
fn volatility_defined_from_two_prices() {
    assert!(volatility_defined(2));
    assert!(volatility_defined(6));
}

#[test]
fn log_return_count_is_one_per_adjacent_pair() {
    assert_eq!(log_return_count(0), 0);
    assert_eq!(log_return_count(1), 0);
    assert_eq!(log_return_count(2), 1);
    assert_eq!(log_return_count(6), 5);
}

#[test]
fn health_status_is_ok() {
    assert_eq!(health_check_response().status, "ok");
}

#[test]
fn market_data_message_is_the_placeholder() {
    assert_eq!(market_data_message(), "Market data endpoint placeholder");
}

#[test]
fn settings_new_keeps_every_field() {
    let s = Settings::new(
        ServerConfig { host: "127.0.0.1".to_owned(), port: 8080 },
        DatabaseConfig { url: "postgres://localhost/trades".to_owned(), max_connections: 16 },
        RedisConfig { url: "redis://localhost".to_owned(), pool_size: 8 },
    );
    assert_eq!(s.server.host, "127.0.0.1");
    assert_eq!(s.server.port, 8080);
    assert_eq!(s.database.url, "postgres://localhost/trades");
    assert_eq!(s.database.max_connections, 16);
    assert_eq!(s.redis.url, "redis://localhost");
    assert_eq!(s.redis.pool_size, 8);
}

#[test]
fn seconds_to_timestamp_keeps_whole_seconds() {
    assert_eq!(seconds_to_timestamp(Some(0)), 0);
    assert_eq!(seconds_to_timestamp(Some(1_700_000_000)), 1_700_000_000);
    assert_eq!(seconds_to_timestamp(Some(i64::MAX as u64)), i64::MAX);
}

#[test]
fn seconds_to_timestamp_saturates_beyond_signed_range() {
    assert_eq!(seconds_to_timestamp(Some(i64::MAX as u64 + 1)), i64::MAX);
    assert_eq!(seconds_to_timestamp(Some(u64::MAX)), i64::MAX);
}

#[test]
fn seconds_to_timestamp_reads_a_missing_clock_as_zero() {
    assert_eq!(seconds_to_timestamp(None), 0);
}

#[test]
fn timestamp_now_is_never_negative() {
    assert!(timestamp_now() >= 0);
}

#[test]
fn market_data_service_constructs() {
    let _service = MarketDataService::new();
}

#[test]
fn trade_sides_are_distinct() {
    assert_eq!(TradeSide::Buy, TradeSide::Buy);
    assert_eq!(TradeSide::Sell, TradeSide::Sell);
    assert_ne!(TradeSide::Buy, TradeSide::Sell);
}
