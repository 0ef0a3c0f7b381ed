use arbscan::addr::parse_pool_address;
use arbscan::config::{parse_count, parse_fixed, Config, RawSettings};
use arbscan::errors::{ConfigError, Setting};

const SYSTEM_KEY: &str = "11111111111111111111111111111111";

fn valid_raw() -> RawSettings {
    RawSettings {
        rpc_url: Some("https://localhost:8899".to_string()),
        pool_a: Some(SYSTEM_KEY.to_string()),
        pool_b: Some(SYSTEM_KEY.to_string()),
        threshold: Some(b"0.005".to_vec()),
        poll_interval: None,
        fee_rate: None,
        slippage_tolerance: None,
        max_trade_fraction: None,
        confirm_timeout: None,
    }
}

#[test]
fn parse_fixed_values() {
    assert_eq!(parse_fixed(&b"0.5".to_vec()), Some(500_000_000));
    assert_eq!(parse_fixed(&b"100.50".to_vec()), Some(100_500_000_000));
    assert_eq!(parse_fixed(&b"10".to_vec()), Some(10_000_000_000));
    assert_eq!(parse_fixed(&b"0.000000001".to_vec()), Some(1));
    assert_eq!(parse_fixed(&b"0.0070".to_vec()), Some(7_000_000));
}

#[test]
fn parse_fixed_rejects_malformed() {
    assert_eq!(parse_fixed(&b"".to_vec()), None);
    assert_eq!(parse_fixed(&b".".to_vec()), None);
    assert_eq!(parse_fixed(&b"1.".to_vec()), None);
    assert_eq!(parse_fixed(&b".5".to_vec()), None);
    assert_eq!(parse_fixed(&b"1.0000000001".to_vec()), None); // ten fractional digits
    assert_eq!(parse_fixed(&b"1234567890123456789".to_vec()), None); // nineteen digits
    assert_eq!(parse_fixed(&b"1x2".to_vec()), None);
    assert_eq!(parse_fixed(&b"1.2.3".to_vec()), None);
    assert_eq!(parse_fixed(&b"-1".to_vec()), None);
}

#[test]
fn parse_count_values() {
    assert_eq!(parse_count(&b"10".to_vec()), Some(10));
    assert_eq!(parse_count(&b"0".to_vec()), Some(0));
    assert_eq!(parse_count(&b"".to_vec()), None);
    assert_eq!(parse_count(&b"9.5".to_vec()), None);
    assert_eq!(parse_count(&b"1234567890123456789".to_vec()), None);
}

#[test]
fn pool_address_round_trips_through_base58() {
    // The base58 string of the all-zero key decodes to 32 zero bytes, not
    // to the string's own bytes.
    let bytes = parse_pool_address(SYSTEM_KEY, Setting::PoolA).unwrap();
    assert_eq!(bytes, vec![0u8; 32]);
    assert_ne!(bytes, SYSTEM_KEY.as_bytes().to_vec());
}

#[test]
fn pool_address_rejects_invalid() {
    // '0' is not in the base58 alphabet.
    assert_eq!(
        parse_pool_address("0invalid", Setting::PoolB),
        Err(ConfigError::Invalid(Setting::PoolB))
    );
    // Too short for 32 bytes.
    assert_eq!(
        parse_pool_address("abc", Setting::PoolA),
        Err(ConfigError::Invalid(Setting::PoolA))
    );
}

#[test]
fn build_applies_defaults() {
    let c = Config::build(&valid_raw()).unwrap();
    assert_eq!(c.threshold_rel, 5_000_000);
    assert_eq!(c.poll_interval, 10);
    assert_eq!(c.backoff_cap, 80);
    assert_eq!(c.fee_rate, 0);
    assert_eq!(c.slip_rate, 0);
    assert_eq!(c.max_trade_fraction, 100_000_000);
    assert_eq!(c.confirm_timeout, 30);
    assert_eq!(c.pool_a, vec![0u8; 32]);
    assert_eq!(c.rpc_url, "https://localhost:8899");
}

#[test]
fn build_parses_explicit_settings() {
    let mut raw = valid_raw();
    raw.poll_interval = Some(b"5".to_vec());
    raw.fee_rate = Some(b"0.003".to_vec());
    raw.slippage_tolerance = Some(b"0.01".to_vec());
    raw.max_trade_fraction = Some(b"0.25".to_vec());
    raw.confirm_timeout = Some(b"60".to_vec());
    let c = Config::build(&raw).unwrap();
    assert_eq!(c.poll_interval, 5);
    assert_eq!(c.backoff_cap, 40);
    assert_eq!(c.fee_rate, 3_000_000);
    assert_eq!(c.slip_rate, 10_000_000);
    assert_eq!(c.max_trade_fraction, 250_000_000);
    assert_eq!(c.confirm_timeout, 60);
}

#[test]
fn build_fails_fast_on_missing_settings() {
    let mut raw = valid_raw();
    raw.rpc_url = None;
    assert_eq!(Config::build(&raw), Err(ConfigError::Missing(Setting::RpcUrl)));

    let mut raw = valid_raw();
    raw.pool_a = None;
    assert_eq!(Config::build(&raw), Err(ConfigError::Missing(Setting::PoolA)));

    let mut raw = valid_raw();
    raw.pool_b = None;
    assert_eq!(Config::build(&raw), Err(ConfigError::Missing(Setting::PoolB)));

    let mut raw = valid_raw();
    raw.threshold = None;
    assert_eq!(Config::build(&raw), Err(ConfigError::Missing(Setting::Threshold)));
}

#[test]
fn build_rejects_invalid_settings() {
    let mut raw = valid_raw();
    raw.rpc_url = Some(String::new());
    assert_eq!(Config::build(&raw), Err(ConfigError::Invalid(Setting::RpcUrl)));

    let mut raw = valid_raw();
    raw.pool_a = Some("0bad".to_string());
    assert_eq!(Config::build(&raw), Err(ConfigError::Invalid(Setting::PoolA)));

    let mut raw = valid_raw();
    raw.threshold = Some(b"half".to_vec());
    assert_eq!(Config::build(&raw), Err(ConfigError::Invalid(Setting::Threshold)));

    let mut raw = valid_raw();
    raw.poll_interval = Some(b"0".to_vec());
    assert_eq!(Config::build(&raw), Err(ConfigError::Invalid(Setting::PollInterval)));

    let mut raw = valid_raw();
    raw.fee_rate = Some(b"1.5".to_vec()); // above 1.0
    assert_eq!(Config::build(&raw), Err(ConfigError::Invalid(Setting::FeeRate)));

    let mut raw = valid_raw();
    raw.slippage_tolerance = Some(b"2".to_vec());
    assert_eq!(
        Config::build(&raw),
        Err(ConfigError::Invalid(Setting::SlippageTolerance))
    );

    let mut raw = valid_raw();
    raw.max_trade_fraction = Some(b"1.1".to_vec());
    assert_eq!(
        Config::build(&raw),
        Err(ConfigError::Invalid(Setting::MaxTradeFraction))
    );

    let mut raw = valid_raw();
    raw.confirm_timeout = Some(b"zero".to_vec());
    assert_eq!(Config::build(&raw), Err(ConfigError::Invalid(Setting::ConfirmTimeout)));
}
