use am_radio_core::retry::RetryConfig;

#[test]
fn test_delay_calculation() {
    let config = RetryConfig::default();

    assert_eq!(config.delay_for_attempt(0), 0);
    assert_eq!(config.delay_for_attempt(1), 1000);
    assert_eq!(config.delay_for_attempt(2), 2000);
    assert_eq!(config.delay_for_attempt(3), 4000);
    // Capped at max
    assert_eq!(config.delay_for_attempt(4), 8000);
    assert_eq!(config.delay_for_attempt(5), 8000);
}

#[test]
fn test_delay_custom_config() {
    let config =
        RetryConfig { max_attempts: 4, initial_delay_ms: 10, max_delay_ms: 100, multiplier: 3 };
    assert_eq!(config.delay_for_attempt(0), 0);
    assert_eq!(config.delay_for_attempt(1), 10);
    assert_eq!(config.delay_for_attempt(2), 30);
    assert_eq!(config.delay_for_attempt(3), 90);
    assert_eq!(config.delay_for_attempt(4), 100);
}

#[test]
fn test_delay_degenerate_multipliers() {
    let frozen =
        RetryConfig { max_attempts: 4, initial_delay_ms: 50, max_delay_ms: 100, multiplier: 1 };
    assert_eq!(frozen.delay_for_attempt(1), 50);
    assert_eq!(frozen.delay_for_attempt(5), 50);

    let collapsing =
        RetryConfig { max_attempts: 4, initial_delay_ms: 50, max_delay_ms: 100, multiplier: 0 };
    assert_eq!(collapsing.delay_for_attempt(1), 50);
    assert_eq!(collapsing.delay_for_attempt(2), 0);
    assert_eq!(collapsing.delay_for_attempt(3), 0);
}

#[test]
fn test_default_config_values() {
    let config = RetryConfig::default();
    assert_eq!(config.max_attempts, 4);
    assert_eq!(config.initial_delay_ms, 1000);
    assert_eq!(config.max_delay_ms, 8000);
    assert_eq!(config.multiplier, 2);
}
