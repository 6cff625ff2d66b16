use revproxy::config::ProxyConfig;

#[test]
fn defaults_match_the_documented_configuration() {
    let c = ProxyConfig::default();
    assert_eq!(c.header_read_timeout_ms, 5_000);
    assert!(c.keep_alive);
    assert!(c.pipeline_flush);
    assert_eq!(c.pool.idle_timeout_ms, 30_000);
    assert_eq!(c.pool.max_idle, 100);
}
