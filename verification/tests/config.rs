use mastodon_exporter::config::{Config, ServerConfig, DEFAULT_HTTP_LISTEN_PORT};

#[test]
fn the_default_port_is_9498() {
    assert_eq!(DEFAULT_HTTP_LISTEN_PORT, 9498);
    assert_eq!(ServerConfig::default().http_listen_port, 9498);
}

#[test]
fn the_default_configuration_polls_two_instances_and_no_account() {
    let config = Config::default();
    assert_eq!(config.server.http_listen_port, 9498);
    assert_eq!(config.instance_info, vec!["mas.to".to_string(), "mastodon.social".to_string()]);
    assert!(config.accounts.is_empty());
}
