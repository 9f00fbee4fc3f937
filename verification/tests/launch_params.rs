use sidecar_lifecycle::decimal::{parse_port, port_decimal};
use sidecar_lifecycle::launch::{
    dev_port, is_dev_mode, spawn_command, window_config, window_url, DEFAULT_DEV_PORT,
};

#[test]
fn port_renders_in_decimal() {
    assert_eq!(port_decimal(0), "0");
    assert_eq!(port_decimal(7), "7");
    assert_eq!(port_decimal(80), "80");
    assert_eq!(port_decimal(4000), "4000");
    assert_eq!(port_decimal(65535), "65535");
}

#[test]
fn parse_accepts_exactly_the_ports() {
    assert_eq!(parse_port("0"), Some(0));
    assert_eq!(parse_port("4000"), Some(4000));
    assert_eq!(parse_port("65535"), Some(65535));
    assert_eq!(parse_port("08080"), Some(8080));
    assert_eq!(parse_port("65536"), None);
    assert_eq!(parse_port("999999999999999999999"), None);
    assert_eq!(parse_port(""), None);
    assert_eq!(parse_port("12ab"), None);
    assert_eq!(parse_port("-1"), None);
    assert_eq!(parse_port(" 80"), None);
}

#[test]
fn rendered_port_parses_back() {
    for p in [0u16, 1, 9, 10, 80, 4000, 5173, 65535] {
        assert_eq!(parse_port(&port_decimal(p)), Some(p));
    }
}

#[test]
fn window_url_points_at_localhost() {
    assert_eq!(window_url(4000), "http://localhost:4000");
    assert_eq!(window_url(50123), "http://localhost:50123");
}

#[test]
fn window_config_production() {
    let c = window_config(4000, false);
    assert_eq!(c.title, "Liteskill");
    assert_eq!(c.url, "http://localhost:4000");
    assert_eq!(c.width, 1280);
    assert_eq!(c.height, 900);
    assert!(c.resizable);
}

#[test]
fn window_config_dev() {
    let c = window_config(5173, true);
    assert_eq!(c.title, "Liteskill (dev)");
    assert_eq!(c.url, "http://localhost:5173");
}

#[test]
fn spawn_command_carries_embedding_flag_and_port() {
    let c = spawn_command(3000);
    assert_eq!(c.program, "desktop");
    assert_eq!(c.env.len(), 2);
    assert_eq!(c.env[0].0, "LITESKILL_DESKTOP");
    assert_eq!(c.env[0].1, "true");
    assert_eq!(c.env[1].0, "PORT");
    assert_eq!(c.env[1].1, "3000");
}

#[test]
fn dev_switch_is_exactly_true() {
    assert!(is_dev_mode(Some("true")));
    assert!(!is_dev_mode(Some("TRUE")));
    assert!(!is_dev_mode(Some("1")));
    assert!(!is_dev_mode(Some("")));
    assert!(!is_dev_mode(None));
}

#[test]
fn dev_port_uses_override_or_default() {
    assert_eq!(dev_port(Some("5173")), 5173);
    assert_eq!(dev_port(Some("not a port")), DEFAULT_DEV_PORT);
    assert_eq!(dev_port(Some("70000")), DEFAULT_DEV_PORT);
    assert_eq!(dev_port(None), DEFAULT_DEV_PORT);
    assert_eq!(DEFAULT_DEV_PORT, 4000);
}
