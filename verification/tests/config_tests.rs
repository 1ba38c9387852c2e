use dazzle::config::{port_changed, AppConfig};

#[test]
fn default_config_has_expected_values() {
    let config = AppConfig::default();
    assert_eq!(config.port, 29100);
    assert!(config.selected_printer.is_none());
}

#[test]
fn config_duplicate_copies_every_field() {
    let config = AppConfig { port: 8080, selected_printer: Some("Zebra ZD420".to_string()) };
    let copy = config.duplicate();
    assert_eq!(copy.port, 8080);
    assert_eq!(copy.selected_printer.as_deref(), Some("Zebra ZD420"));

    let bare = AppConfig { port: 1, selected_printer: None };
    let copy = bare.duplicate();
    assert_eq!(copy.port, 1);
    assert!(copy.selected_printer.is_none());
}

#[test]
fn port_changed_looks_at_the_port_alone() {
    let a = AppConfig { port: 29100, selected_printer: None };
    let b = AppConfig { port: 29100, selected_printer: Some("Zebra".to_string()) };
    let c = AppConfig { port: 8080, selected_printer: None };
    assert!(!port_changed(&a, &b));
    assert!(port_changed(&a, &c));
    assert!(port_changed(&c, &a));
}

#[test]
fn autostart_switches_are_no_ops() {
    assert_eq!(dazzle::autostart::is_enabled(), Ok(false));
    assert!(dazzle::autostart::enable().is_ok());
    assert!(dazzle::autostart::disable().is_ok());
}
