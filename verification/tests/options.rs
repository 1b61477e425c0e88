//! Startup-option validation: the multicast range check and the defaults.

use multichat::config::{Config, ConfigError, Ipv4Addr4};

#[test]
fn defaults_are_group_224_0_0_69_port_3000() {
    let c = Config::with_defaults();
    assert_eq!(c.addr, Ipv4Addr4::new(224, 0, 0, 69));
    assert_eq!(c.port, 3000);
    assert!(!c.reuse);
}

#[test]
fn multicast_range_lower_edge() {
    assert!(!Ipv4Addr4::new(223, 255, 255, 255).is_multicast());
    assert!(Ipv4Addr4::new(224, 0, 0, 0).is_multicast());
}

#[test]
fn multicast_range_upper_edge() {
    assert!(Ipv4Addr4::new(239, 255, 255, 255).is_multicast());
    assert!(!Ipv4Addr4::new(240, 0, 0, 0).is_multicast());
}

#[test]
fn build_accepts_multicast_group() {
    let c = Config::build(Ipv4Addr4::new(239, 1, 1, 1), 5000, true).unwrap();
    assert_eq!(c.addr, Ipv4Addr4::new(239, 1, 1, 1));
    assert_eq!(c.port, 5000);
    assert!(c.reuse);
}

#[test]
fn build_rejects_unicast_address() {
    let r = Config::build(Ipv4Addr4::new(192, 168, 0, 1), 3000, false);
    assert_eq!(r, Err(ConfigError::NotMulticast));
}
