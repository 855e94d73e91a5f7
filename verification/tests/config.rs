use ssh_session::client::{connect, connect_with};
use ssh_session::config::{
    ClientConfig, ClientId, ClientIdType, Config, Limits, RekeyLimits, TransportConfig,
};

fn defaults() -> TransportConfig {
    TransportConfig {
        client_id: ClientId { kind: ClientIdType::Standard, id: "SSH-2.0-default".to_string() },
        limits: RekeyLimits { rekey_write_limit: 10, rekey_read_limit: 20, rekey_time_limit: 30 },
        window_size: 1000,
        maximum_packet_size: 2000,
        connection_timeout: Some(99),
        anonymous: true,
    }
}

#[test]
fn limits_left_unset_take_their_defaults() {
    let l = RekeyLimits::from(Limits {
        rekey_write_limit: None,
        rekey_read_limit: None,
        rekey_time_limit: None,
    });
    assert_eq!(l.rekey_write_limit, 1 << 30);
    assert_eq!(l.rekey_read_limit, 1 << 30);
    assert_eq!(l.rekey_time_limit, 3600);
}

#[test]
fn limits_that_are_set_are_kept() {
    let l = RekeyLimits::from(Limits {
        rekey_write_limit: Some(0),
        rekey_read_limit: Some(u32::MAX),
        rekey_time_limit: Some(60),
    });
    assert_eq!(l.rekey_write_limit, 0);
    assert_eq!(l.rekey_read_limit, u32::MAX as usize);
    assert_eq!(l.rekey_time_limit, 60);
}

#[test]
fn unset_tunables_keep_the_defaults_but_for_the_timeout() {
    let r = ClientConfig::unset().resolve(defaults());
    assert_eq!(r.client_id.id, "SSH-2.0-default");
    assert_eq!(r.client_id.kind, ClientIdType::Standard);
    assert_eq!(r.limits, defaults().limits);
    assert_eq!(r.window_size, 1000);
    assert_eq!(r.maximum_packet_size, 2000);
    assert_eq!(r.connection_timeout, None);
    assert!(r.anonymous);
}

#[test]
fn set_tunables_replace_the_defaults() {
    let config = ClientConfig {
        client_id: Some(ClientId { kind: ClientIdType::Raw, id: "SSH-2.0-acme\r\n".to_string() }),
        limits: Some(Limits {
            rekey_write_limit: Some(5),
            rekey_read_limit: None,
            rekey_time_limit: None,
        }),
        window_size: Some(7),
        maximum_packet_size: Some(8),
        connection_timeout: Some(1500),
        anonymous: Some(false),
    };
    let r = config.resolve(defaults());
    assert_eq!(r.client_id.kind, ClientIdType::Raw);
    assert_eq!(r.client_id.id, "SSH-2.0-acme\r\n");
    assert_eq!(
        r.limits,
        RekeyLimits { rekey_write_limit: 5, rekey_read_limit: 1 << 30, rekey_time_limit: 3600 }
    );
    assert_eq!(r.window_size, 7);
    assert_eq!(r.maximum_packet_size, 8);
    assert_eq!(r.connection_timeout, Some(1500));
    assert!(!r.anonymous);
}

#[test]
fn connect_without_config_uses_the_transport_defaults() {
    let c = connect::<u8, u8>("localhost:2222".to_string(), None);
    assert_eq!(c.address, "localhost:2222");
    let t = c.client.transport_config();
    assert_eq!(t.limits, RekeyLimits {
        rekey_write_limit: 1 << 30,
        rekey_read_limit: 1 << 30,
        rekey_time_limit: 3600,
    });
    assert_eq!(t.connection_timeout, None);
    assert!(!t.anonymous);
    assert_eq!(t.client_id.kind, ClientIdType::Standard);
    assert!(t.client_id.id.starts_with("SSH-2.0-"));
    assert_eq!(t.window_size, 2097152);
    assert_eq!(t.maximum_packet_size, 32768);
}

#[test]
fn connect_applies_the_tunables_and_moves_the_handlers() {
    let mut tunables = ClientConfig::unset();
    tunables.window_size = Some(4096);
    tunables.anonymous = Some(true);
    tunables.connection_timeout = Some(250);
    let config = Config { client: Some(tunables), check_server_key: Some(1u8), auth_banner: Some(2u8) };
    let mut c = connect("example.org:22".to_string(), Some(config));
    let t = c.client.transport_config();
    assert_eq!(t.window_size, 4096);
    assert!(t.anonymous);
    assert_eq!(t.connection_timeout, Some(250));
    assert_eq!(t.maximum_packet_size, 32768);
    assert!(matches!(
        c.handle.auth_banner("hi"),
        ssh_session::bridge::BannerAction::Notify { handler: 2, .. }
    ));
    assert!(matches!(
        c.handle.check_server_key(),
        ssh_session::bridge::KeyCheck::Ask { handler: 1 }
    ));
}

#[test]
fn connect_with_handlers_only_keeps_every_default() {
    let config: Config<u8, u8> = Config { client: None, check_server_key: None, auth_banner: None };
    let c = connect_with("h:1".to_string(), Some(config), defaults());
    let t = c.client.transport_config();
    assert_eq!(t.connection_timeout, Some(99));
    assert_eq!(t.window_size, 1000);
    assert!(t.anonymous);
    assert!(!c.client.is_closed());
}
