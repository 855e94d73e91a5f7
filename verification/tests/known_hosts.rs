use ssh_session::keypair::{KeyPair, PublicKey};
use ssh_session::err::ErrorKind;
use ssh_session::known_hosts::{check_known_hosts, learn_known_hosts, ledger_port, KnownHosts};

fn key() -> PublicKey {
    KeyPair::generate_ed25519().unwrap().clone_public_key().unwrap()
}

#[test]
fn learned_host_is_known() {
    let k = key();
    let mut ledger = KnownHosts::new();
    learn_known_hosts("example.org".to_string(), 22, &k, &mut ledger).unwrap();
    assert_eq!(ledger.len(), 1);
    assert!(check_known_hosts("example.org".to_string(), 22, &k, &ledger));
}

#[test]
fn unlearned_host_is_unknown() {
    let k = key();
    let mut ledger = KnownHosts::new();
    assert!(!check_known_hosts("example.org".to_string(), 22, &k, &ledger));
    learn_known_hosts("example.org".to_string(), 22, &k, &mut ledger).unwrap();
    assert!(!check_known_hosts("example.com".to_string(), 22, &k, &ledger));
    assert!(!check_known_hosts("".to_string(), 22, &k, &ledger));
    assert!(!check_known_hosts("EXAMPLE.ORG".to_string(), 22, &k, &ledger));
}

#[test]
fn another_port_is_another_host() {
    let k = key();
    let mut ledger = KnownHosts::new();
    learn_known_hosts("localhost".to_string(), 2222, &k, &mut ledger).unwrap();
    assert!(check_known_hosts("localhost".to_string(), 2222, &k, &ledger));
    assert!(!check_known_hosts("localhost".to_string(), 22, &k, &ledger));
}

#[test]
fn another_key_is_not_known() {
    let recorded = key();
    let presented = key();
    let mut ledger = KnownHosts::new();
    learn_known_hosts("example.org".to_string(), 22, &recorded, &mut ledger).unwrap();
    assert!(!check_known_hosts("example.org".to_string(), 22, &presented, &ledger));
    learn_known_hosts("example.org".to_string(), 22, &presented, &mut ledger).unwrap();
    assert!(check_known_hosts("example.org".to_string(), 22, &presented, &ledger));
    assert!(check_known_hosts("example.org".to_string(), 22, &recorded, &ledger));
    assert_eq!(ledger.len(), 2);
}

#[test]
fn ports_have_sixteen_bits() {
    assert_eq!(ledger_port(0), Some(0));
    assert_eq!(ledger_port(22), Some(22));
    assert_eq!(ledger_port(65535), Some(65535));
    assert_eq!(ledger_port(65536), None);
    assert_eq!(ledger_port(65536 + 22), None);
    assert_eq!(ledger_port(u32::MAX), None);
}

#[test]
fn port_above_the_range_matches_no_entry() {
    let k = key();
    let mut ledger = KnownHosts::new();
    learn_known_hosts("example.com".to_string(), 22, &k, &mut ledger).unwrap();
    assert!(check_known_hosts("example.com".to_string(), 22, &k, &ledger));
    assert!(!check_known_hosts("example.com".to_string(), 65558, &k, &ledger));
    assert!(!check_known_hosts("example.com".to_string(), 65536, &k, &ledger));
    assert!(!check_known_hosts("example.com".to_string(), u32::MAX, &k, &ledger));
}

#[test]
fn port_above_the_range_is_not_learned() {
    let k = key();
    let mut ledger = KnownHosts::new();
    let e = learn_known_hosts("example.com".to_string(), 65558, &k, &mut ledger).err().unwrap();
    assert_eq!(e.kind(), ErrorKind::Persistence);
    assert_eq!(e.message(), "the port is above 65535");
    assert_eq!(ledger.len(), 0);
    assert!(ledger.last().is_none());
    assert!(!check_known_hosts("example.com".to_string(), 22, &k, &ledger));
    learn_known_hosts("example.com".to_string(), 65535, &k, &mut ledger).unwrap();
    assert!(check_known_hosts("example.com".to_string(), 65535, &k, &ledger));
}

#[test]
fn last_entry_is_the_one_learned_last() {
    let a = key();
    let b = key();
    let mut ledger = KnownHosts::new();
    assert!(ledger.last().is_none());
    learn_known_hosts("a".to_string(), 1, &a, &mut ledger).unwrap();
    learn_known_hosts("b".to_string(), 2, &b, &mut ledger).unwrap();
    let last = ledger.last().unwrap();
    assert_eq!(last.host, "b");
    assert_eq!(last.port, 2);
    assert!(last.key.same_key(&b));
}

#[test]
fn recorded_entries_are_found_in_any_position() {
    let a = key();
    let b = key();
    let c = key();
    let mut ledger = KnownHosts::new();
    ledger.record("a".to_string(), 1, a.copy());
    ledger.record("b".to_string(), 2, b.copy());
    ledger.record("c".to_string(), 3, c.copy());
    assert!(check_known_hosts("a".to_string(), 1, &a, &ledger));
    assert!(check_known_hosts("b".to_string(), 2, &b, &ledger));
    assert!(check_known_hosts("c".to_string(), 3, &c, &ledger));
    assert!(!check_known_hosts("a".to_string(), 1, &b, &ledger));
    assert!(!check_known_hosts("c".to_string(), 1, &c, &ledger));
}
