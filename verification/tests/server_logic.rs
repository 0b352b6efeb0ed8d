use game::digest::{digest_from_file, digest_hex, strip_colons};
use game::heartbeat::{Heartbeat, HEARTBEAT_PERIOD_MS};
use game::net::{client_addr, connect_auth, manual_auth, server_addr, ConnectError, CLIENT_PORT, PROTOCOL_ID, SERVER_PORT};
use game::server::{digest_publication_paths, on_connect, ConnectAction, PlayerSpawn, CLIENT_TIMEOUT_SECS};
use game::timing::{run_loop_nanos, tick_duration_nanos};

#[test]
fn strip_colons_removes_every_colon() {
    assert_eq!(strip_colons("1a:2b:3c"), "1a2b3c");
    assert_eq!(strip_colons(""), "");
    assert_eq!(strip_colons(":::"), "");
    assert_eq!(strip_colons("no colons"), "no colons");
    assert_eq!(strip_colons("é:ü"), "éü");
}

#[test]
fn digest_hex_of_documented_example() {
    let bytes: [u8; 32] = [
        97, 98, 99, 100, 101, 102, 103, 104, 105, 106, 107, 108, 109, 110, 111, 112, 113, 114, 115,
        116, 117, 118, 119, 120, 121, 122, 123, 124, 125, 126, 127, 64,
    ];
    let hex = digest_hex(&bytes);
    assert_eq!(hex, "6162636465666768696a6b6c6d6e6f707172737475767778797a7b7c7d7e7f40");
    assert_eq!(hex.len(), 64);
}

#[test]
fn digest_hex_pads_small_bytes() {
    let mut bytes = [0u8; 32];
    bytes[0] = 0x0a;
    bytes[31] = 0xff;
    let hex = digest_hex(&bytes);
    assert!(hex.starts_with("0a00"));
    assert!(hex.ends_with("00ff"));
    assert_eq!(hex.len(), 64);
}

#[test]
fn digest_file_is_trimmed() {
    assert_eq!(digest_from_file("  abcd\n"), "abcd");
    assert_eq!(digest_from_file("abcd"), "abcd");
    assert_eq!(digest_from_file("\t\r\n"), "");
}

#[test]
fn heartbeat_reports_once_a_minute() {
    let mut hb = Heartbeat::new();
    assert_eq!(hb.next_due_ms(), 0);
    assert!(hb.tick(5));
    assert_eq!(hb.next_due_ms(), 5 + HEARTBEAT_PERIOD_MS);
    assert!(!hb.tick(30_000));
    assert!(!hb.tick(60_004));
    assert_eq!(hb.next_due_ms(), 60_005);
    assert!(hb.tick(60_005));
    assert_eq!(hb.next_due_ms(), 120_005);
}

#[test]
fn heartbeat_saturates_at_end_of_time() {
    let mut hb = Heartbeat::new();
    assert!(hb.tick(u64::MAX - 10));
    assert_eq!(hb.next_due_ms(), u64::MAX);
    assert!(hb.tick(u64::MAX));
}

#[test]
fn timing_values() {
    assert_eq!(tick_duration_nanos(), 15_625_000);
    assert_eq!(run_loop_nanos(), 3_906_250);
}

#[test]
fn addresses() {
    let s = server_addr();
    assert_eq!(s.ip, [127, 0, 0, 1]);
    assert_eq!(s.port, 5000);
    assert_eq!(SERVER_PORT, 5000);
    let c = client_addr();
    assert_eq!(c.ip, [127, 0, 0, 1]);
    assert_eq!(c.port, CLIENT_PORT);
    assert_eq!(c.port, 0);
}

#[test]
fn manual_auth_fields() {
    let a = manual_auth(42);
    assert_eq!(a.client_id, 42);
    assert_eq!(a.private_key, [0u8; 32]);
    assert_eq!(a.protocol_id, PROTOCOL_ID);
    assert_eq!(a.server_addr.port, 5000);
}

#[test]
fn connect_auth_uses_random_id() {
    match connect_auth() {
        Ok(a) => {
            assert_eq!(a.private_key, [0u8; 32]);
            assert_eq!(a.server_addr.ip, [127, 0, 0, 1]);
            assert_eq!(a.server_addr.port, 5000);
        }
        Err(e) => assert!(matches!(e, ConnectError::RandomSource(_))),
    }
}

#[test]
fn publication_paths() {
    assert_eq!(digest_publication_paths(None), vec!["digest.txt".to_string()]);
    assert_eq!(
        digest_publication_paths(Some("/srv/www/digest.txt".to_string())),
        vec!["digest.txt".to_string(), "/srv/www/digest.txt".to_string()]
    );
}

#[test]
fn connect_decision() {
    assert_eq!(
        on_connect(17, true),
        ConnectAction::SpawnPlayer(PlayerSpawn {
            owner: 17,
            x: 0,
            y: 10,
            z: 0,
            replicate_to_all: true,
            predict_for_all: true,
        })
    );
    assert_eq!(on_connect(17, false), ConnectAction::Ignore);
    assert_eq!(CLIENT_TIMEOUT_SECS, 300);
}

#[test]
fn certificate_digest_matches_printed_hash_without_colons() {
    let identity = wtransport::Identity::self_signed(["localhost"]).unwrap();
    let cert = &identity.certificate_chain().as_slice()[0];
    let (der, hex) = game::digest::certificate_digest_hex(cert);
    assert_eq!(der, cert.der());
    assert_eq!(hex.len(), 64);
    assert_eq!(hex, cert.hash().to_string().replace(":", ""));
    assert_eq!(hex, digest_hex(cert.hash().as_ref()));
    assert!(hex.chars().all(|c| c.is_ascii_hexdigit() && !c.is_ascii_uppercase()));
}

#[test]
fn auth_from_random_follows_the_draw() {
    let a = game::net::auth_from_random(Ok(7)).unwrap();
    assert_eq!(a.client_id, 7);
    assert_eq!(a.private_key, [0u8; 32]);
    assert_eq!(a.protocol_id, PROTOCOL_ID);
    assert_eq!(a.server_addr.ip, [127, 0, 0, 1]);
    assert_eq!(a.server_addr.port, 5000);
    match game::net::auth_from_random(Err(getrandom::Error::UNSUPPORTED)) {
        Err(e) => assert_eq!(e, ConnectError::RandomSource(getrandom::Error::UNSUPPORTED)),
        Ok(_) => panic!("a failed draw must not authenticate"),
    }
}

#[test]
fn published_digest_reads_back_unchanged() {
    let mut bytes = [0u8; 32];
    for (i, b) in bytes.iter_mut().enumerate() {
        *b = (i as u8).wrapping_mul(37);
    }
    let hex = digest_hex(&bytes);
    assert_eq!(digest_from_file(&hex), hex);
    assert_eq!(digest_from_file(&format!("{hex}\n")), hex);
    assert_eq!(digest_from_file(&format!("\u{a0}{hex}\u{3000}\r\n")), hex);
}

#[test]
fn trim_keeps_inner_whitespace() {
    assert_eq!(digest_from_file(" a b "), "a b");
    assert_eq!(digest_from_file("\u{2028}x\u{85}"), "x");
}

#[test]
fn heartbeat_reports_in_a_run_are_a_period_apart() {
    let mut hb = Heartbeat::new();
    let times = [0u64, 10_000, 59_999, 60_000, 60_001, 119_999, 120_000, 200_000, 250_000, 260_000];
    let reported: Vec<u64> = times.iter().copied().filter(|&t| hb.tick(t)).collect();
    assert_eq!(reported, vec![0, 60_000, 120_000, 200_000, 260_000]);
    for w in reported.windows(2) {
        assert!(w[1] - w[0] >= HEARTBEAT_PERIOD_MS);
    }
}
