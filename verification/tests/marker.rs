use stund::marker::{generate_key, key_bytes, make_key, SshKeyStatus};

fn counting_bytes() -> [u8; 32] {
    let mut bytes = [0u8; 32];
    for (i, b) in bytes.iter_mut().enumerate() {
        *b = i as u8;
    }
    bytes
}

#[test]
fn key_of_known_bytes() {
    assert_eq!(
        make_key(&counting_bytes()),
        "STUND:AAECAwQFBgcICQoLDA0ODxAREhMUFRYXGBkaGxwdHh8="
    );
    assert_eq!(
        make_key(&[0u8; 32]),
        "STUND:AAAAAAAAAAAAAAAAAAAAAAAAAAAAAAAAAAAAAAAAAAA="
    );
    assert_eq!(
        make_key(&[0xFFu8; 32]),
        "STUND://////////////////////////////////////////8="
    );
}

#[test]
fn generated_keys_have_the_shape_of_a_key() {
    let key = generate_key();
    assert_eq!(key.len(), 50);
    assert!(key.starts_with("STUND:"));
    assert!(key[6..]
        .chars()
        .all(|c| c.is_ascii_alphanumeric() || c == '+' || c == '/' || c == '='));
}

#[test]
fn generated_keys_differ() {
    assert_ne!(generate_key(), generate_key());
    assert_ne!(generate_key(), make_key(&[0u8; 32]));
}

#[test]
fn a_key_is_one_line() {
    let bytes = key_bytes(&make_key(&counting_bytes()));
    assert_eq!(bytes.len(), 50);
    assert!(!bytes.contains(&0x0A));
    assert_eq!(&bytes[..6], b"STUND:");
}

#[test]
fn the_key_is_found_at_a_fresh_start() {
    let status = SshKeyStatus::Searching(0);
    assert_eq!(status.advance(b"KEY", b"KEY"), SshKeyStatus::FoundIt);
    assert_eq!(status.advance(b"KEY", b"KEYKEY"), SshKeyStatus::FoundIt);
}

#[test]
fn the_key_is_found_at_the_start_of_a_line() {
    let status = SshKeyStatus::Searching(0);
    assert_eq!(
        status.advance(b"KEY", b"Welcome!\r\nKEY\r\n"),
        SshKeyStatus::FoundIt
    );
}

#[test]
fn the_key_is_not_found_unless_printed() {
    let status = SshKeyStatus::Searching(0);
    assert_eq!(status.advance(b"KEY", b"KE Y"), SshKeyStatus::Searching(0));
    assert_eq!(status.advance(b"KEY", b""), SshKeyStatus::Searching(0));
    assert_eq!(status.advance(b"KEY", b"xKE"), SshKeyStatus::Searching(2));
}

#[test]
fn the_key_may_come_in_parts() {
    let mut status = SshKeyStatus::Searching(0);
    for part in [&b"hello\nK"[..], &b""[..], &b"E"[..], &b"Y and more"[..]] {
        status = status.advance(b"KEY", part);
    }
    assert_eq!(status, SshKeyStatus::FoundIt);
    assert_eq!(status.advance(b"KEY", b"anything"), SshKeyStatus::FoundIt);
}

#[test]
fn a_false_start_does_not_hide_the_key() {
    let status = SshKeyStatus::Searching(0);
    assert_eq!(status.advance(b"KEY", b"KKEY"), SshKeyStatus::FoundIt);
    assert_eq!(
        status.advance(b"STUND:AA", b"SSTUND:AA"),
        SshKeyStatus::FoundIt
    );
    assert_eq!(status.advance(b"ABABC", b"ABABABC"), SshKeyStatus::FoundIt);
    assert_eq!(
        SshKeyStatus::Searching(1).advance(b"KEY", b"KEY"),
        SshKeyStatus::FoundIt
    );
}

#[test]
fn the_search_keeps_the_longest_match() {
    let status = SshKeyStatus::Searching(0);
    assert_eq!(
        status.advance(b"ABABC", b"ABABA"),
        SshKeyStatus::Searching(3)
    );
    assert_eq!(status.advance(b"AAB", b"xAAAA"), SshKeyStatus::Searching(2));
    assert_eq!(status.advance(b"KEY", b"KEK"), SshKeyStatus::Searching(1));
}

#[test]
fn the_search_agrees_with_a_plain_search() {
    let key = b"ABAABAC";
    let mut seed: u32 = 1;
    for length in 0..200usize {
        let mut output: Vec<u8> = Vec::new();
        for _ in 0..length {
            seed = seed.wrapping_mul(1103515245).wrapping_add(12345);
            output.push(b"AABC"[(seed >> 16) as usize % 4]);
        }
        if length % 3 == 0 {
            output.extend_from_slice(key);
        }
        let found = output.windows(key.len()).any(|w| w == key);
        let mut status = SshKeyStatus::Searching(0);
        for part in output.chunks(5) {
            status = status.advance(key, part);
        }
        assert_eq!(status == SshKeyStatus::FoundIt, found);
    }
}
