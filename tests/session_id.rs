use pocket_web_backend::session_id::{generate_secure_session_id, id_material, render_id, SecureSessionIdGenerator};
use std::collections::HashSet;

fn nanos() -> u64 {
    std::time::SystemTime::now()
        .duration_since(std::time::UNIX_EPOCH)
        .map(|d| d.as_nanos() as u64)
        .unwrap_or(0)
}

fn generator() -> SecureSessionIdGenerator {
    SecureSessionIdGenerator::new(nanos(), 4242).expect("entropy")
}

#[test]
fn test_session_id_uniqueness() {
    let mut generator = generator();
    let mut ids = HashSet::new();

    for _ in 0..1000 {
        let id = generator.generate(nanos());
        assert_eq!(id.len(), 64);
        assert!(ids.insert(id), "Duplicate session ID generated");
    }
}

#[test]
fn session_ids_unique_over_ten_thousand() {
    let mut generator = generator();
    let mut ids = HashSet::new();
    let ts = nanos();
    for _ in 0..10_000 {
        let id = generator.generate(ts);
        assert!(id.len() == 64 && id.chars().all(|c| "0123456789abcdef".contains(c)));
        assert!(ids.insert(id));
    }
    assert_eq!(ids.len(), 10_000);
}

#[test]
fn test_session_id_format() {
    let mut generator = generator();
    let id = generator.generate(nanos());

    assert_eq!(id.len(), 64);
    assert!(id.chars().all(|c| c.is_ascii_hexdigit()));
}

#[test]
fn test_session_id_entropy() {
    let mut generator = generator();
    let id1 = generator.generate(nanos());
    let id2 = generator.generate(nanos());

    assert_ne!(id1, id2);

    let diff_chars: usize = id1.chars().zip(id2.chars()).map(|(a, b)| if a != b { 1 } else { 0 }).sum();

    assert!(diff_chars >= 16, "Session IDs have low entropy");
}

#[test]
fn test_global_generator() {
    let mut generator = generator();
    let id1 = generate_secure_session_id(&mut generator, nanos());
    let id2 = generate_secure_session_id(&mut generator, nanos());

    assert_ne!(id1, id2);
    assert_eq!(id1.len(), 64);
    assert_eq!(id2.len(), 64);
}

#[test]
fn test_session_id_strength() {
    let mut generator = generator();
    let id = generate_secure_session_id(&mut generator, nanos());

    assert_eq!(id.len(), 64);

    assert!(id.chars().all(|c| "0123456789abcdef".contains(c)));

    assert!(!id.contains("0000000000"));
    assert!(!id.contains("ffffffffff"));
    assert!(!id.starts_with("000000"));
    assert!(!id.ends_with("000000"));
}

#[test]
fn id_material_layout() {
    let m = id_material(0x0102030405060708, 1, &[9, 9]);
    assert_eq!(m, vec![8, 7, 6, 5, 4, 3, 2, 1, 1, 0, 0, 0, 0, 0, 0, 0, 9, 9]);
}

#[test]
fn render_id_is_sha256_hex() {
    assert_eq!(render_id(&[]), "e3b0c44298fc1c149afbf4c8996fb92427ae41e4649b934ca495991b7852b855");
    assert_eq!(render_id(b"abc"), "ba7816bf8f01cfea414140de5dae2223b00361a396177a9cb410ff61f20015ad");
}
