use pwquality::{Error, PWQuality};

fn pseudo_random_bytes(n: usize) -> Vec<u8> {
    // A fixed, well-mixed byte stream: tests must be deterministic, and
    // the generator treats the bytes as an opaque external supply.
    let mut out = Vec::with_capacity(n);
    let mut x: u32 = 0x12345678;
    for _ in 0..n {
        x = x.wrapping_mul(1664525).wrapping_add(1013904223);
        out.push((x >> 24) as u8);
    }
    out
}

#[test]
fn generated_password_passes_check_under_same_settings() {
    let s = PWQuality::new();
    let bytes = pseudo_random_bytes(256);
    let pw = s.generate_password(47, &bytes).unwrap();
    assert_eq!(pw.chars().count(), 8);
    assert!(s.check(pw, None, None).is_ok());
}

#[test]
fn generated_length_follows_entropy() {
    let s = PWQuality::new();
    let bytes = pseudo_random_bytes(512);
    // 60 bits over a 64-symbol alphabet: ten characters.
    let pw = s.generate_password(60, &bytes).unwrap();
    assert_eq!(pw.chars().count(), 10);
    let pw2 = s.generate_password(61, &bytes).unwrap();
    assert_eq!(pw2.chars().count(), 11);
}

#[test]
fn too_few_random_bytes_is_an_rng_failure() {
    let s = PWQuality::new();
    let bytes = pseudo_random_bytes(5);
    assert_eq!(s.generate_password(47, &bytes), Err(Error::Rng));
}

#[test]
fn no_entropy_target_fails_generation() {
    let s = PWQuality::new();
    let bytes = pseudo_random_bytes(64);
    assert_eq!(s.generate_password(0, &bytes), Err(Error::GenerationFailed));
    assert_eq!(s.generate_password(-10, &bytes), Err(Error::GenerationFailed));
}

#[test]
fn unsatisfiable_settings_exhaust_the_supply() {
    let mut s = PWQuality::new();
    // Sixteen characters of entropy can never reach a 30-character floor.
    s.set_min_length(30);
    let bytes = pseudo_random_bytes(256);
    assert_eq!(s.generate_password(90, &bytes), Err(Error::GenerationFailed));
}

#[test]
fn dictionary_check_without_backend_is_fatal_for_generation() {
    let mut s = PWQuality::new();
    s.set_dictionary_check(true);
    let bytes = pseudo_random_bytes(256);
    assert_eq!(s.generate_password(47, &bytes), Err(Error::FatalFailure));
}

#[test]
fn generation_is_deterministic_in_the_byte_supply() {
    let s = PWQuality::new();
    let bytes = pseudo_random_bytes(256);
    let a = s.generate_password(47, &bytes).unwrap();
    let b = s.generate_password(47, &bytes).unwrap();
    assert_eq!(a, b);
}

#[test]
fn first_chunk_maps_bytes_to_the_alphabet() {
    let s = PWQuality::new();
    // 48 bits over 64 symbols: eight characters, from the first chunk's
    // low six bits per byte.
    let bytes: Vec<u8> = vec![0, 1, 2, 3, 26, 27, 52, 53];
    assert_eq!(s.generate_password(48, &bytes).unwrap(), "abcdAB01");
    // High bits are ignored: 64 + 0 picks 'a' again.
    let bytes2: Vec<u8> = vec![64, 65, 2, 3, 26, 27, 52, 53];
    assert_eq!(s.generate_password(48, &bytes2).unwrap(), "abcdAB01");
}

#[test]
fn failing_chunks_are_skipped_in_order() {
    let mut s = PWQuality::new();
    s.set_min_classes(2);
    // The first chunk spells "aaaaaaaa" (one class) and must be rejected;
    // the second mixes classes and is the password handed out.
    let mut bytes: Vec<u8> = vec![0; 8];
    bytes.extend([0, 1, 2, 3, 26, 27, 52, 53]);
    assert_eq!(s.generate_password(48, &bytes).unwrap(), "abcdAB01");
}
