use tari_deploy::error::Error;
use tari_deploy::loader::{compute_template_hash, load_and_validate, Template};

#[test]
fn garbage_bytes_are_refused_from_either_source() {
    // The same malformed bytes are refused whether they come from a file
    // path or from memory.
    let bytes = vec![7u8; 32];
    let via_path = load_and_validate(
        Template::Path { path: "counter.wasm".to_string() },
        Some(bytes.clone()),
    );
    let via_binary = load_and_validate(Template::Binary { bin: bytes }, None);
    assert!(matches!(via_path, Err(Error::InvalidTemplate { .. })));
    assert!(matches!(via_binary, Err(Error::InvalidTemplate { .. })));
}

#[test]
fn template_hash_is_deterministic_and_32_bytes() {
    let a = compute_template_hash(&vec![7u8; 32]);
    let b = compute_template_hash(&vec![7u8; 32]);
    assert_eq!(a, b);
    assert_eq!(a.len(), 32);
}

#[test]
fn template_hash_depends_on_the_bytes() {
    // The hash is a digest, not the input: hashing a short input yields a
    // full-size hash that differs between inputs.
    let a = compute_template_hash(&vec![1u8, 2, 3]);
    let b = compute_template_hash(&vec![1u8, 2, 4]);
    assert_eq!(a.len(), 32);
    assert_eq!(b.len(), 32);
    assert_ne!(a, b);
}
