use runtime_measurer::digest::{digest_content, hex_encode, parse_algorithm, HashAlgorithm};

#[test]
fn hex_encode_known_bytes() {
    assert_eq!(hex_encode(&vec![0x00u8, 0x0f, 0xa5, 0xff]), "000fa5ff");
    assert_eq!(hex_encode(&Vec::new()), "");
}

#[test]
fn sha256_known_vector() {
    let alg = parse_algorithm(&"sha256".to_string()).unwrap();
    assert_eq!(alg, HashAlgorithm::Sha256);
    let d = digest_content(alg, &b"abc".to_vec());
    assert_eq!(d, "ba7816bf8f01cfea414140de5dae2223b00361a396177a9cb410ff61f20015ad");
}

#[test]
fn sha256_empty_vector() {
    let d = digest_content(HashAlgorithm::Sha256, &Vec::new());
    assert_eq!(d, "e3b0c44298fc1c149afbf4c8996fb92427ae41e4649b934ca495991b7852b855");
}

#[test]
fn sha384_known_vector() {
    let alg = parse_algorithm(&"sha384".to_string()).unwrap();
    let d = digest_content(alg, &b"abc".to_vec());
    assert_eq!(
        d,
        "cb00753f45a35e8bb5a03d699ac65007272c32ab0eded1631a8b605a43ff5bed8086072ba1e7cc2358baeca134c825a7"
    );
}

#[test]
fn sha512_known_vector() {
    let alg = parse_algorithm(&"sha512".to_string()).unwrap();
    let d = digest_content(alg, &b"abc".to_vec());
    assert_eq!(
        d,
        "ddaf35a193617abacc417349ae20413112e6fa4e89a97ea20a9eeee64b55d39a2192992a274fc1a836ba3c23a3feebbd454d4423643ce80e2a9ac94fa54ca49f"
    );
}

#[test]
fn unsupported_algorithm_is_rejected() {
    assert!(parse_algorithm(&"md2".to_string()).is_none());
    assert!(parse_algorithm(&"md5".to_string()).is_none());
    assert!(parse_algorithm(&"".to_string()).is_none());
    assert!(parse_algorithm(&"SHA256".to_string()).is_none());
}

#[test]
fn digest_depends_on_content_alone() {
    let one = digest_content(HashAlgorithm::Sha256, &b"same bytes".to_vec());
    let two = digest_content(HashAlgorithm::Sha256, &b"same bytes".to_vec());
    assert_eq!(one, two);
    let other = digest_content(HashAlgorithm::Sha256, &b"other bytes".to_vec());
    assert_ne!(one, other);
}
