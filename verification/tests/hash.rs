use bip300_messages::sha256d;

#[test]
fn sha256d_of_nothing() {
    let expected: [u8; 32] = [
        0x5d, 0xf6, 0xe0, 0xe2, 0x76, 0x13, 0x59, 0xd3, 0x0a, 0x82, 0x75, 0x05, 0x8e, 0x29, 0x9f,
        0xcc, 0x03, 0x81, 0x53, 0x45, 0x45, 0xf5, 0x5c, 0xf4, 0x3e, 0x41, 0x98, 0x3f, 0x5d, 0x4c,
        0x94, 0x56,
    ];
    assert_eq!(sha256d(&[]), expected);
}

#[test]
fn sha256d_of_hello() {
    let expected: [u8; 32] = [
        0x95, 0x95, 0xc9, 0xdf, 0x90, 0x07, 0x51, 0x48, 0xeb, 0x06, 0x86, 0x03, 0x65, 0xdf, 0x33,
        0x58, 0x4b, 0x75, 0xbf, 0xf7, 0x82, 0xa5, 0x10, 0xc6, 0xcd, 0x48, 0x83, 0xa4, 0x19, 0x83,
        0x3d, 0x50,
    ];
    assert_eq!(sha256d(b"hello"), expected);
}

#[test]
fn sha256d_agrees_with_the_hash_of_the_host_chain() {
    let data: Vec<u8> = (0u8..200).collect();
    let theirs = <bitcoin::hashes::sha256d::Hash as bitcoin::hashes::Hash>::hash(&data);
    assert_eq!(sha256d(&data), bitcoin::hashes::Hash::to_byte_array(theirs));
}

#[test]
fn sha256d_is_not_the_identity_on_digests() {
    let digest: [u8; 32] = [7; 32];
    assert_ne!(sha256d(&digest), digest);
}
