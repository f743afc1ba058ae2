use gungnir::format::HashAlgorithm;
use gungnir::hasher::{digest, digest_chunks, Hasher};

fn digest_hex(bytes: &[u8]) -> String {
    let mut text = String::new();
    for byte in bytes {
        text.push_str(&format!("{:02x}", byte));
    }
    text
}

fn all_hash_algorithms() -> Vec<HashAlgorithm> {
    vec![
        HashAlgorithm::Blake3,
        HashAlgorithm::Sha2_384,
        HashAlgorithm::Sha2_512,
        HashAlgorithm::Sha3_384,
        HashAlgorithm::Sha3_512,
    ]
}

#[test]
fn hash_len_follows_the_table() {
    assert_eq!(HashAlgorithm::Blake3.hash_len(), 32);
    assert_eq!(HashAlgorithm::Sha2_384.hash_len(), 48);
    assert_eq!(HashAlgorithm::Sha2_512.hash_len(), 64);
    assert_eq!(HashAlgorithm::Sha3_384.hash_len(), 48);
    assert_eq!(HashAlgorithm::Sha3_512.hash_len(), 64);
}

#[test]
fn hash_ids_are_stable() {
    assert_eq!(HashAlgorithm::Blake3.id(), 1);
    assert_eq!(HashAlgorithm::Sha2_384.id(), 2);
    assert_eq!(HashAlgorithm::Sha2_512.id(), 3);
    assert_eq!(HashAlgorithm::Sha3_384.id(), 4);
    assert_eq!(HashAlgorithm::Sha3_512.id(), 5);
    for algorithm in all_hash_algorithms() {
        assert_eq!(HashAlgorithm::from_id(algorithm.id()), Some(algorithm));
    }
    assert_eq!(HashAlgorithm::from_id(0), None);
    assert_eq!(HashAlgorithm::from_id(6), None);
    assert_eq!(HashAlgorithm::from_id(255), None);
}

#[test]
fn default_hash_algorithm_is_blake3() {
    assert_eq!(HashAlgorithm::default(), HashAlgorithm::Blake3);
}

#[test]
fn blake3_matches_known_digests() {
    assert_eq!(
        digest_hex(&digest(HashAlgorithm::Blake3, b"")),
        "af1349b9f5f9a1a6a0404dea36dcc9499bcb25c9adc112b7cc9a93cae41f3262"
    );
    assert_eq!(
        digest_hex(&digest(HashAlgorithm::Blake3, b"abc")),
        "6437b3ac38465133ffb63b75273a8db548c558465d79db03fd359c6cd5bd9d85"
    );
}

#[test]
fn sha2_384_matches_known_digests() {
    assert_eq!(
        digest_hex(&digest(HashAlgorithm::Sha2_384, b"abc")),
        "cb00753f45a35e8bb5a03d699ac65007272c32ab0eded1631a8b605a43ff5bed8086072ba1e7cc2358baeca134c825a7"
    );
    assert_eq!(
        digest_hex(&digest(HashAlgorithm::Sha2_384, b"")),
        "38b060a751ac96384cd9327eb1b1e36a21fdb71114be07434c0cc7bf63f6e1da274edebfe76f65fbd51ad2f14898b95b"
    );
}

#[test]
fn sha2_512_matches_known_digests() {
    assert_eq!(
        digest_hex(&digest(HashAlgorithm::Sha2_512, b"abc")),
        "ddaf35a193617abacc417349ae20413112e6fa4e89a97ea20a9eeee64b55d39a2192992a274fc1a836ba3c23a3feebbd454d4423643ce80e2a9ac94fa54ca49f"
    );
    assert_eq!(
        digest_hex(&digest(HashAlgorithm::Sha2_512, b"")),
        "cf83e1357eefb8bdf1542850d66d8007d620e4050b5715dc83f4a921d36ce9ce47d0d13c5d85f2b0ff8318d2877eec2f63b931bd47417a81a538327af927da3e"
    );
}

#[test]
fn sha3_384_matches_known_digests() {
    assert_eq!(
        digest_hex(&digest(HashAlgorithm::Sha3_384, b"abc")),
        "ec01498288516fc926459f58e2c6ad8df9b473cb0fc08c2596da7cf0e49be4b298d88cea927ac7f539f1edf228376d25"
    );
    assert_eq!(
        digest_hex(&digest(HashAlgorithm::Sha3_384, b"")),
        "0c63a75b845e4f7d01107d852e4c2485c51a50aaaa94fc61995e71bbee983a2ac3713831264adb47fb6bd1e058d5f004"
    );
}

#[test]
fn sha3_512_matches_known_digests() {
    assert_eq!(
        digest_hex(&digest(HashAlgorithm::Sha3_512, b"abc")),
        "b751850b1a57168a5693cd924b6b096e08f621827444f70d884f5d0240d2712e10e116e9192af3c91a7ec57647e3934057340b4cf408d5a56592f8274eec53f0"
    );
    assert_eq!(
        digest_hex(&digest(HashAlgorithm::Sha3_512, b"")),
        "a69f73cca23a9ac5c8b567dc185a756e97c982164fe25859e0d1dcc1475c80a615b2123af1f5f94c11e3e9402c3ac558f500199d95b6d3e301758586281dcd26"
    );
}

#[test]
fn digest_length_is_the_algorithms() {
    for algorithm in all_hash_algorithms() {
        assert_eq!(digest(algorithm, b"some content").len(), algorithm.hash_len());
        assert_eq!(Hasher::from(algorithm).finish().len(), algorithm.hash_len());
    }
}

#[test]
fn hasher_reports_its_algorithm() {
    for algorithm in all_hash_algorithms() {
        assert_eq!(Hasher::from(algorithm).algorithm(), algorithm);
        assert_eq!(Hasher::new(algorithm).algorithm(), algorithm);
    }
}

#[test]
fn chunking_does_not_change_the_digest() {
    let content: Vec<u8> = (0..5000u32).map(|i| (i % 251) as u8).collect();
    for algorithm in all_hash_algorithms() {
        let whole = digest(algorithm, &content);

        let mut in_two = Hasher::from(algorithm);
        in_two.update(&content[..1234]);
        in_two.update(&content[1234..]);
        assert_eq!(in_two.finish(), whole);

        let mut byte_by_byte = Hasher::from(algorithm);
        for byte in &content {
            byte_by_byte.update(&[*byte]);
        }
        assert_eq!(byte_by_byte.finish(), whole);

        let mut with_empty_pieces = Hasher::from(algorithm);
        with_empty_pieces.update(&[]);
        with_empty_pieces.update(&content);
        with_empty_pieces.update(&[]);
        assert_eq!(with_empty_pieces.finish(), whole);
    }
}

#[test]
fn digest_chunks_is_the_digest_of_the_whole() {
    let chunks: Vec<Vec<u8>> = vec![b"foo".to_vec(), Vec::new(), b"bar".to_vec(), b"baz".to_vec()];
    for algorithm in all_hash_algorithms() {
        assert_eq!(digest_chunks(algorithm, &chunks), digest(algorithm, b"foobarbaz"));
        assert_eq!(digest_chunks(algorithm, &[]), digest(algorithm, b""));
    }
}

#[test]
fn different_input_gives_a_different_digest() {
    for algorithm in all_hash_algorithms() {
        assert_ne!(digest(algorithm, b"content"), digest(algorithm, b"contenu"));
        assert_ne!(digest(algorithm, b"content"), b"content".to_vec());
    }
}

#[test]
fn algorithms_give_different_digests() {
    assert_ne!(digest(HashAlgorithm::Sha2_384, b"x"), digest(HashAlgorithm::Sha3_384, b"x"));
    assert_ne!(digest(HashAlgorithm::Sha2_512, b"x"), digest(HashAlgorithm::Sha3_512, b"x"));
}
