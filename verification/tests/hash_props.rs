use seahasher::hash;
use seahasher::hash_seeded;
use seahasher::hex_encode;
use seahasher::u64_to_be_bytes;
use seahasher::SEED_A;
use seahasher::SEED_B;
use seahasher::SEED_C;
use seahasher::SEED_D;

#[test]
fn determinism_same_input_twice() {
    let inputs: Vec<&[u8]> = vec![b"", b"a", b"abcdefgh", b"the quick brown fox"];
    for s in inputs {
        assert_eq!(hash(s), hash(s));
        assert_eq!(hash_seeded(s, 1, 2, 3, 4), hash_seeded(s, 1, 2, 3, 4));
    }
}

#[test]
fn concrete_vector_empty() {
    assert_eq!(hash(b""), 14492805990617963705);
}

#[test]
fn concrete_vector_one_byte() {
    assert_eq!(hash(b"a"), 3009532316786026829);
}

#[test]
fn concrete_vector_one_block() {
    assert_eq!(hash(b"abcdefgh"), 1524554436498563858);
}

#[test]
fn concrete_vector_block_and_tail() {
    assert_eq!(hash(b"abcdefghi"), 8749113964949376806);
}

#[test]
fn concrete_vector_shakespear() {
    assert_eq!(hash(b"to be or not to be"), 1988685042348123509);
}

#[test]
fn concrete_vector_seeded() {
    assert_eq!(hash_seeded(b"abc", 1, 2, 3, 4), 906940509987577563);
}

#[test]
fn default_seed_equivalence() {
    let inputs: Vec<&[u8]> = vec![b"", b"a", b"abcdefgh", b"abcdefghi", b"some longer input x"];
    for s in inputs {
        assert_eq!(hash_seeded(s, SEED_A, SEED_B, SEED_C, SEED_D), hash(s));
    }
}

#[test]
fn seed_sensitivity_sample() {
    let inputs: Vec<&[u8]> = vec![b"", b"a", b"abcdefgh", b"hello world, hello world"];
    // A simple deterministic generator for a corpus of non-default seeds.
    let mut x: u64 = 0x9e3779b97f4a7c15;
    for _ in 0..32 {
        let a = x;
        x = x.wrapping_mul(6364136223846793005).wrapping_add(1442695040888963407);
        let b = x;
        x = x.wrapping_mul(6364136223846793005).wrapping_add(1442695040888963407);
        let c = x;
        x = x.wrapping_mul(6364136223846793005).wrapping_add(1442695040888963407);
        let d = x;
        x = x.wrapping_mul(6364136223846793005).wrapping_add(1442695040888963407);
        assert!((a, b, c, d) != (SEED_A, SEED_B, SEED_C, SEED_D));
        for s in &inputs {
            assert_ne!(hash_seeded(s, a, b, c, d), hash(s));
        }
    }
}

#[test]
fn trailing_zeros_change_the_hash() {
    assert_ne!(hash(b""), hash(b"\0"));
    assert_ne!(hash(&[0u8; 7]), hash(&[0u8; 8]));
    assert_ne!(hash(&[0u8; 8]), hash(&[0u8; 9]));
    assert_ne!(hash(b"ab"), hash(b"ab\0"));
}

#[test]
fn matches_reference_crate_one_shot() {
    let mut buf: Vec<u8> = Vec::new();
    for i in 0..100u32 {
        assert_eq!(hash(&buf), seahash::hash(&buf));
        assert_eq!(
            hash_seeded(&buf, 11, 22, 33, 44),
            seahash::hash_seeded(&buf, 11, 22, 33, 44)
        );
        buf.push((i * 37 + 11) as u8);
    }
}

#[test]
fn hex_encode_known_bytes() {
    assert_eq!(hex_encode(&[]), "");
    assert_eq!(hex_encode(&[0x00]), "00");
    assert_eq!(hex_encode(&[0x00, 0x0f, 0xa5, 0xff]), "000fa5ff");
    assert_eq!(hex_encode(&[0x12, 0x34, 0xcd]), "1234cd");
}

#[test]
fn u64_to_be_bytes_known() {
    assert_eq!(
        u64_to_be_bytes(0x0123456789abcdef),
        vec![0x01, 0x23, 0x45, 0x67, 0x89, 0xab, 0xcd, 0xef]
    );
    assert_eq!(u64_to_be_bytes(0), vec![0; 8]);
    assert_eq!(u64_to_be_bytes(u64::MAX), vec![0xff; 8]);
}
