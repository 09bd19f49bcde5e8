use std::hash::Hasher;

use seahasher::decide_ingest;
use seahasher::hash;
use seahasher::hash_seeded;
use seahasher::hex_encode;
use seahasher::IngestPath;
use seahasher::SeaHash;
use seahasher::SuppliedKind;
use seahasher::BLOCK_SIZE;
use seahasher::DIGEST_SIZE;

#[test]
fn declared_sizes() {
    assert_eq!(BLOCK_SIZE, 8);
    assert_eq!(DIGEST_SIZE, 8);
}

#[test]
fn chunking_invariance_partitions() {
    let s: &[u8] = b"the quick brown fox jumps over the lazy dog";
    let expected = hash(s);

    // One call with the entire input.
    let mut h = SeaHash::new(b"");
    h.update(s);
    assert_eq!(h.intdigest(), expected);

    // One call per byte.
    let mut h = SeaHash::new(b"");
    for b in s {
        h.update(&[*b]);
    }
    assert_eq!(h.intdigest(), expected);

    // Splits at every boundary, including block boundaries.
    for cut in 0..=s.len() {
        let mut h = SeaHash::new(b"");
        h.update(&s[..cut]);
        h.update(&s[cut..]);
        assert_eq!(h.intdigest(), expected);
    }

    // Irregular chunks with empty updates in between.
    let mut h = SeaHash::new(b"");
    h.update(&s[..3]);
    h.update(b"");
    h.update(&s[3..20]);
    h.update(&s[20..21]);
    h.update(b"");
    h.update(&s[21..]);
    assert_eq!(h.intdigest(), expected);

    // The initial bytes given at construction count as consumed input.
    let mut h = SeaHash::new(&s[..10]);
    h.update(&s[10..]);
    assert_eq!(h.intdigest(), expected);
}

#[test]
fn empty_update_is_a_noop() {
    let mut h = SeaHash::new(b"abc");
    let before = h.intdigest();
    h.update(b"");
    assert_eq!(h.intdigest(), before);
    assert_eq!(SeaHash::new(b"").intdigest(), hash(b""));
}

#[test]
fn copy_independence() {
    let mut h1 = SeaHash::new(b"");
    h1.update(b"abc");
    let mut h2 = h1.copy();
    h2.update(b"def");
    h1.update(b"xyz");
    assert_eq!(h1.intdigest(), hash(b"abcxyz"));
    assert_eq!(h2.intdigest(), hash(b"abcdef"));
    assert_eq!(h1.intdigest(), 16726382625420397224);
    assert_eq!(h2.intdigest(), 7435861961258083411);
}

#[test]
fn copy_agrees_at_the_moment_of_copy() {
    let mut h1 = SeaHash::new(b"partial block plus");
    let h2 = h1.copy();
    assert_eq!(h1.intdigest(), h2.intdigest());
    assert_eq!(h1.digest(), h2.digest());
    assert_eq!(h1.hexdigest(), h2.hexdigest());
    h1.update(b"!");
    assert_ne!(h1.intdigest(), h2.intdigest());
}

#[test]
fn format_consistency() {
    let inputs: Vec<&[u8]> = vec![b"", b"abc", b"abcdefgh", b"abcdefghijklmnopq"];
    for s in inputs {
        let h = SeaHash::new(s);
        let digest = h.digest();
        assert_eq!(h.hexdigest(), hex_encode(&digest));
        assert_eq!(h.intdigest().to_be_bytes().to_vec(), digest);
        assert_eq!(digest.len(), usize::from(DIGEST_SIZE));
    }
}

#[test]
fn hexdigest_is_lowercase_and_sixteen_chars() {
    let h = SeaHash::new(b"abc");
    let hex = h.hexdigest();
    assert_eq!(hex.len(), 16);
    assert!(hex.chars().all(|c| c.is_ascii_digit() || ('a'..='f').contains(&c)));
    assert_eq!(hex, "80796d63c232ed86");
    assert_eq!(SeaHash::new(b"").hexdigest(), "c920ca43256fdcb9");
}

#[test]
fn idempotent_reads() {
    let mut h = SeaHash::new(b"abcdefghi");
    let d1 = h.digest();
    let d2 = h.digest();
    let d3 = h.digest();
    assert_eq!(d1, d2);
    assert_eq!(d2, d3);
    assert_eq!(h.intdigest(), h.intdigest());
    assert_eq!(h.hexdigest(), h.hexdigest());
    // Reads do not disturb later input either.
    h.update(b"jkl");
    assert_eq!(h.intdigest(), hash(b"abcdefghijkl"));
}

#[test]
fn streaming_with_seeds_matches_one_shot_seeded() {
    let s: &[u8] = b"seeded streaming input of odd length..";
    let mut h = SeaHash::with_seeds(b"", 5, 6, 7, 8);
    h.update(&s[..13]);
    h.update(&s[13..]);
    assert_eq!(h.intdigest(), hash_seeded(s, 5, 6, 7, 8));
}

#[test]
fn matches_reference_crate_streaming() {
    let mut buf: Vec<u8> = Vec::new();
    for i in 0..80u32 {
        let mut ours = SeaHash::with_seeds(b"", 9, 8, 7, 6);
        let mut theirs = seahash::SeaHasher::with_seeds(9, 8, 7, 6);
        let cut = buf.len() / 3;
        ours.update(&buf[..cut]);
        ours.update(&buf[cut..]);
        theirs.write(&buf[..cut]);
        theirs.write(&buf[cut..]);
        assert_eq!(ours.intdigest(), theirs.finish());
        buf.push((i * 101 + 7) as u8);
    }
}

#[test]
fn ingest_decisions() {
    let owned = decide_ingest(SuppliedKind::ByteSequence);
    assert_eq!(owned.path, IngestPath::OwnedCopy);
    assert!(owned.release_exec_lock);

    let borrowed = decide_ingest(SuppliedKind::ReadOnlyView);
    assert_eq!(borrowed.path, IngestPath::BorrowedView);
    assert!(!borrowed.release_exec_lock);

    let rejected = decide_ingest(SuppliedKind::Other);
    assert_eq!(rejected.path, IngestPath::Reject);
    assert!(!rejected.release_exec_lock);
}

#[test]
fn update_checked_rejects_without_mutation() {
    let mut h = SeaHash::new(b"ab");
    let before = h.intdigest();
    let r = h.update_checked(SuppliedKind::Other, b"zzz");
    let err = r.unwrap_err();
    assert_eq!(err.message(), "Expected a bytes-like object.");
    assert_eq!(h.intdigest(), before);

    assert!(h.update_checked(SuppliedKind::ByteSequence, b"c").is_ok());
    assert_eq!(h.intdigest(), hash(b"abc"));

    let mut h2 = SeaHash::new(b"ab");
    assert!(h2.update_checked(SuppliedKind::ReadOnlyView, b"c").is_ok());
    assert_eq!(h2.intdigest(), hash(b"abc"));
}
