//! A verified implementation of the SeaHash 64-bit non-cryptographic hash:
//! one-shot and seeded hashing over byte buffers, a streaming hasher that is
//! chunking-invariant and cheaply duplicable, and digest extraction in
//! binary, hex, and integer form.
pub mod encode;
pub mod hashing;
pub mod ingest;
pub mod laws;
pub mod model;
pub mod stream;

pub use encode::hex_encode;
pub use encode::u64_to_be_bytes;
pub use hashing::hash;
pub use hashing::hash_seeded;
pub use ingest::decide_ingest;
pub use ingest::IngestDecision;
pub use ingest::IngestPath;
pub use ingest::SuppliedKind;
pub use ingest::UpdateError;
pub use stream::SeaHash;
pub use model::BLOCK_SIZE;
pub use model::DIGEST_SIZE;
pub use model::SEED_A;
pub use model::SEED_B;
pub use model::SEED_C;
pub use model::SEED_D;
