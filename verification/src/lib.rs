//! Verified building blocks of small services: the messages and server
//! decisions of a key-value service, a line search over text, and a
//! proof-of-work engine hashing blocks with BLAKE3 together with the
//! decisions of the gRPC service in front of it.
pub mod kv;
pub mod minigrep;
pub mod pow;
