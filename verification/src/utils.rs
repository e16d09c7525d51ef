pub mod bytes32;
pub mod compression;
pub mod merkle;
pub mod hashing;
