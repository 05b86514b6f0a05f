//! A uniform interface to incremental hash functions.
//!
//! A hasher absorbs a message piece by piece ([`Input`]) and turns what it
//! has absorbed into an output of fixed length ([`FixedOutput`]). Any hasher
//! that also starts out empty ([`FreshDefault`]) has the [`Digest`] interface
//! on top: one-shot hashing of bytes and text, the size query, and hashing of
//! a byte source block by block ([`DigestReader`]). [`XorFold`] is a small
//! hasher that has it all.
//!
//! Every contract is stated over the view of a hasher, the message it has
//! absorbed since it was made or last gave its output, and over the function
//! from messages to outputs that the hasher type computes.

pub mod capability;
pub mod digest;
pub mod reader;
pub mod xor_fold;

pub use capability::{FixedOutput, FreshDefault, Input};
pub use digest::Digest;
pub use reader::{DigestReader, Step, BLOCK_SIZE};
pub use xor_fold::XorFold;
