//! The digest contexts of libsolv's own hash implementations, with the sizes
//! of their blocks and digests.
use vstd::prelude::*;

verus! {

/// The length in bytes of a SHA-1 digest.
pub const SHA1_DIGEST_SIZE: usize = 20;

/// The block length in bytes of SHA-224.
pub const SHA224_BLOCK_LENGTH: usize = 64;

/// The length in bytes of a SHA-224 digest.
pub const SHA224_DIGEST_LENGTH: usize = 28;

/// The block length in bytes of SHA-256.
pub const SHA256_BLOCK_LENGTH: usize = 64;

/// The length in bytes of a SHA-256 digest.
pub const SHA256_DIGEST_LENGTH: usize = 32;

/// The block length in bytes of SHA-384.
pub const SHA384_BLOCK_LENGTH: usize = 128;

/// The length in bytes of a SHA-384 digest.
pub const SHA384_DIGEST_LENGTH: usize = 48;

/// The block length in bytes of SHA-512.
pub const SHA512_BLOCK_LENGTH: usize = 128;

/// The length in bytes of a SHA-512 digest.
pub const SHA512_DIGEST_LENGTH: usize = 64;

/// The state of a SHA-1 computation: the five chaining words, the bit count
/// in two words, and the partial block.
#[allow(non_camel_case_types)]
pub struct SHA1_CTX {
    pub state: [u32; 5],
    pub count: [u32; 2],
    pub buffer: [u8; 64],
}

/// The state of a SHA-224 or SHA-256 computation: the eight chaining words,
/// the bit count, and the partial block as sixteen words.
#[allow(non_camel_case_types)]
pub struct SHA256_CTX {
    pub state: [u32; 8],
    pub bitcount: u64,
    pub buffer: [u32; 16],
}

/// The state of a SHA-384 or SHA-512 computation: the eight chaining words,
/// the bit count in two words, and the partial block as sixteen words.
#[allow(non_camel_case_types)]
pub struct SHA512_CTX {
    pub state: [u64; 8],
    pub bitcount: [u64; 2],
    pub buffer: [u64; 16],
}

/// SHA-224 runs on the SHA-256 state.
#[allow(non_camel_case_types)]
pub type SHA224_CTX = SHA256_CTX;

/// SHA-384 runs on the SHA-512 state.
#[allow(non_camel_case_types)]
pub type SHA384_CTX = SHA512_CTX;

/// The state of an MD5 computation: the 64-bit byte count in two halves, the
/// four chaining words, the partial block, and the decoded block.
#[allow(non_camel_case_types)]
pub struct MD5_CTX {
    pub lo: u64,
    pub hi: u64,
    pub a: u64,
    pub b: u64,
    pub c: u64,
    pub d: u64,
    pub buffer: [u8; 64],
    pub block: [u64; 16],
}

} // verus!
