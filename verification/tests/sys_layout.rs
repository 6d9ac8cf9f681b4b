use libsolv::sys::{SHA1_CTX, SHA1_DIGEST_SIZE, SHA256_CTX, SHA256_DIGEST_LENGTH, SHA512_CTX};

#[test]
fn bindgen_test_layout_SHA1_CTX() {
    assert_eq!(::core::mem::size_of::<SHA1_CTX>(), 92usize, "Size of: SHA1_CTX");
    assert_eq!(::core::mem::align_of::<SHA1_CTX>(), 4usize, "Alignment of SHA1_CTX");
    let ctx = SHA1_CTX { state: [0; 5], count: [0; 2], buffer: [0; 64] };
    assert_eq!(::core::mem::size_of_val(&ctx.state), 20usize);
    assert_eq!(::core::mem::size_of_val(&ctx.count), 8usize);
    assert_eq!(::core::mem::size_of_val(&ctx.buffer), 64usize);
}

#[test]
fn digest_sizes() {
    assert_eq!(SHA1_DIGEST_SIZE, 20);
    assert_eq!(SHA256_DIGEST_LENGTH, 32);
}

#[test]
fn sha2_contexts_hold_their_words() {
    assert_eq!(::core::mem::size_of::<SHA256_CTX>(), 32 + 8 + 64);
    assert_eq!(::core::mem::size_of::<SHA512_CTX>(), 64 + 16 + 128);
}

#[test]
fn bindgen_test_layout_MD5_CTX() {
    assert_eq!(::core::mem::size_of::<libsolv::sys::MD5_CTX>(), 240usize, "Size of: MD5_CTX");
    assert_eq!(::core::mem::align_of::<libsolv::sys::MD5_CTX>(), 8usize, "Alignment of MD5_CTX");
}

#[test]
fn bindgen_test_layout_Stringpool() {
    assert_eq!(::core::mem::size_of::<libsolv::strpool::Stringpool>(), 48usize, "Size of: Stringpool");
    assert_eq!(::core::mem::align_of::<libsolv::strpool::Stringpool>(), 8usize, "Alignment of Stringpool");
}
