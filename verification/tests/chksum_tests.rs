use libsolv::chksum::{Chksum, ChksumType};

fn hex(d: &[u8]) -> String {
    d.iter().map(|b| format!("{:02x}", b)).collect()
}

#[test]
fn md5_of_nothing() {
    let c = Chksum::new_md5();
    assert_eq!(c.kind(), ChksumType::Md5);
    assert_eq!(hex(&c.into_boxed_slice()), "d41d8cd98f00b204e9800998ecf8427e");
}

#[test]
fn sha1_of_abc() {
    let mut c = Chksum::new_sha1();
    c.add(b"abc");
    let d = c.into_boxed_slice();
    assert_eq!(d.len(), 20);
    assert_eq!(hex(&d), "a9993e364706816aba3e25717850c26c9cd0d89d");
}

#[test]
fn sha256_of_abc() {
    let mut c = Chksum::new_sha256();
    c.add(b"abc");
    let d = c.into_boxed_slice();
    assert_eq!(d.len(), 32);
    assert_eq!(hex(&d), "ba7816bf8f01cfea414140de5dae2223b00361a396177a9cb410ff61f20015ad");
}

#[test]
fn adding_in_pieces_is_adding_at_once() {
    let mut a = Chksum::new_sha256();
    a.add(b"1.");
    a.add(b"");
    a.add(b"1abc");
    let mut b = Chksum::new_sha256();
    b.add(b"1.1abc");
    assert_eq!(a.into_boxed_slice(), b.into_boxed_slice());
}

#[test]
fn add_stat_feeds_each_field_in_turn() {
    let mut a = Chksum::new_md5();
    a.add_stat(&0x0102u64.to_ne_bytes(), &7u64.to_ne_bytes(), &(-1i64).to_ne_bytes(), &[9, 8, 7, 6]);
    let mut b = Chksum::new_md5();
    b.add(&0x0102u64.to_ne_bytes());
    b.add(&7u64.to_ne_bytes());
    b.add(&[0xff; 8]);
    b.add(&[9, 8, 7, 6]);
    assert_eq!(a.into_boxed_slice(), b.into_boxed_slice());
}

#[test]
fn different_data_gives_different_digests() {
    let mut a = Chksum::new_md5();
    a.add(b"a");
    let mut b = Chksum::new_md5();
    b.add(b"b");
    assert_ne!(a.into_boxed_slice(), b.into_boxed_slice());
}

#[test]
fn into_boxed_slice_by_into() {
    let mut c = Chksum::new_sha1();
    c.add(b"abc");
    let d: Box<[u8]> = c.into();
    assert_eq!(hex(&d), "a9993e364706816aba3e25717850c26c9cd0d89d");
}
