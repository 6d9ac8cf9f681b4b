//! Checksums over byte streams: MD5, SHA-1 and SHA-256, as libsolv uses them
//! for repository metadata and cache cookies.
use vstd::prelude::*;

use sha2::Digest;

use crate::sys::{SHA1_DIGEST_SIZE, SHA256_DIGEST_LENGTH};

verus! {

/// The digest algorithms a checksum can use.
#[derive(PartialEq, Eq, Structural, Clone, Copy, Debug)]
pub enum ChksumType {
    Md5,
    Sha1,
    Sha256,
}

/// The MD5 digest of `data`, as the `md-5` crate computes it.
pub uninterp spec fn md5_digest(data: Seq<u8>) -> Seq<u8>;

/// The SHA-1 digest of `data`, as the `sha1` crate computes it.
pub uninterp spec fn sha1_digest(data: Seq<u8>) -> Seq<u8>;

/// The SHA-256 digest of `data`, as the `sha2` crate computes it.
pub uninterp spec fn sha256_digest(data: Seq<u8>) -> Seq<u8>;

/// The digest of `data` under the algorithm `kind`.
pub open spec fn digest_of(kind: ChksumType, data: Seq<u8>) -> Seq<u8> {
    match kind {
        ChksumType::Md5 => md5_digest(data),
        ChksumType::Sha1 => sha1_digest(data),
        ChksumType::Sha256 => sha256_digest(data),
    }
}

/// The length in bytes of a digest under `kind`.
pub open spec fn digest_len(kind: ChksumType) -> nat {
    match kind {
        ChksumType::Md5 => 16,
        ChksumType::Sha1 => SHA1_DIGEST_SIZE as nat,
        ChksumType::Sha256 => SHA256_DIGEST_LENGTH as nat,
    }
}

/// Calls `md5::Md5::digest`, the one-shot MD5 of a byte slice. The result is
/// named by `md5_digest` over the input bytes; the crate's output type fixes
/// its length at 16 bytes.
#[verifier::external_body]
fn md5_of(data: &[u8]) -> (d: Vec<u8>)
    ensures
        d@ == md5_digest(data@),
        d@.len() == 16,
{
    md5::Md5::digest(data).to_vec()
}

/// Calls `sha1::Sha1::digest`, the one-shot SHA-1 of a byte slice. The result
/// is named by `sha1_digest` over the input bytes; the crate's output type
/// fixes its length at 20 bytes.
#[verifier::external_body]
fn sha1_of(data: &[u8]) -> (d: Vec<u8>)
    ensures
        d@ == sha1_digest(data@),
        d@.len() == 20,
{
    sha1::Sha1::digest(data).to_vec()
}

/// Calls `sha2::Sha256::digest`, the one-shot SHA-256 of a byte slice. The
/// result is named by `sha256_digest` over the input bytes; the crate's output
/// type fixes its length at 32 bytes.
#[verifier::external_body]
fn sha256_of(data: &[u8]) -> (d: Vec<u8>)
    ensures
        d@ == sha256_digest(data@),
        d@.len() == 32,
{
    sha2::Sha256::digest(data).to_vec()
}

/// Calls std's `Vec::into_boxed_slice`, which keeps the elements as they are.
#[verifier::external_body]
fn boxed_bytes(v: Vec<u8>) -> (b: Box<[u8]>)
    ensures
        b@ == v@,
{
    v.into_boxed_slice()
}

/// The bytes of the file attributes that identify a file's version: the
/// in-memory bytes of its device, inode, size and modification time, in that
/// order.
pub open spec fn stat_bytes(dev: Seq<u8>, ino: Seq<u8>, size: Seq<u8>, mtime: Seq<u8>) -> Seq<u8> {
    dev + ino + size + mtime
}

/// A checksum under way: the algorithm and the bytes fed to it so far.
pub struct Chksum {
    kind: ChksumType,
    data: Vec<u8>,
}

impl View for Chksum {
    type V = (ChksumType, Seq<u8>);

    closed spec fn view(&self) -> (ChksumType, Seq<u8>) {
        (self.kind, self.data@)
    }
}

impl Chksum {
    /// A fresh checksum under `kind`, with nothing fed to it yet.
    fn new(kind: ChksumType) -> (c: Chksum)
        ensures
            c@ == (kind, Seq::<u8>::empty()),
    {
        Chksum { kind, data: Vec::new() }
    }

    /// A fresh MD5 checksum.
    pub fn new_md5() -> (c: Chksum)
        ensures
            c@ == (ChksumType::Md5, Seq::<u8>::empty()),
    {
        Chksum::new(ChksumType::Md5)
    }

    /// A fresh SHA-1 checksum.
    pub fn new_sha1() -> (c: Chksum)
        ensures
            c@ == (ChksumType::Sha1, Seq::<u8>::empty()),
    {
        Chksum::new(ChksumType::Sha1)
    }

    /// A fresh SHA-256 checksum.
    pub fn new_sha256() -> (c: Chksum)
        ensures
            c@ == (ChksumType::Sha256, Seq::<u8>::empty()),
    {
        Chksum::new(ChksumType::Sha256)
    }

    /// The algorithm of this checksum.
    pub fn kind(&self) -> (k: ChksumType)
        ensures
            k == self@.0,
    {
        self.kind
    }

    /// Feeds `t` to the checksum.
    pub fn add(&mut self, t: &[u8])
        ensures
            final(self)@ == (old(self)@.0, old(self)@.1 + t@),
    {
        let n = t.len();
        let mut i: usize = 0;
        while i < n
            invariant
                n == t@.len(),
                0 <= i <= n,
                self.kind == old(self).kind,
                self.data@ == old(self).data@ + t@.take(i as int),
            decreases n - i,
        {
            self.data.push(t[i]);
            assert(t@.take(i as int + 1) =~= t@.take(i as int).push(t@[i as int]));
            i = i + 1;
        }
        assert(t@.take(n as int) =~= t@);
    }

    /// Feeds the attributes that identify a file's version: the in-memory
    /// bytes of its device, inode, size and modification time, each in the
    /// width and byte order the platform stores it in.
    pub fn add_stat(&mut self, dev: &[u8], ino: &[u8], size: &[u8], mtime: &[u8])
        ensures
            final(self)@ == (old(self)@.0, old(self)@.1 + stat_bytes(dev@, ino@, size@, mtime@)),
    {
        self.add(dev);
        self.add(ino);
        self.add(size);
        self.add(mtime);
        assert(self@.1 =~= old(self)@.1 + stat_bytes(dev@, ino@, size@, mtime@));
    }

    /// The digest of everything fed to the checksum.
    pub fn into_boxed_slice(self) -> (d: Box<[u8]>)
        ensures
            d@ == digest_of(self@.0, self@.1),
            d@.len() == digest_len(self@.0),
            self@.0 == ChksumType::Md5 ==> d@ == md5_digest(self@.1),
            self@.0 == ChksumType::Sha1 ==> d@ == sha1_digest(self@.1),
            self@.0 == ChksumType::Sha256 ==> d@ == sha256_digest(self@.1),
    {
        let v = match self.kind {
            ChksumType::Md5 => md5_of(self.data.as_slice()),
            ChksumType::Sha1 => sha1_of(self.data.as_slice()),
            ChksumType::Sha256 => sha256_of(self.data.as_slice()),
        };
        boxed_bytes(v)
    }
}

impl From<Chksum> for Box<[u8]> {
    /// The digest of everything fed to the checksum.
    fn from(c: Chksum) -> (d: Box<[u8]>)
        ensures
            d@ == digest_of(c@.0, c@.1),
            d@.len() == digest_len(c@.0),
    {
        c.into_boxed_slice()
    }
}

impl vstd::std_specs::convert::FromSpecImpl<Chksum> for Box<[u8]> {
    open spec fn obeys_from_spec() -> bool {
        false
    }

    open spec fn from_spec(v: Chksum) -> Box<[u8]> {
        arbitrary()
    }
}

/// A checksum's digest is the standard one-shot digest of every byte fed to
/// it, under the algorithm it was made for.
pub proof fn law_digest_is_standard(data: Seq<u8>)
    ensures
        digest_of(ChksumType::Md5, data) == md5_digest(data),
        digest_of(ChksumType::Sha1, data) == sha1_digest(data),
        digest_of(ChksumType::Sha256, data) == sha256_digest(data),
        digest_len(ChksumType::Md5) == 16,
        digest_len(ChksumType::Sha1) == 20,
        digest_len(ChksumType::Sha256) == 32,
{
}

/// Feeding bytes in pieces is feeding them at once: the digest depends only on
/// the concatenation of what was added.
pub proof fn law_add_concatenates(kind: ChksumType, data: Seq<u8>, a: Seq<u8>, b: Seq<u8>)
    ensures
        digest_of(kind, (data + a) + b) == digest_of(kind, data + (a + b)),
{
    assert((data + a) + b =~= data + (a + b));
}

} // verus!
