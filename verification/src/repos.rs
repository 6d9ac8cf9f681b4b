//! The repositories a dependency chase works on: each operating system
//! repository with its optional source repository, where they live, and the
//! cookies that tell whether a repository's metadata changed.
use vstd::prelude::*;

use crate::chksum::{sha256_digest, stat_bytes, Chksum};

verus! {

/// The version tag that every cookie starts from, "1.1".
pub open spec fn cookie_version() -> Seq<u8> {
    seq![0x31u8, 0x2eu8, 0x31u8]
}

/// The cookie of a repository's metadata: the SHA-256 of the version tag and
/// the metadata bytes.
pub open spec fn cookie_of(data: Seq<u8>) -> Seq<u8> {
    sha256_digest(cookie_version() + data)
}

/// The extended cookie of a cache file: the SHA-256 of the version tag, the
/// metadata cookie and the file's identifying attributes.
pub open spec fn cookie_ext_of(
    cookie: Seq<u8>,
    dev: Seq<u8>,
    ino: Seq<u8>,
    size: Seq<u8>,
    mtime: Seq<u8>,
) -> Seq<u8> {
    sha256_digest(cookie_version() + cookie + stat_bytes(dev, ino, size, mtime))
}

/// The directory under which the repositories are mirrored.
pub const REPOS_BASE_DIR: &'static str = "/Users/abaxter/Projects/fedora-modularity/depchase/repos";

/// The name of the operating system repository.
pub const BASE_REPO_NAME: &'static str = "base";

/// The name of the source repository that goes with it.
pub const BASE_SOURCE_REPO_NAME: &'static str = "base-source";

/// A repository: its name and the location of its tree.
#[derive(Debug)]
pub struct BaseRepo {
    pub name: String,
    pub base_url: String,
}

impl BaseRepo {
    /// The repository called `name` whose tree is at `base_url`.
    pub fn new(name: String, base_url: String) -> (r: BaseRepo)
        ensures
            r.name@ == name@,
            r.base_url@ == base_url@,
    {
        BaseRepo { name, base_url }
    }

    /// The cookie of the metadata `data`.
    pub fn calc_cookie(data: &[u8]) -> (c: Box<[u8]>)
        ensures
            c@ == cookie_of(data@),
            c@.len() == 32,
    {
        let mut chksum = Chksum::new_sha256();
        let version: [u8; 3] = [0x31u8, 0x2eu8, 0x31u8];
        chksum.add(version.as_slice());
        chksum.add(data);
        assert(version@ == cookie_version());
        chksum.into_boxed_slice()
    }

    /// The extended cookie of a cache file made from metadata with cookie
    /// `cookie`, given the in-memory bytes of the file's device, inode, size
    /// and modification time.
    pub fn calc_cookie_ext(cookie: &[u8], dev: &[u8], ino: &[u8], size: &[u8], mtime: &[u8]) -> (c:
        Box<[u8]>)
        ensures
            c@ == cookie_ext_of(cookie@, dev@, ino@, size@, mtime@),
            c@.len() == 32,
    {
        let mut chksum = Chksum::new_sha256();
        let version: [u8; 3] = [0x31u8, 0x2eu8, 0x31u8];
        chksum.add(version.as_slice());
        chksum.add(cookie);
        chksum.add_stat(dev, ino, size, mtime);
        assert(version@ == cookie_version());
        assert(chksum@.1 =~= cookie_version() + cookie@ + stat_bytes(dev@, ino@, size@, mtime@));
        chksum.into_boxed_slice()
    }
}

/// A source repository.
#[derive(Debug)]
pub struct SourceRepo {
    pub repo: BaseRepo,
}

impl SourceRepo {
    /// The source repository called `name` whose tree is at `base_url`.
    pub fn new(name: String, base_url: String) -> (r: SourceRepo)
        ensures
            r.repo.name@ == name@,
            r.repo.base_url@ == base_url@,
    {
        SourceRepo { repo: BaseRepo::new(name, base_url) }
    }
}

/// An operating system repository with, where there is one, its source
/// repository.
#[derive(Debug)]
pub struct OsRepo {
    pub repo: BaseRepo,
    pub src_repo: Option<SourceRepo>,
}

impl OsRepo {
    /// The repository called `name` whose tree is at `base_url`, paired with
    /// `src_repo`.
    pub fn new(name: String, base_url: String, src_repo: Option<SourceRepo>) -> (r: OsRepo)
        ensures
            r.repo.name@ == name@,
            r.repo.base_url@ == base_url@,
            r.src_repo == src_repo,
    {
        OsRepo { repo: BaseRepo::new(name, base_url), src_repo }
    }

    /// Whether the repository has a source repository.
    pub fn has_src(&self) -> (b: bool)
        ensures
            b == self.src_repo is Some,
    {
        self.src_repo.is_some()
    }

    /// The source repository, if there is one.
    pub fn src(&self) -> (r: Option<&SourceRepo>)
        ensures
            r is Some <==> self.src_repo is Some,
            r is Some ==> *r->0 == self.src_repo->0,
    {
        self.src_repo.as_ref()
    }

    /// The source repository, if there is one, to change in place.
    pub fn src_mut(&mut self) -> (r: Option<&mut SourceRepo>)
        ensures
            r is Some <==> old(self).src_repo is Some,
            final(self).repo == old(self).repo,
            r is Some ==> *r->0 == old(self).src_repo->0 && final(self).src_repo == Some(
                *final(r->0),
            ),
            r is None ==> final(self).src_repo is None,
    {
        self.src_repo.as_mut()
    }
}

/// Where the operating system repository for `arch` lives.
pub fn os_base_url(arch: &str) -> (u: String)
    ensures
        u@ == REPOS_BASE_DIR@ + "/rawhide/"@ + arch@ + "/os"@,
{
    let mut u = String::from_str(REPOS_BASE_DIR);
    u.append("/rawhide/");
    u.append(arch);
    u.append("/os");
    u
}

/// Where the source repository for `arch` lives.
pub fn source_base_url(arch: &str) -> (u: String)
    ensures
        u@ == REPOS_BASE_DIR@ + "/rawhide/"@ + arch@ + "/sources"@,
{
    let mut u = String::from_str(REPOS_BASE_DIR);
    u.append("/rawhide/");
    u.append(arch);
    u.append("/sources");
    u
}

/// Where the metadata index of the repository tree at `base_path` lives.
pub fn repomd_path(base_path: &str) -> (p: String)
    ensures
        p@ == base_path@ + "/repodata/repomd.xml"@,
{
    let mut p = String::from_str(base_path);
    p.append("/repodata/repomd.xml");
    p
}

/// `name` put under `base` as a path: an absolute `name` stands alone, and a
/// `/` goes between the two unless `base` is empty or already ends in one.
pub open spec fn joined(base: Seq<char>, name: Seq<char>) -> Seq<char> {
    if name.len() > 0 && name[0] == '/' {
        name
    } else if base.len() == 0 || base.last() == '/' {
        base + name
    } else {
        base + "/"@ + name
    }
}

/// The primary metadata file a repository index names, as found by a search
/// through it: its path under `base_path`, and its checksum. Both must have
/// been found.
pub fn primary_file<C>(base_path: &str, found: (Option<String>, Option<C>)) -> (r: (String, C))
    requires
        found.1 is Some,
        found.0 is Some,
    ensures
        r.0@ == joined(base_path@, found.0->0@),
        r.1 == found.1->0,
{
    let (location, chksum) = found;
    let chksum = chksum.unwrap();
    let name = location.unwrap();
    let name = name.as_str();
    let nlen = name.unicode_len();
    if nlen > 0 && name.get_char(0) == '/' {
        return (String::from_str(name), chksum);
    }
    let blen = base_path.unicode_len();
    let mut path = String::from_str(base_path);
    if blen == 0 || base_path.get_char(blen - 1) == '/' {
        path.append(name);
    } else {
        path.append("/");
        path.append(name);
    }
    (path, chksum)
}

/// The repositories to chase dependencies through for `arch`: the operating
/// system repository, paired with the source repository that goes with it.
pub fn setup_repos(arch: &str) -> (repos: Vec<OsRepo>)
    ensures
        repos@.len() == 1,
        repos@[0].repo.name@ == BASE_REPO_NAME@,
        repos@[0].repo.base_url@ == REPOS_BASE_DIR@ + "/rawhide/"@ + arch@ + "/os"@,
        repos@[0].src_repo is Some,
        repos@[0].src_repo->0.repo.name@ == BASE_SOURCE_REPO_NAME@,
        repos@[0].src_repo->0.repo.base_url@ == REPOS_BASE_DIR@ + "/rawhide/"@ + arch@
            + "/sources"@,
{
    let source = SourceRepo::new(String::from_str(BASE_SOURCE_REPO_NAME), source_base_url(arch));
    let os = OsRepo::new(String::from_str(BASE_REPO_NAME), os_base_url(arch), Some(source));
    let mut repos: Vec<OsRepo> = Vec::new();
    repos.push(os);
    repos
}

} // verus!
