use libsolv::chksum::Chksum;
use libsolv::repos::{
    os_base_url, setup_repos, source_base_url, BaseRepo, OsRepo, SourceRepo, BASE_REPO_NAME,
    BASE_SOURCE_REPO_NAME, REPOS_BASE_DIR,
};

#[test]
fn calc_cookie_is_sha256_of_version_and_data() {
    let cookie = BaseRepo::calc_cookie(b"<repomd/>");
    let mut c = Chksum::new_sha256();
    c.add(b"1.1<repomd/>");
    assert_eq!(cookie, c.into_boxed_slice());
    assert_eq!(cookie.len(), 32);
}

#[test]
fn calc_cookie_of_nothing() {
    let cookie = BaseRepo::calc_cookie(b"");
    let hex: String = cookie.iter().map(|b| format!("{:02x}", b)).collect();
    // SHA-256 of "1.1"
    let mut c = Chksum::new_sha256();
    c.add(b"1.1");
    let expect: String = c.into_boxed_slice().iter().map(|b| format!("{:02x}", b)).collect();
    assert_eq!(hex, expect);
}

#[test]
fn calc_cookie_ext_adds_cookie_and_stat() {
    let cookie = BaseRepo::calc_cookie(b"x");
    let ext = BaseRepo::calc_cookie_ext(&cookie, &[1, 0, 0, 0, 0, 0, 0, 0], &[2, 0, 0, 0, 0, 0, 0, 0], &[3, 0, 0, 0, 0, 0, 0, 0], &[4, 0, 0, 0, 0, 0, 0, 0]);
    let mut c = Chksum::new_sha256();
    c.add(b"1.1");
    c.add(&cookie);
    c.add(&[1, 0, 0, 0, 0, 0, 0, 0, 2, 0, 0, 0, 0, 0, 0, 0]);
    c.add(&[3, 0, 0, 0, 0, 0, 0, 0, 4, 0, 0, 0, 0, 0, 0, 0]);
    assert_eq!(ext, c.into_boxed_slice());
    assert_ne!(ext, BaseRepo::calc_cookie_ext(&cookie, &[1, 0, 0, 0, 0, 0, 0, 0], &[2, 0, 0, 0, 0, 0, 0, 0], &[3, 0, 0, 0, 0, 0, 0, 0], &[5, 0, 0, 0, 0, 0, 0, 0]));
}

#[test]
fn os_repo_with_and_without_source() {
    let src = SourceRepo::new("base-source".to_string(), "/s".to_string());
    let mut os = OsRepo::new("base".to_string(), "/o".to_string(), Some(src));
    assert!(os.has_src());
    assert_eq!(os.src().unwrap().repo.name, "base-source");
    os.src_mut().unwrap().repo.base_url = "/t".to_string();
    assert_eq!(os.src().unwrap().repo.base_url, "/t");
    let bare = OsRepo::new("x".to_string(), "/x".to_string(), None);
    assert!(!bare.has_src());
    assert!(bare.src().is_none());
}

#[test]
fn urls_put_arch_in_place() {
    assert_eq!(os_base_url("x86_64"), format!("{}/rawhide/x86_64/os", REPOS_BASE_DIR));
    assert_eq!(source_base_url("aarch64"), format!("{}/rawhide/aarch64/sources", REPOS_BASE_DIR));
}

#[test]
fn setup_repos_pairs_base_with_its_source() {
    let repos = setup_repos("x86_64");
    assert_eq!(repos.len(), 1);
    assert_eq!(repos[0].repo.name, BASE_REPO_NAME);
    assert_eq!(repos[0].repo.base_url, os_base_url("x86_64"));
    let src = repos[0].src().unwrap();
    assert_eq!(src.repo.name, BASE_SOURCE_REPO_NAME);
    assert_eq!(src.repo.base_url, source_base_url("x86_64"));
}

#[test]
fn repomd_path_is_under_repodata() {
    assert_eq!(libsolv::repos::repomd_path("/srv/os"), "/srv/os/repodata/repomd.xml");
}

#[test]
fn primary_file_joins_like_a_path() {
    let (p, c) = libsolv::repos::primary_file("/srv/os", (Some("repodata/p.xml.gz".to_string()), Some(7)));
    assert_eq!(p, "/srv/os/repodata/p.xml.gz");
    assert_eq!(c, 7);
    let (p, _) = libsolv::repos::primary_file("/srv/os/", (Some("p.xml".to_string()), Some(0)));
    assert_eq!(p, "/srv/os/p.xml");
    let (p, _) = libsolv::repos::primary_file("/srv/os", (Some("/abs/p.xml".to_string()), Some(0)));
    assert_eq!(p, "/abs/p.xml");
    let (p, _) = libsolv::repos::primary_file("", (Some("p.xml".to_string()), Some(0)));
    assert_eq!(p, "p.xml");
    let mut buf = std::path::PathBuf::new();
    buf.push("/srv/os");
    buf.push("repodata/p.xml.gz");
    assert_eq!(buf.to_str().unwrap(), "/srv/os/repodata/p.xml.gz");
}
