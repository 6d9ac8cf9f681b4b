use libsolv::strpool::{Stringpool, STRID_EMPTY, STRID_NULL};

#[test]
fn empty_pool_holds_null_and_empty() {
    let p = Stringpool::init_empty();
    assert_eq!(p.nstrings(), 2);
    assert_eq!(p.sstrings(), 8);
    assert_eq!(p.id2str(STRID_NULL), b"<NULL>");
    assert_eq!(p.id2str(STRID_EMPTY), b"");
}

#[test]
fn str2id_interns_once() {
    let mut p = Stringpool::init_empty();
    let a = p.str2id(b"x86_64", true);
    assert_eq!(a, 2);
    let b = p.str2id(b"noarch", true);
    assert_eq!(b, 3);
    assert_eq!(p.str2id(b"x86_64", true), a);
    assert_eq!(p.str2id(b"x86_64", false), a);
    assert_eq!(p.id2str(a), b"x86_64");
    assert_eq!(p.id2str(b), b"noarch");
    assert_eq!(p.nstrings(), 4);
    assert_eq!(p.sstrings(), 8 + 7 + 7);
}

#[test]
fn str2id_without_create_does_not_add() {
    let mut p = Stringpool::init_empty();
    assert_eq!(p.str2id(b"missing", false), STRID_NULL);
    assert_eq!(p.nstrings(), 2);
    assert_eq!(p.sstrings(), 8);
}

#[test]
fn empty_string_is_always_id_one() {
    let mut p = Stringpool::init_empty();
    assert_eq!(p.str2id(b"", true), STRID_EMPTY);
    assert_eq!(p.str2id(b"", false), STRID_EMPTY);
    assert_eq!(p.nstrings(), 2);
}

#[test]
fn null_name_gets_a_fresh_id() {
    let mut p = Stringpool::init_empty();
    let id = p.str2id(b"<NULL>", true);
    assert_eq!(id, 2);
    assert_eq!(p.id2str(id), b"<NULL>");
}
