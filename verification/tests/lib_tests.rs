use libsolv::Id;

#[test]
fn it_works() {}

#[test]
fn id_is_a_c_int() {
    let id: Id = -1;
    assert_eq!(std::mem::size_of::<Id>(), 4);
    assert!(id < 0);
}
