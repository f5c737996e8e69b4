use sim_connect_rs::registration::RegistrationTable;

#[test]
fn distinct_identities_get_ids_in_call_order() {
    let mut table = RegistrationTable::new();
    assert_eq!(table.len(), 0);
    assert_eq!(table.register("app::Position"), 0);
    assert_eq!(table.register("app::Fuel"), 1);
    assert_eq!(table.register("app::Lights"), 2);
    assert_eq!(table.register("other::Position"), 3);
    assert_eq!(table.len(), 4);
}

#[test]
fn registering_again_returns_the_same_id() {
    let mut table = RegistrationTable::new();
    assert_eq!(table.register("app::Position"), 0);
    assert_eq!(table.register("app::Fuel"), 1);
    assert_eq!(table.register("app::Position"), 0);
    assert_eq!(table.register("app::Position"), 0);
    assert_eq!(table.len(), 2);
    assert_eq!(table.register("app::Lights"), 2);
    assert_eq!(table.register("app::Fuel"), 1);
    assert_eq!(table.len(), 3);
}

#[test]
fn lookup_finds_what_was_registered() {
    let mut table = RegistrationTable::new();
    assert_eq!(table.lookup("app::Position"), None);
    table.register("app::Position");
    table.register("app::Fuel");
    assert_eq!(table.lookup("app::Position"), Some(0));
    assert_eq!(table.lookup("app::Fuel"), Some(1));
    assert_eq!(table.lookup("app::Lights"), None);
    assert_eq!(table.lookup(""), None);
}

#[test]
fn identities_are_compared_exactly() {
    let mut table = RegistrationTable::new();
    assert_eq!(table.register("app::Position"), 0);
    assert_eq!(table.register("app::position"), 1);
    assert_eq!(table.register("app::Position "), 2);
    assert_eq!(table.register(""), 3);
    assert_eq!(table.lookup("APP::POSITION"), None);
    assert_eq!(table.lookup(""), Some(3));
}

#[test]
fn many_identities_count_up() {
    let mut table = RegistrationTable::new();
    for i in 0..200u32 {
        assert_eq!(table.register(&format!("app::T{}", i)), i);
    }
    for i in (0..200u32).rev() {
        assert_eq!(table.register(&format!("app::T{}", i)), i);
        assert_eq!(table.lookup(&format!("app::T{}", i)), Some(i));
    }
    assert_eq!(table.len(), 200);
}
