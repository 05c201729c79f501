use chibi_engine::id::{Id, IdSystem, IdError};

#[test]
fn id_compose() {
    println!("Hellow world");

    let mut index = 0;
    let mut gen = 0;
    let mut id = Id::new(index, gen);

    assert_eq!(id.get_index(), index);
    assert_eq!(id.get_generation(), gen);
    assert_eq!(IdSystem::is_free_generation(gen), true);
    assert_eq!(IdSystem::is_live_generation(gen), false);

    index = 1;
    gen = 0;
    id = Id::new(index, gen);

    assert_eq!(id.get_index(), index);
    assert_eq!(id.get_generation(), gen);
    assert_eq!(IdSystem::is_free_generation(gen), true);
    assert_eq!(IdSystem::is_live_generation(gen), false);

    index = 1;
    gen = 1;
    id = Id::new(index, gen);

    assert_eq!(id.get_index(), index);
    assert_eq!(id.get_generation(), gen);
    assert_eq!(IdSystem::is_free_generation(gen), false);
    assert_eq!(IdSystem::is_live_generation(gen), true);

    index = 10;
    gen = 2;
    id = Id::new(index, gen);

    assert_eq!(id.get_index(), index);
    assert_eq!(id.get_generation(), gen);
    assert_eq!(IdSystem::is_free_generation(gen), true);
    assert_eq!(IdSystem::is_live_generation(gen), false);
}

#[test]
fn id_fields_round_trip_at_the_top_of_the_ranges() {
    let id = Id::new(0xFFFF_FFFF_FFFF, 0xFFFF);
    assert_eq!(id.get_index(), 0xFFFF_FFFF_FFFF);
    assert_eq!(id.get_generation(), 0xFFFF);
    assert_eq!(id.0, u64::MAX);
    assert_eq!(Id::invalid().0, u64::MAX);
}

#[test]
fn id_alloc_then_free_makes_the_id_stale() {
    let mut ids = IdSystem::new(100);
    let a = ids.alloc_id().unwrap();
    assert_eq!(a.get_index(), 0);
    assert_eq!(a.get_generation(), 1);
    assert!(ids.is_id_valid(a));
    ids.free_id(a);
    assert!(!ids.is_id_valid(a));
    // freeing twice changes nothing
    ids.free_id(a);
    assert!(!ids.is_id_valid(a));
    let b = ids.alloc_id().unwrap();
    assert_eq!(b.get_index(), 1);
    assert!(ids.is_id_valid(b));
    assert!(!ids.is_id_valid(a));
}

#[test]
fn id_system_recycles_when_full() {
    let mut ids = IdSystem::new(3);
    let a = ids.alloc_id().unwrap();
    let b = ids.alloc_id().unwrap();
    assert_eq!(a.get_index(), 0);
    assert_eq!(b.get_index(), 1);
    // the table may not grow to the capacity, and nothing is free
    assert_eq!(ids.alloc_id(), Err(IdError::OutOfSpace));
    ids.free_id(a);
    let c = ids.alloc_id().unwrap();
    assert_eq!(c.get_index(), 0);
    assert_eq!(c.get_generation(), 3);
    assert!(ids.is_id_valid(c));
    assert!(!ids.is_id_valid(a));
}

#[test]
fn id_generation_helpers() {
    assert_eq!(IdSystem::mark_generation_as_alive(4), 5);
    assert_eq!(IdSystem::mark_generation_as_free(5), 6);
    let mut id = Id::new(7, 3);
    id.set_index(9);
    assert_eq!(id.get_index(), 9);
    assert_eq!(id.get_generation(), 3);
    id.set_generation(8);
    assert_eq!(id.get_generation(), 8);
    id.inc_generation();
    assert_eq!(id.get_generation(), 9);
    assert_eq!(id.get_index(), 9);
}

#[test]
fn invalid_id_is_never_valid() {
    let mut sys = IdSystem::new(20);
    assert!(!sys.is_id_valid(Id::invalid()));
    for _ in 0..19 {
        let id = sys.alloc_id().unwrap();
        assert_eq!(id.get_generation() % 2, 1);
        assert!(!sys.is_id_valid(Id::invalid()));
    }
}
