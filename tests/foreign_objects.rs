use mafia2_injector::cstr::{c_str_text, encode_c_string, inline_text, take_before_nul};
use mafia2_injector::foreign::{
    entry_address, get_game, read_u32_le, get_object_count, handle_from_step, is_game_initialized, is_running,
    slot_entry_address, Chase, ChaseStep, ForeignHandle, ObjectList, PreparedCall,
};
use mafia2_injector::layout::{
    field_spec, slot_spec, struct_spec, ArgShape, Field, FieldKind, GlobalAddresses, RetShape, Slot, StructKind,
};

#[test]
fn c_strings() {
    assert_eq!(c_str_text(b"Tic\0garbage"), Some("Tic".to_string()));
    assert_eq!(c_str_text(b"no terminator"), Some("no terminator".to_string()));
    assert_eq!(c_str_text(b"\xff\xfe\0"), None);
    assert_eq!(c_str_text(b"\0"), Some(String::new()));
    assert_eq!(inline_text(b"Korean\0\0"), Some("Korean".to_string()));
    assert_eq!(inline_text(b"\0Korean\0"), None);
    assert_eq!(take_before_nul(b"ab\0cd"), b"ab".to_vec());
    assert_eq!(encode_c_string(b"CITY_trick"), Some(b"CITY_trick\0".to_vec()));
    assert_eq!(encode_c_string(b"a\0b"), None);
}

#[test]
fn layout_tables() {
    let f = field_spec(Field::GamePhysicalProcessor);
    assert_eq!(f.owner, StructKind::Game);
    assert_eq!(f.offset, 0x120);
    assert_eq!(field_spec(Field::ProcessorLocale).kind, FieldKind::Bytes(8));
    let s = slot_spec(Slot::ProcessorFindTranslocator);
    assert_eq!(s.index, 9);
    assert_eq!(s.arg, ArgShape::Text);
    assert_eq!(s.ret, RetShape::Pointer);
    assert_eq!(struct_spec(StructKind::FreeRaid).base, Some(StructKind::PhysicalProcessor));
}

#[test]
fn views_follow_layout_compatibility() {
    let p = ForeignHandle::from_address(StructKind::PhysicalProcessor, 0x2000).unwrap();
    let fr = p.view_as(StructKind::FreeRaid).unwrap();
    assert_eq!(fr.kind(), StructKind::FreeRaid);
    assert_eq!(fr.address(), 0x2000);
    assert!(fr.view_as(StructKind::PhysicalProcessor).is_some());
    assert!(p.view_as(StructKind::Game).is_none());
    let odd = ForeignHandle::from_address(StructKind::PhysicalProcessor, 0x2004).unwrap();
    assert!(odd.view_as(StructKind::FreeRaid).is_none());
    assert!(ForeignHandle::from_address(StructKind::Game, 0).is_none());
}

#[test]
fn field_addresses() {
    let g = ForeignHandle::from_address(StructKind::Game, 0x1000).unwrap();
    assert_eq!(g.field_address(Field::GameFlags), Some(0x1008));
    assert_eq!(g.field_address(Field::ProcessorLocale), None);
    let fr = ForeignHandle::from_address(StructKind::FreeRaid, 0x3000).unwrap();
    assert_eq!(fr.field_address(Field::ProcessorTimerName), Some(0x3070));
    let high = ForeignHandle::from_address(StructKind::Game, u64::MAX - 4).unwrap();
    assert_eq!(high.field_address(Field::GameFlags), None);
}

#[test]
fn virtual_calls() {
    let g = ForeignHandle::from_address(StructKind::Game, 0x1000).unwrap();
    assert_eq!(
        g.prepare_call(Slot::GameMapName),
        Some(PreparedCall { receiver: 0x1000, index: 6, arg: ArgShape::NoArg, ret: RetShape::Text })
    );
    assert_eq!(g.prepare_call(Slot::ResourceLoad), None);
    let p = ForeignHandle::from_address(StructKind::PhysicalProcessor, 0x2000).unwrap();
    assert_eq!(p.prepare_call(Slot::FreeRaidInitialize), None);
    let fr = p.view_as(StructKind::FreeRaid).unwrap();
    assert_eq!(fr.prepare_call(Slot::FreeRaidSetGameMode).unwrap().index, 4);
    assert_eq!(fr.prepare_call(Slot::ProcessorUpdatePhysics).unwrap().index, 6);
    assert_eq!(slot_entry_address(0x1418_6EFE8, 6), Some(0x1418_6F018));
    assert_eq!(slot_entry_address(0, 6), None);
    assert_eq!(slot_entry_address(u64::MAX - 8, 2), None);
}

#[test]
fn chains_stop_at_null() {
    let g = GlobalAddresses::definitive_edition();
    assert_eq!(g.game, 0x141CAF778);
    let mut c = g.game_chase();
    assert_eq!(c.step(), ChaseStep::Read { address: 0x141CAF778 });
    let end = c.feed(0);
    assert_eq!(end, ChaseStep::NotFound);
    assert!(!is_game_initialized(end));
    assert_eq!(get_game(end).unwrap_err(), "Game instance is not initialized");

    let mut c = g.game_chase();
    let end = c.feed(0x5000);
    assert_eq!(end, ChaseStep::Found { pointer: 0x5000 });
    assert!(is_game_initialized(end));
    assert_eq!(get_game(end).unwrap().address(), 0x5000);

    let mut c = g.game_processor_chase();
    assert_eq!(c.feed(0x5000), ChaseStep::Read { address: 0x5120 });
    let end = c.feed(0x9000);
    let h = handle_from_step(end, StructKind::PhysicalProcessor).unwrap();
    assert_eq!(h.address(), 0x9000);

    let mut c = g.game_processor_chase();
    c.feed(0x5000);
    assert_eq!(c.feed(0), ChaseStep::NotFound);

    let mut c = Chase::new(u64::MAX - 1, vec![8]);
    assert_eq!(c.step(), ChaseStep::NotFound);
    let mut c = g.processor_chase();
    assert_eq!(c.step(), ChaseStep::Read { address: 0x141CA1F68 });
    assert_eq!(c.feed(0x77), ChaseStep::Found { pointer: 0x77 });
}

#[test]
fn game_flags() {
    assert!(is_running(0x2));
    assert!(is_running(0x3));
    assert!(!is_running(0x1));
    assert!(!is_running(0));
}

#[test]
fn object_list_queries() {
    let list = ObjectList { objects: 0x8000, entries: vec![0x10, 0, 0x30], capacity: 8 };
    assert_eq!(get_object_count(&list), 3);
    assert_eq!(list.get_object(0), Some(0x10));
    assert_eq!(list.get_object(1), None);
    assert_eq!(list.get_object(3), None);
    assert!(list.is_valid_object(0x30));
    assert!(!list.is_valid_object(0x20));
    assert!(!list.is_valid_object(0));
    assert_eq!(list.live_objects(), vec![(0, 0x10), (2, 0x30)]);
    assert!(ObjectList::is_usable(0x8000));
    assert!(!ObjectList::is_usable(0));
    assert_eq!(entry_address(0x8000, 2), Some(0x8010));
    assert_eq!(entry_address(0, 2), None);
}

#[test]
fn little_endian_words() {
    let header = [0x03, 0x00, 0x00, 0x00, 0x10, 0x27, 0x00, 0x01];
    assert_eq!(read_u32_le(&header, 0), Some(3));
    assert_eq!(read_u32_le(&header, 4), Some(0x0100_2710));
    assert_eq!(read_u32_le(&header, 5), None);
    assert_eq!(read_u32_le(&header, 9), None);
}
