use brig::config::{InstructionFuzzTest, TestConfig, TracingMode, TRACING_MODE};
use brig::dag::{Dag, DagNodeKind};
use brig::ept::{Ept, EptEntry, EptError, Flags, PageTableIndices, Pdp1GEntry};
use brig::fold::constant;
use brig::flags::{contains_addwithcarry, contains_get_flags};
use brig::ir::{BinaryOperationKind, NodeKind, TernaryOperationKind, Type};
use brig::naive::{allocate_physical_register, query_intersections, FreshAllocator, PhysicalUsed, Range};
use brig::registers::{PhysicalRegister, Register, RegisterClass};
use brig::regset::RegisterTracker;
use brig::unary::{function_ptr, get_flags, read_register, ternary_operation};
use brig::width::Width;

#[test]
fn dag_numbers_nodes_in_order() {
    let mut dag = Dag::new();
    let a = dag.constant(5);
    let b = dag.function_ptr(0x1000);
    let c = dag.create_bits(&a, &b);
    let t = dag.create_tuple(&vec![a, b]);
    let x = dag.access_tuple(&t, 1);
    let s = dag.size_of(&x);
    assert_eq!(c.id, 2);
    assert_eq!(c.kind, DagNodeKind::CreateBits { value: 0, length: 1 });
    assert_eq!(t.kind, DagNodeKind::CreateTuple { values: vec![0, 1] });
    assert_eq!(x.kind, DagNodeKind::AccessTuple { tuple: 3, index: 1 });
    assert_eq!(s.id, 5);
    assert_eq!(dag.get_next_id(), 6);
}

#[test]
fn ept_entry_fields() {
    let mut e = EptEntry(0);
    e.set_address(0x12345);
    e.set_read(true);
    e.set_execute(true);
    assert_eq!(e.0, 0x12345 << 12 | 0b101);
    assert_eq!(e.address(), 0x12345);
    assert!(e.read() && !e.write() && e.execute() && !e.size());
    e.set_read(false);
    e.set_size(true);
    assert_eq!(e.0, 0x12345 << 12 | 0x84);
    let mut p = Pdp1GEntry(0);
    p.set_address(0xf_ffff_ffff_ff);
    assert_eq!(p.address(), 0xff_ffff_ffff);
    p.set_size(true);
    assert!(p.size());
    assert_eq!(p.ept_memory_type(), 0);
}

#[test]
fn page_table_indices() {
    let i = PageTableIndices::from_address((3u64 << 39) | (5 << 30) | (7 << 21) | (9 << 12) | 0xabc);
    assert_eq!(i, PageTableIndices { pml4: 3, pdp: 5, pd: 7, pt: 9 });
}

#[test]
fn ept_maps_and_translates() {
    let mut ept = Ept::new(0x10_0000, 8);
    assert_eq!(ept.phys_addr(), 0x10_0000);
    assert_eq!(ept.tables_in_use(), 1);
    ept.map_page(0x4000_1000, 0x8000_2000).unwrap();
    assert_eq!(ept.tables_in_use(), 4);
    let (t, i) = ept.translate(0x4000_1000).unwrap();
    assert_eq!(ept.tables_in_use(), 4);
    assert_eq!(i, 1);
    assert_eq!(ept.table(t)[i], (0x80002 << 12) | 0b111);
    ept.update_flags_range(0x4000_0000, 0x4000_3000, Flags { read: true, write: false, execute: false }).unwrap();
    assert_eq!(ept.table(t)[1], (0x80002 << 12) | 0b001);
    assert_eq!(ept.table(t)[2], 0b001);
    ept.smc_protect(0x4000_1000).unwrap();
    assert_eq!(ept.table(t)[1] & 0b10, 0);
}

#[test]
fn ept_huge_pages() {
    let mut ept = Ept::new(0, 4);
    ept.map_1g_page(0x4000_0000, 0x8000_0000).unwrap();
    assert_eq!(ept.tables_in_use(), 2);
    assert_eq!(ept.table(1)[1], (0x80000 << 12) | 0x87);
    assert_eq!(ept.translate(0x4000_1000), Err(EptError::ThroughHugePage));
    let mut small = Ept::new(0, 2);
    assert_eq!(small.translate(0x1000), Err(EptError::OutOfTables));
    let mut ept = Ept::new(0, 2);
    assert_eq!(ept.init(), Ok(()));
    assert_eq!(ept.table(1)[15], (15u64 * 0x40000 << 12) | 0x87);
}

#[test]
fn ept_init_without_room_is_refused() {
    let mut ept = Ept::new(0, 1);
    assert_eq!(ept.init(), Err(EptError::OutOfTables));
    assert_eq!(ept.tables_in_use(), 1);
    let mut ept = Ept::new(0, 2);
    assert_eq!(ept.init(), Ok(()));
    assert_eq!(ept.init(), Ok(()));
    assert_eq!(ept.tables_in_use(), 2);
}

#[test]
fn ranges() {
    let a = Range::new(2, 5);
    let b = Range::new(5, 9);
    let c = Range::new(6, 7);
    assert!(a.intersects(&b) && b.intersects(&a));
    assert!(!a.intersects(&c));
    assert!(a.contains(4) && !a.contains(5) && !a.contains(1));
    let mut p = Range::new_partial(3);
    assert!(p.is_partial());
    *p.end_mut() = Some(10);
    assert_eq!(p.end(), Some(10));
    assert_eq!(p.start(), 3);
}

#[test]
fn physical_registers_in_use() {
    let mut used = PhysicalUsed::empty();
    assert_eq!(allocate_physical_register(&used, Width::_64), PhysicalRegister::RAX);
    assert_eq!(allocate_physical_register(&used, Width::_128), PhysicalRegister::XMM0);
    used.insert(PhysicalRegister::RAX);
    used.insert(PhysicalRegister::RCX);
    assert!(used.contains(&PhysicalRegister::RCX));
    assert_eq!(allocate_physical_register(&used, Width::_32), PhysicalRegister::RDX);
    used.remove(&PhysicalRegister::RAX);
    assert_eq!(allocate_physical_register(&used, Width::_8), PhysicalRegister::RAX);
    assert!(!used.contains(&PhysicalRegister::RAX));
}

#[test]
fn intersections() {
    let live = vec![
        (Register::Physical(PhysicalRegister::RSP), vec![Range::new(0, usize::MAX)]),
        (Register::Global(3), vec![Range::new(20, 30), Range::new(1, 2)]),
        (Register::Physical(PhysicalRegister::RAX), vec![Range::new(40, 50)]),
    ];
    let hits = query_intersections(Range::new(2, 10), &live);
    assert_eq!(hits, vec![Register::Physical(PhysicalRegister::RSP), Register::Global(3)]);
    assert_eq!(FreshAllocator::new(4, 0x800).global_register_offset, 0x800);
}

#[test]
fn flag_sources() {
    let adc = ternary_operation(TernaryOperationKind::AddWithCarry(
        read_register(0, Type::Unsigned(64)),
        read_register(8, Type::Unsigned(64)),
        constant(1, Type::Unsigned(1)),
    ));
    let flags = get_flags(adc.clone());
    let bit = brig::checked::try_binary(BinaryOperationKind::And(flags, constant(4, Type::Unsigned(4)))).unwrap();
    let found = contains_get_flags(&bit).unwrap().unwrap();
    assert!(matches!(found.kind(), NodeKind::TernaryOperation(_)));
    assert!(contains_get_flags(&read_register(0, Type::Unsigned(64))).unwrap().is_none());
    assert!(contains_get_flags(&function_ptr(0x10)).is_err());
    assert!(contains_addwithcarry(&bit).unwrap().is_some());
    assert!(contains_addwithcarry(&function_ptr(0x10)).unwrap().is_none());
}

#[test]
fn configuration_values() {
    assert_eq!(TRACING_MODE, TracingMode::PtWrite);
    assert_eq!(TestConfig::Include(vec!["a".to_string()]), TestConfig::Include(vec!["a".to_string()]));
    let t = InstructionFuzzTest {
        test_number: 1,
        instruction: 0xd503201f,
        pre_gprs: [0; 32],
        post_gprs: [0; 32],
        pre_fprs: [0; 32],
        post_fprs: [0; 32],
    };
    assert_eq!(t, t.clone());
}

#[test]
fn register_record_changed_in_place() {
    let mut tracker = RegisterTracker::new(2);
    let v1 = Register::Virtual { index: 1, class: RegisterClass::General };
    tracker.get_mut(&v1).first_def = Some(3);
    tracker.get_mut(&Register::Physical(PhysicalRegister::RAX)).last_use = Some(7);
    assert_eq!(tracker.get(&v1).first_def, Some(3));
    assert_eq!(tracker.get(&Register::Virtual { index: 0, class: RegisterClass::General }).first_def, None);
    assert_eq!(tracker.get(&Register::Physical(PhysicalRegister::RAX)).last_use, Some(7));
}
