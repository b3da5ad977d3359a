use mtimer::simple_once::SimpleOnce;
use mtimer::static_cell::{ConstStaticCell, StaticCell, StaticCellSingleCore, StaticCellSpinlock};

#[test]
fn static_cell_claims_only_once() {
    let mut cell: StaticCell<u32> = StaticCell::new();
    assert!(cell.try_uninit());
    assert!(!cell.try_uninit());
}

#[test]
fn static_cell_try_init_succeeds_once() {
    let mut cell: StaticCell<u32> = StaticCell::new();
    assert!(cell.try_init(5));
    assert!(!cell.try_init(6));
}

#[test]
fn static_cell_init_blocks_later_tries() {
    let mut cell: StaticCell<&str> = StaticCell::new();
    cell.init("boot");
    assert!(!cell.try_init("again"));
    assert!(!cell.try_uninit());
}

#[test]
fn static_cell_init_with_runs_closure_once() {
    let mut cell: StaticCell<u32> = StaticCell::new();
    cell.init_with(|| 41 + 1);
    assert!(!cell.try_init_with(|| 0));
}

#[test]
fn static_cell_try_init_with_skips_closure_when_full() {
    let mut cell: StaticCell<u32> = StaticCell::new();
    assert!(cell.try_init_with(|| 1));
    let mut ran = false;
    assert!(!cell.try_init_with(|| {
        ran = true;
        2
    }));
    assert!(!ran);
}

#[test]
fn static_cell_uninit_then_no_init() {
    let mut cell: StaticCell<u32> = StaticCell::new();
    cell.uninit();
    assert!(!cell.try_init(3));
}

#[test]
fn single_core_cell_claims_only_once() {
    let mut cell: StaticCellSingleCore<u8> = StaticCellSingleCore::new();
    assert!(cell.try_uninit());
    assert!(!cell.try_uninit());
}

#[test]
fn single_core_cell_init_blocks_later_claims() {
    let mut cell: StaticCellSingleCore<u8> = StaticCellSingleCore::new();
    cell.init(3);
    assert!(!cell.try_uninit());
}

#[test]
fn spinlock_cell_claims_only_once() {
    let mut cell: StaticCellSpinlock<u8> = StaticCellSpinlock::new();
    assert!(cell.try_uninit());
    assert!(!cell.try_uninit());
}

#[test]
fn spinlock_cell_init_blocks_later_claims() {
    let mut cell: StaticCellSpinlock<u8> = StaticCellSpinlock::new();
    cell.init(9);
    assert!(!cell.try_uninit());
}

#[test]
fn const_static_cell_hands_value_out_once() {
    let mut cell = ConstStaticCell::new(77u32);
    assert_eq!(cell.take(), 77);
    assert_eq!(cell.try_take(), None);
}

#[test]
fn const_static_cell_try_take_once() {
    let mut cell = ConstStaticCell::new("payload");
    assert_eq!(cell.try_take(), Some("payload"));
    assert_eq!(cell.try_take(), None);
}

#[test]
fn simple_once_initializes_once_and_keeps_first_value() {
    let mut once: SimpleOnce<u32> = SimpleOnce::new();
    assert_eq!(once.get(), None);
    once.call_once(|| 10);
    assert_eq!(once.get(), Some(&10));
    // a second initializer is ignored; the first value stays
    once.call_once(|| 20);
    assert_eq!(once.get(), Some(&10));
}

#[test]
fn simple_once_second_closure_does_not_run() {
    let mut once: SimpleOnce<u8> = SimpleOnce::new();
    once.call_once(|| 1);
    let mut ran = false;
    once.call_once(|| {
        ran = true;
        2
    });
    assert!(!ran);
}
