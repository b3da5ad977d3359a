use mtimer::critical::{acquire, release, MachineInterrupts, MIE_BIT};

#[test]
fn nested_critical_sections_restore_enabled_state() {
    let mut ints = MachineInterrupts::new();
    ints.set_mie();
    let outer = acquire(&mut ints);
    assert!(!ints.read_mie());
    let inner = acquire(&mut ints);
    assert!(!ints.read_mie());
    release(&mut ints, inner);
    assert!(!ints.read_mie());
    release(&mut ints, outer);
    assert!(ints.read_mie());
}

#[test]
fn nested_critical_sections_keep_disabled_state() {
    let mut ints = MachineInterrupts::new();
    assert!(!ints.read_mie());
    let outer = acquire(&mut ints);
    let inner = acquire(&mut ints);
    release(&mut ints, inner);
    release(&mut ints, outer);
    assert!(!ints.read_mie());
}

#[test]
fn acquire_token_records_prior_state() {
    let mut ints = MachineInterrupts::new();
    ints.set_mie();
    let token_enabled = acquire(&mut ints);
    assert_eq!(token_enabled, MIE_BIT);
    let token_disabled = acquire(&mut ints);
    assert_eq!(token_disabled, 0);
}

#[test]
fn release_only_reenables_when_token_says_so() {
    let mut ints = MachineInterrupts::new();
    release(&mut ints, 0);
    assert!(!ints.read_mie());
    release(&mut ints, MIE_BIT);
    assert!(ints.read_mie());
}

#[test]
fn set_mtimer_leaves_global_enable_alone() {
    let mut ints = MachineInterrupts::new();
    ints.set_mtimer();
    assert!(!ints.read_mie());
}
