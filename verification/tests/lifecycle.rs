use sgxtop::{EnclaveState, LifecycleFlag};

#[test]
fn zero_mask_has_no_flags() {
    assert_eq!(EnclaveState(0).flags(), vec![]);
}

#[test]
fn zero_mask_renders_as_padded_empty_field() {
    assert_eq!(EnclaveState(0).render(), "          ");
}

#[test]
fn bits_zero_and_four_in_order() {
    let flags = EnclaveState(1 | 16).flags();
    assert_eq!(flags, vec![LifecycleFlag::Initialized, LifecycleFlag::Dead]);
    assert_eq!(EnclaveState(1 | 16).render(), " INIT,DEAD");
}

#[test]
fn all_five_bits_in_declaration_order() {
    let flags = EnclaveState(31).flags();
    assert_eq!(
        flags,
        vec![
            LifecycleFlag::Initialized,
            LifecycleFlag::Debug,
            LifecycleFlag::SecsEvicted,
            LifecycleFlag::Suspended,
            LifecycleFlag::Dead,
        ]
    );
    assert_eq!(EnclaveState(31).render(), "INIT,DEBUG,EVICT,SUS,DEAD");
}

#[test]
fn unrecognized_high_bits_are_ignored() {
    assert_eq!(
        EnclaveState(0xFFFF_FF20 | 1).flags(),
        vec![LifecycleFlag::Initialized]
    );
    assert_eq!(EnclaveState(0xFFFF_FF20 | 1).render(), "      INIT");
    assert_eq!(EnclaveState(1 << 40).flags(), vec![]);
}

#[test]
fn single_middle_flag() {
    assert_eq!(EnclaveState(4).flags(), vec![LifecycleFlag::SecsEvicted]);
    assert_eq!(EnclaveState(4).render(), "     EVICT");
}

#[test]
fn flag_names() {
    assert_eq!(LifecycleFlag::Initialized.name(), "INIT");
    assert_eq!(LifecycleFlag::Debug.name(), "DEBUG");
    assert_eq!(LifecycleFlag::SecsEvicted.name(), "EVICT");
    assert_eq!(LifecycleFlag::Suspended.name(), "SUS");
    assert_eq!(LifecycleFlag::Dead.name(), "DEAD");
}
