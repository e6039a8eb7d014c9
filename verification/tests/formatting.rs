use sgxtop::Memory;

#[test]
fn megabyte_threshold_above() {
    assert_eq!(Memory(2048).render(), "      2M");
}

#[test]
fn kilobytes_below_threshold() {
    assert_eq!(Memory(512).render(), "    512K");
}

#[test]
fn largest_kilobyte_value() {
    assert_eq!(Memory(1023).render(), "   1023K");
}

#[test]
fn smallest_megabyte_value() {
    assert_eq!(Memory(1024).render(), "      1M");
}

#[test]
fn zero_renders_as_kilobytes() {
    assert_eq!(Memory(0).render(), "      0K");
}

#[test]
fn megabytes_floor_division() {
    assert_eq!(Memory(2047).render(), "      1M");
    assert_eq!(Memory(3 * 1024 + 1000).render(), "      3M");
}

#[test]
fn wide_value_is_not_truncated() {
    assert_eq!(Memory(123456789 * 1024).render(), "123456789M");
}

#[test]
fn saturating_sub_normal() {
    let d = Memory(500).saturating_sub(Memory(123));
    assert_eq!(d, Memory(377));
}

#[test]
fn saturating_sub_clamps_to_zero() {
    let d = Memory(123).saturating_sub(Memory(500));
    assert_eq!(d, Memory(0));
}
