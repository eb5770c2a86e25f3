use wgpu_conv::align::{align_up, is_power_of_two};

#[test]
fn power_of_two_examples() {
    assert!(!is_power_of_two(0));
    assert!(is_power_of_two(1));
    assert!(is_power_of_two(2));
    assert!(is_power_of_two(1024));
    assert!(!is_power_of_two(3));
    assert!(!is_power_of_two(6));
}

#[test]
fn power_of_two_extremes() {
    assert!(is_power_of_two(1 << 31));
    assert!(!is_power_of_two(u32::MAX));
    assert!(!is_power_of_two((1 << 31) + 1));
}

#[test]
fn align_up_by_three() {
    assert_eq!(align_up(0, 3), 0);
    assert_eq!(align_up(1, 3), 3);
    assert_eq!(align_up(2, 3), 3);
    assert_eq!(align_up(3, 3), 3);
    assert_eq!(align_up(4, 3), 6);
}

#[test]
fn align_up_by_one_is_identity() {
    for x in [0u32, 1, 2, 7, 1000, u32::MAX] {
        assert_eq!(align_up(x, 1), x);
    }
}

#[test]
fn align_up_twice_is_align_up_once() {
    for (x, a) in [(0u32, 4u32), (5, 4), (8, 4), (13, 256), (1000, 7)] {
        let once = align_up(x, a);
        assert_eq!(align_up(once, a), once);
    }
}

#[test]
fn align_up_largest_value() {
    assert_eq!(align_up(u32::MAX - 255, 256), u32::MAX - 255);
    assert_eq!(align_up(u32::MAX - 300, 256), u32::MAX - 255);
}
