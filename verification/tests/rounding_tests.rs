use bundler::round_down_power_of_2;

#[test]
fn test_round() {
    let x: f64 = 2.0 * 270.0;
    assert_eq!(round_down_power_of_2(x as u32), 512);
    assert_eq!(round_down_power_of_2(538), 512);
    assert_eq!(round_down_power_of_2(16), 16);
    assert_eq!(round_down_power_of_2(1), 1);
    assert_eq!(round_down_power_of_2(0), 0);
}

#[test]
fn qdisc_test_round() {
    let x: f64 = 2.0 * 270.0;
    assert_eq!(round_down_power_of_2(x as u32), 512);
    assert_eq!(round_down_power_of_2(538), 512);
    assert_eq!(round_down_power_of_2(16), 16);
    assert_eq!(round_down_power_of_2(1), 1);
    assert_eq!(round_down_power_of_2(0), 0);
}

#[test]
fn round_covers_non_powers() {
    assert_eq!(round_down_power_of_2(540), 512);
    assert_eq!(round_down_power_of_2(2), 2);
    assert_eq!(round_down_power_of_2(3), 2);
    assert_eq!(round_down_power_of_2(u32::MAX), 0x8000_0000);
}
