use thermo_calibrator::calibrator::{compute_new_calibration, round_to_correct_fraction, should_publish};

#[test]
fn test_examples() {
    // new offset = sensor - (shown - old offset), in hundredths of a degree
    // 21.6 - (18.0 - 1.0) = 4.6 => 4.5
    let result_1 = compute_new_calibration(2160, 100, 1800);
    assert_eq!(450, result_1);
    // 20.2 - (20.0 - 1.0) = 1.2 => 1.0
    let result_2 = compute_new_calibration(2020, 100, 2000);
    assert_eq!(100, result_2);
    // 20.3 - (22.0 - 0.0) = -1.7 => -2.0
    let result_3 = compute_new_calibration(2030, 0, 2200);
    assert_eq!(-200, result_3);
    // 20.3 - (27.0 - 0.0) = -6.7 => -5.0
    let result_4 = compute_new_calibration(2030, 0, 2700);
    assert_eq!(-500, result_4);
    // 24.0 - (13.2 - 0.0) = 10.8 => +5.0
    let result_5 = compute_new_calibration(2400, 0, 1320);
    assert_eq!(500, result_5);
}

#[test]
fn results_stay_on_grid_and_in_bounds() {
    let values = [i32::MIN, -100_000, -2733, -1, 0, 1, 33, 34, 66, 67, 99, 100, 2160, 100_000, i32::MAX];
    for &a in values.iter() {
        for &b in values.iter() {
            for &c in values.iter() {
                let r = compute_new_calibration(a, b, c);
                assert!(-500 <= r && r <= 500);
                assert_eq!(r % 50, 0);
            }
        }
    }
}

#[test]
fn same_inputs_give_same_result() {
    for _ in 0..3 {
        assert_eq!(compute_new_calibration(2160, 100, 1800), 450);
        assert_eq!(compute_new_calibration(1999, -150, 2100), compute_new_calibration(1999, -150, 2100));
    }
}

#[test]
fn fraction_thresholds() {
    assert_eq!(round_to_correct_fraction(0), 0);
    assert_eq!(round_to_correct_fraction(33), 0);
    assert_eq!(round_to_correct_fraction(-33), 0);
    assert_eq!(round_to_correct_fraction(34), 50);
    assert_eq!(round_to_correct_fraction(66), 50);
    assert_eq!(round_to_correct_fraction(-66), -50);
    assert_eq!(round_to_correct_fraction(67), 100);
    assert_eq!(round_to_correct_fraction(-67), -100);
    assert_eq!(round_to_correct_fraction(99), 100);
}

#[test]
fn fraction_boundaries_through_engine() {
    // 0.33 drops, 0.34 becomes a half, 0.67 becomes a whole degree
    assert_eq!(compute_new_calibration(2033, 0, 2000), 0);
    assert_eq!(compute_new_calibration(2034, 0, 2000), 50);
    assert_eq!(compute_new_calibration(2066, 0, 2000), 50);
    assert_eq!(compute_new_calibration(2067, 0, 2000), 100);
    assert_eq!(compute_new_calibration(1966, 0, 2000), -50);
    assert_eq!(compute_new_calibration(2500, 0, 2000), 500);
    assert_eq!(compute_new_calibration(2501, 0, 2000), 500);
}

#[test]
fn publish_threshold() {
    assert!(!should_publish(100, 100));
    assert!(!should_publish(100, 51));
    assert!(should_publish(100, 50));
    assert!(should_publish(-500, 500));
    assert!(should_publish(i32::MIN, i32::MAX));
}
