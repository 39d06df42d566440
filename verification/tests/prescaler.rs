use itm_logger::{compute_prescaler, Error};

#[test]
fn prescaler_exact_division() {
    assert_eq!(compute_prescaler(16_000_000, 2_000_000), Ok(7));
}

#[test]
fn prescaler_non_divisor_rejected() {
    assert_eq!(
        compute_prescaler(16_000_000, 3_000_000),
        Err(Error::ImpossibleBaudRate)
    );
}

#[test]
fn prescaler_target_above_reference_rejected() {
    assert_eq!(
        compute_prescaler(1_000_000, 2_000_000),
        Err(Error::ImpossibleBaudRate)
    );
}

#[test]
fn prescaler_equal_rates_give_zero() {
    assert_eq!(compute_prescaler(2_000_000, 2_000_000), Ok(0));
}

#[test]
fn prescaler_unit_baud() {
    assert_eq!(compute_prescaler(115_200, 1), Ok(115_199));
}
