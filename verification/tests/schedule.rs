use fortuna::reward::calculate_amount;
use fortuna::reward::BASE_REWARD;
use fortuna::reward::HALVING_INTERVAL;
use fortuna::slot::calculate_slot_from_epoch_time;
use fortuna::slot::checked_slot_from_epoch_time;
use fortuna::slot::CONVERSION_TIME_SEC;
use fortuna::slot::SLOT_OFFSET;

#[test]
fn reward_of_first_block_is_base_reward() {
    assert_eq!(calculate_amount(1), 5_000_000_000);
    assert_eq!(BASE_REWARD, 50 * 100_000_000);
}

#[test]
fn reward_halves_after_each_interval() {
    assert_eq!(HALVING_INTERVAL, 210_000);
    assert_eq!(calculate_amount(210_000), 5_000_000_000);
    assert_eq!(calculate_amount(210_001), 2_500_000_000);
    assert_eq!(calculate_amount(420_000), 2_500_000_000);
    assert_eq!(calculate_amount(420_001), 1_250_000_000);
    assert_eq!(calculate_amount(630_001), 625_000_000);
}

#[test]
fn reward_rounds_down_and_runs_out() {
    assert_eq!(calculate_amount(10 * 210_000 + 1), 4_882_812);
    assert_eq!(calculate_amount(32 * 210_000 + 1), 1);
    assert_eq!(calculate_amount(33 * 210_000), 1);
    assert_eq!(calculate_amount(33 * 210_000 + 1), 0);
    assert_eq!(calculate_amount(64 * 210_000 + 1), 0);
    assert_eq!(calculate_amount(u64::MAX), 0);
}

#[test]
fn reward_never_grows() {
    let mut previous = calculate_amount(1);
    let mut block: u64 = 1;
    while block < 40 * 210_000 {
        let next = calculate_amount(block + 1);
        assert!(next <= previous);
        previous = next;
        block += 69_997;
    }
}

#[test]
fn slot_of_calibration_instant_is_offset() {
    assert_eq!(CONVERSION_TIME_SEC, 1691996128);
    assert_eq!(SLOT_OFFSET, 25325728);
    assert_eq!(calculate_slot_from_epoch_time(1691996128), 25325728);
}

#[test]
fn slot_shifts_with_time() {
    assert_eq!(calculate_slot_from_epoch_time(1_700_000_000), 33_329_600);
    assert_eq!(calculate_slot_from_epoch_time(u64::MAX), u64::MAX - 1_666_670_400);
    for t in [1691996128u64, 1_700_000_000, 4_000_000_000] {
        assert_eq!(
            calculate_slot_from_epoch_time(t + 1),
            calculate_slot_from_epoch_time(t) + 1
        );
    }
}

#[test]
fn checked_slot_rejects_times_before_calibration() {
    assert_eq!(checked_slot_from_epoch_time(0), None);
    assert_eq!(checked_slot_from_epoch_time(1691996127), None);
    assert_eq!(checked_slot_from_epoch_time(1691996128), Some(25325728));
    assert_eq!(checked_slot_from_epoch_time(1_700_000_000), Some(33_329_600));
}
