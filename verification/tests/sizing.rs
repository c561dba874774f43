use nspt::sizing::find_next_power_of_two;
use nspt::sizing::get_transfer_size;
use nspt::sizing::MAX_POWER_OF_TWO;
use nspt::sizing::MIN_SEND_BYTES;

#[test]
fn next_power_of_two_of_small_numbers() {
    assert_eq!(find_next_power_of_two(0), 1);
    assert_eq!(find_next_power_of_two(1), 1);
    assert_eq!(find_next_power_of_two(2), 2);
    assert_eq!(find_next_power_of_two(3), 4);
    assert_eq!(find_next_power_of_two(4), 4);
    assert_eq!(find_next_power_of_two(5), 8);
    assert_eq!(find_next_power_of_two(1000), 1024);
    assert_eq!(find_next_power_of_two(1024), 1024);
    assert_eq!(find_next_power_of_two(1025), 2048);
}

#[test]
fn next_power_of_two_at_the_top() {
    assert_eq!(find_next_power_of_two(MAX_POWER_OF_TWO), 1 << 63);
    assert_eq!(find_next_power_of_two(MAX_POWER_OF_TWO - 1), 1 << 63);
    assert_eq!(find_next_power_of_two((1 << 62) + 1), 1 << 63);
    assert_eq!(find_next_power_of_two(1 << 62), 1 << 62);
}

#[test]
fn next_power_of_two_is_the_least() {
    for n in 1..5000u64 {
        let p = find_next_power_of_two(n);
        assert!(p.is_power_of_two());
        assert!(p >= n);
        assert!(p / 2 < n);
    }
}

#[test]
fn transfer_size_exact_values() {
    assert_eq!(get_transfer_size(0), 1);
    assert_eq!(get_transfer_size(199), 1);
    assert_eq!(get_transfer_size(200), 1);
    assert_eq!(get_transfer_size(400), 2);
    assert_eq!(get_transfer_size(600), 4);
    assert_eq!(get_transfer_size(200_000), 1024);
    assert_eq!(get_transfer_size(25_165_824), 131_072);
}

#[test]
fn transfer_size_at_the_cap() {
    assert_eq!(MIN_SEND_BYTES, 25_165_824);
    // two hundred times 16 MiB: the last throughput below the cap
    assert_eq!(get_transfer_size(3_355_443_200), 16_777_216);
    assert_eq!(get_transfer_size(3_355_443_399), 16_777_216);
    // one unit more rounds up to 32 MiB, which the cap cuts down
    assert_eq!(get_transfer_size(3_355_443_400), MIN_SEND_BYTES);
    assert_eq!(get_transfer_size(u64::MAX), MIN_SEND_BYTES);
}

#[test]
fn transfer_size_is_a_power_of_two_below_the_cap() {
    let mut rate: u64 = 0;
    while rate <= 3_355_443_399 {
        let size = get_transfer_size(rate);
        assert!(size.is_power_of_two());
        assert!(size <= MIN_SEND_BYTES);
        rate = rate * 3 / 2 + 97;
    }
}

#[test]
fn transfer_size_never_exceeds_the_cap() {
    let mut rate: u64 = 1;
    for _ in 0..64 {
        assert!(get_transfer_size(rate) <= MIN_SEND_BYTES);
        assert!(get_transfer_size(rate - 1) <= MIN_SEND_BYTES);
        rate = rate.wrapping_mul(2);
    }
}

#[test]
fn transfer_size_grows_with_the_throughput() {
    let mut rate: u64 = 0;
    let mut last = get_transfer_size(rate);
    while rate < 10_000_000_000 {
        rate = rate * 5 / 4 + 13;
        let size = get_transfer_size(rate);
        assert!(size >= last);
        last = size;
    }
    assert_eq!(last, MIN_SEND_BYTES);
}
