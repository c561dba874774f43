use nspt::human::get_human_friendly_data_size_str;
use nspt::human::push_decimal;
use nspt::mode::TestMode;
use std::str::FromStr;

#[test]
fn data_size_in_bytes() {
    assert_eq!(get_human_friendly_data_size_str(0), "0 B");
    assert_eq!(get_human_friendly_data_size_str(7), "7 B");
    assert_eq!(get_human_friendly_data_size_str(1023), "1023 B");
}

#[test]
fn data_size_in_kilobytes() {
    assert_eq!(get_human_friendly_data_size_str(1024), "1 KB");
    assert_eq!(get_human_friendly_data_size_str(1536), "1 KB");
    assert_eq!(get_human_friendly_data_size_str(65_536), "64 KB");
    assert_eq!(get_human_friendly_data_size_str(1024 * 1024 - 1), "1023 KB");
}

#[test]
fn data_size_in_megabytes_starts_with_a_blank() {
    assert_eq!(get_human_friendly_data_size_str(1024 * 1024), " 1 MB");
    assert_eq!(get_human_friendly_data_size_str(24 * 1024 * 1024), " 24 MB");
    assert_eq!(get_human_friendly_data_size_str(1024 * 1024 * 1024 - 1), " 1023 MB");
}

#[test]
fn data_size_in_gigabytes() {
    assert_eq!(get_human_friendly_data_size_str(1024 * 1024 * 1024), "1 GB");
    assert_eq!(get_human_friendly_data_size_str(u64::MAX), "17179869183 GB");
}

#[test]
fn decimal_numerals() {
    for n in [0u64, 9, 10, 99, 100, 1_000_000, 9_876_543_210, u64::MAX] {
        let mut out = String::from("n=");
        push_decimal(&mut out, n);
        assert_eq!(out, format!("n={}", n));
    }
}

#[test]
fn test_mode_names() {
    assert_eq!(TestMode::parse("tcp"), Ok(TestMode::Tcp));
    assert_eq!(TestMode::parse("TCP"), Ok(TestMode::Tcp));
    assert_eq!(TestMode::parse("unix"), Ok(TestMode::Unix));
    assert_eq!(TestMode::parse("UNIX"), Ok(TestMode::Unix));
    assert_eq!(TestMode::from_str("tcp"), Ok(TestMode::Tcp));
    assert_eq!(TestMode::from_str("UNIX"), Ok(TestMode::Unix));
}

#[test]
fn test_mode_unknown_name() {
    assert_eq!(TestMode::parse("Tcp"), Err(String::from("Unkown Test Mode: Tcp")));
    assert_eq!(TestMode::parse(""), Err(String::from("Unkown Test Mode: ")));
    assert_eq!(TestMode::from_str("udp"), Err(String::from("Unkown Test Mode: udp")));
}

#[test]
fn names_at_the_root_of_the_crate() {
    assert_eq!(nspt::BUF_SIZE, 65_536);
    assert_eq!(nspt::PROTOCOL_VER, 1);
    assert_eq!(nspt::TOTAL_SEND_NEG_BYTES, 25_165_824);
    assert_eq!(nspt::MIN_SEND_BYTES, 25_165_824);
    assert_eq!(nspt::DEFAULT_SOCK_FILE, "/tmp/nspt.sock");
    assert_eq!(nspt::SERVER_PORT, 12_845);
    assert_eq!(nspt::SERVER_PORT_S, "12845");
    assert_eq!(nspt::find_next_power_of_two(9), 16);
    assert_eq!(nspt::get_transfer_size(200_000), 1024);
    assert_eq!(nspt::get_human_friendly_data_size_str(2048), "2 KB");
    let version: nspt::ProtocolVer = 1;
    let hello = nspt::NsptNegProtocol::ClientHello(version);
    let container = nspt::SerializedDataContainer::from_serializable_data(&hello).unwrap();
    assert_eq!(container.to_serializable_data(), Some(hello));
    assert_eq!("unix".parse::<nspt::TestMode>(), Ok(nspt::TestMode::Unix));
}
