use poc_protection_functions::config::GooseConfig;
use poc_protection_functions::goose::{
    parse_mac_address, timestamp_to_iec61850, GoosePublisher, MacParseError,
};

#[test]
fn test_goose_publisher_creation() {
    let config = GooseConfig::default();
    let publisher = GoosePublisher::new(config);

    assert_eq!(publisher.sq_num(), 0);
    assert_eq!(publisher.st_num(), 0);
    assert_eq!(publisher.last_trip_state(), false);
}

#[test]
fn test_goose_state_change() {
    let config = GooseConfig::default();
    let mut publisher = GoosePublisher::new(config);

    // First trip message
    publisher.publish_trip(true, 1000);
    assert_eq!(publisher.st_num(), 1);
    assert_eq!(publisher.sq_num(), 1);

    // Same state - st_num should not increment
    publisher.publish_trip(true, 2000);
    assert_eq!(publisher.st_num(), 1);
    assert_eq!(publisher.sq_num(), 2);

    // State change - st_num should increment
    publisher.publish_trip(false, 3000);
    assert_eq!(publisher.st_num(), 2);
    assert_eq!(publisher.sq_num(), 3);
}

#[test]
fn test_goose_reset() {
    let config = GooseConfig::default();
    let mut publisher = GoosePublisher::new(config);

    publisher.publish_trip(true, 1000);
    publisher.reset();

    assert_eq!(publisher.sq_num(), 0);
    assert_eq!(publisher.st_num(), 0);
    assert_eq!(publisher.last_trip_state(), false);
}

#[test]
fn test_mac_address_parsing() {
    let mac = parse_mac_address("01:0C:CD:01:00:00").unwrap();
    assert_eq!(mac, [0x01, 0x0C, 0xCD, 0x01, 0x00, 0x00]);

    let mac2 = parse_mac_address("AA:BB:CC:DD:EE:FF").unwrap();
    assert_eq!(mac2, [0xAA, 0xBB, 0xCC, 0xDD, 0xEE, 0xFF]);

    // Test invalid format
    assert!(parse_mac_address("invalid").is_err());
    assert!(parse_mac_address("AA:BB:CC:DD:EE").is_err());
}

#[test]
fn test_timestamp_conversion() {
    // Test converting 1 second in microseconds
    let bytes = timestamp_to_iec61850(1_000_000);
    let seconds = u32::from_be_bytes([bytes[0], bytes[1], bytes[2], bytes[3]]);
    assert_eq!(seconds, 1);

    // Test converting 1.5 seconds
    let bytes = timestamp_to_iec61850(1_500_000);
    let seconds = u32::from_be_bytes([bytes[0], bytes[1], bytes[2], bytes[3]]);
    assert_eq!(seconds, 1);

    // Fraction should be approximately half of 2^24
    let fraction = u32::from_be_bytes([0, bytes[4], bytes[5], bytes[6]]);
    // 0.5 seconds = (0.5 * 2^24) / 1 = 8388608
    assert!((fraction as i32 - 8_388_608).abs() < 100); // Allow small tolerance
}

#[test]
fn test_timestamp_conversion_exact_fields() {
    // 3.25 s: seconds field 3, fraction exactly a quarter of 2^24.
    let bytes = timestamp_to_iec61850(3_250_000);
    let seconds = u32::from_be_bytes([bytes[0], bytes[1], bytes[2], bytes[3]]);
    assert_eq!(seconds, 3);
    let fraction = u32::from_be_bytes([0, bytes[4], bytes[5], bytes[6]]);
    assert_eq!(fraction, 4_194_304);
    // Quality octet: good, synchronized.
    assert_eq!(bytes[7], 0);
}

#[test]
fn test_mac_address_error_variants() {
    // Wrong number of parts.
    assert_eq!(
        parse_mac_address("AA:BB:CC:DD:EE"),
        Err(MacParseError::InvalidFormat)
    );
    assert_eq!(
        parse_mac_address("invalid"),
        Err(MacParseError::InvalidFormat)
    );
    // Six parts, but one is not a hexadecimal byte.
    assert_eq!(
        parse_mac_address("AA:BB:CC:DD:EE:GG"),
        Err(MacParseError::InvalidByte)
    );
    // Six parts, but one is empty.
    assert_eq!(
        parse_mac_address("AA:BB::DD:EE:FF"),
        Err(MacParseError::InvalidByte)
    );
    // Six parts, but one overflows a byte.
    assert_eq!(
        parse_mac_address("AA:BB:CC:DD:EE:1FF"),
        Err(MacParseError::InvalidByte)
    );
}

#[test]
fn test_mac_address_short_and_lowercase_digits() {
    // Single-digit and lowercase parts carry the same values.
    let mac = parse_mac_address("a:B:0:ff:10:00").unwrap();
    assert_eq!(mac, [0x0A, 0x0B, 0x00, 0xFF, 0x10, 0x00]);
}

#[test]
fn test_goose_publish_message_contents() {
    let mut publisher = GoosePublisher::new(GooseConfig::default());
    let msg = publisher.publish_trip(true, 123_456);
    assert!(msg.trip);
    assert_eq!(msg.sq_num, 1);
    assert_eq!(msg.st_num, 1);
    assert_eq!(msg.timestamp, 123_456);
}
