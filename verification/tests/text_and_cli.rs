use block_meta_rpc::cli::{port_validator, DefaultStorageRpcArgs};
use block_meta_rpc::meta_storage::key_to_slot;
use block_meta_rpc::text::{i64_to_dec_string, u64_to_dec_string, IntParseError, parse_u64_in_range};

#[test]
fn unsigned_decimal_rendering() {
    assert_eq!(u64_to_dec_string(0), "0");
    assert_eq!(u64_to_dec_string(9), "9");
    assert_eq!(u64_to_dec_string(10), "10");
    assert_eq!(u64_to_dec_string(8899), "8899");
    assert_eq!(u64_to_dec_string(u64::MAX), "18446744073709551615");
}

#[test]
fn signed_decimal_rendering() {
    assert_eq!(i64_to_dec_string(0), "0");
    assert_eq!(i64_to_dec_string(42), "42");
    assert_eq!(i64_to_dec_string(-42), "-42");
    assert_eq!(i64_to_dec_string(i64::MIN), "-9223372036854775808");
}

#[test]
fn parsing_matches_the_standard_parser() {
    assert_eq!(parse_u64_in_range("123", u64::MAX), Ok(123));
    assert_eq!(parse_u64_in_range("+123", u64::MAX), Ok(123));
    assert_eq!(parse_u64_in_range("", u64::MAX), Err(IntParseError::Empty));
    assert_eq!(parse_u64_in_range("+", u64::MAX), Err(IntParseError::InvalidDigit));
    assert_eq!(parse_u64_in_range("12x", u64::MAX), Err(IntParseError::InvalidDigit));
    assert_eq!(parse_u64_in_range("-1", u64::MAX), Err(IntParseError::InvalidDigit));
    assert_eq!(parse_u64_in_range("256", 255), Err(IntParseError::PosOverflow));
    assert_eq!(parse_u64_in_range("255", 255), Ok(255));
    assert_eq!(
        parse_u64_in_range("99999999999999999999x", u64::MAX),
        Err(IntParseError::PosOverflow)
    );
    // The standard parser agrees on these shapes.
    assert_eq!("123".parse::<u64>().ok(), Some(123));
    assert_eq!("+123".parse::<u64>().ok(), Some(123));
    assert!("".parse::<u64>().is_err());
    assert!("+".parse::<u64>().is_err());
    assert!("-1".parse::<u64>().is_err());
}

#[test]
fn port_validator_accepts_ports_and_reports_parser_errors() {
    assert_eq!(port_validator(String::from("8899")), Ok(()));
    assert_eq!(port_validator(String::from("0")), Ok(()));
    assert_eq!(port_validator(String::from("65535")), Ok(()));
    assert_eq!(
        port_validator(String::from("65536")),
        Err(String::from("ParseIntError { kind: PosOverflow }"))
    );
    assert_eq!(
        port_validator(String::from("")),
        Err(String::from("ParseIntError { kind: Empty }"))
    );
    assert_eq!(
        port_validator(String::from("80a")),
        Err(String::from("ParseIntError { kind: InvalidDigit }"))
    );
    // The reported text is the standard parser's debug rendering.
    assert_eq!(
        format!("{:?}", "80a".parse::<u16>().unwrap_err()),
        "ParseIntError { kind: InvalidDigit }"
    );
    assert_eq!(
        format!("{:?}", "65536".parse::<u16>().unwrap_err()),
        "ParseIntError { kind: PosOverflow }"
    );
}

#[test]
fn default_arguments_render_their_values() {
    let args = DefaultStorageRpcArgs::new();
    assert_eq!(args.rpc_port, "8899");
    assert_eq!(args.rpc_mysql_timeout, "5");
    assert_eq!(args.rpc_niceness_adjustment, "0");
    assert_eq!(args.rpc_max_request_body_size, "51200");
    assert!(args.enable_rpc_mysql_meta_storage);
    // The thread default comes from the host CPU count, which is at least 1.
    let threads = key_to_slot(&args.rpc_threads).unwrap();
    assert!(threads >= 1);
}
