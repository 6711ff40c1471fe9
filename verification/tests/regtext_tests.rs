use actuators::regtext::{format_reg_u32, parse_enable, parse_reg_u32};

#[test]
fn values_parse_with_surrounding_whitespace() {
    assert_eq!(parse_reg_u32(&b"20000\n".to_vec()), 20000);
    assert_eq!(parse_reg_u32(&b"  16666666 \t\n".to_vec()), 16666666);
    assert_eq!(parse_reg_u32(&b"0".to_vec()), 0);
    assert_eq!(parse_reg_u32(&b"4294967295\n".to_vec()), u32::MAX);
}

#[test]
fn leading_zeros_do_not_change_the_value() {
    assert_eq!(parse_reg_u32(&b"000123\n".to_vec()), 123);
    assert_eq!(parse_reg_u32(&b"000000000000042".to_vec()), 42);
    assert_eq!(parse_reg_u32(&b"0000000000".to_vec()), 0);
}

#[test]
fn unparseable_content_reads_as_zero() {
    assert_eq!(parse_reg_u32(&b"".to_vec()), 0);
    assert_eq!(parse_reg_u32(&b"\n".to_vec()), 0);
    assert_eq!(parse_reg_u32(&b"pwm".to_vec()), 0);
    assert_eq!(parse_reg_u32(&b"12x4".to_vec()), 0);
    assert_eq!(parse_reg_u32(&b"-5".to_vec()), 0);
    assert_eq!(parse_reg_u32(&b"1 2".to_vec()), 0);
}

#[test]
fn values_beyond_the_register_width_read_as_zero() {
    assert_eq!(parse_reg_u32(&b"4294967296".to_vec()), 0);
    assert_eq!(parse_reg_u32(&b"99999999999999999999".to_vec()), 0);
}

#[test]
fn enable_reads_one_as_enabled() {
    assert!(parse_enable(&b"1\n".to_vec()));
    assert!(parse_enable(&b" 1 ".to_vec()));
    assert!(!parse_enable(&b"0\n".to_vec()));
    assert!(!parse_enable(&b"11".to_vec()));
    assert!(!parse_enable(&b"".to_vec()));
    assert!(!parse_enable(&b"on".to_vec()));
}

#[test]
fn formatted_values_read_back_unchanged() {
    assert_eq!(format_reg_u32(0), b"0".to_vec());
    assert_eq!(format_reg_u32(20000), b"20000".to_vec());
    assert_eq!(format_reg_u32(u32::MAX), b"4294967295".to_vec());
    for v in [0u32, 1, 9, 10, 99, 100, 16666666, 4294967295] {
        assert_eq!(parse_reg_u32(&format_reg_u32(v)), v);
    }
}
