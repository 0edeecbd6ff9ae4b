use xdmf::Values;
use xdmf::ascii_writer::{
    FormatNumber, array_to_string_fmt, array_to_writer_fmt, dec_i64, dec_u64, parse_dec_u64,
    values_to_string, values_to_writer,
};

fn t64(x: f64) -> String {
    format!("{:.16e}", x)
}

fn t32(x: f32) -> String {
    format!("{:.7e}", x)
}

#[test]
fn format_number_all_types() {
    // floating point numbers render outside the verified core and pass
    // through it as tokens
    let num: f32 = 3.141_590_4;
    assert_eq!(t32(num).format_number(), "3.1415904e0");
    let num: f64 = 1.234_567_89;
    assert_eq!(t64(num).format_number(), "1.2345678899999999e0");

    // signed integer types
    let num: i8 = -5;
    assert_eq!(num.format_number(), "-5");
    let num: i16 = -32768;
    assert_eq!(num.format_number(), "-32768");
    let num: i32 = 42;
    assert_eq!(num.format_number(), "42");
    let num: i64 = -1_234_567_890_123_456_789;
    assert_eq!(num.format_number(), "-1234567890123456789");
    let num: isize = -987_654_321;
    assert_eq!(num.format_number(), "-987654321");

    // unsigned integer types
    let num: u8 = 255;
    assert_eq!(num.format_number(), "255");
    let num: u16 = 65535;
    assert_eq!(num.format_number(), "65535");
    let num: u32 = 4_294_967_295;
    assert_eq!(num.format_number(), "4294967295");
    let num: u64 = 1000;
    assert_eq!(num.format_number(), "1000");
    let num: usize = 123_456_789;
    assert_eq!(num.format_number(), "123456789");
}

#[test]
fn array_to_string_fmt_multiple_types() {
    let vec_f64 = vec![t64(1.0), t64(2.0), t64(3.0)];
    let result_f64 = array_to_string_fmt(&vec_f64);
    assert_eq!(
        result_f64,
        "1.0000000000000000e0 2.0000000000000000e0 3.0000000000000000e0"
    );

    let vec_u64 = vec![1_u64, 2, 3];
    let result_u64 = array_to_string_fmt(&vec_u64);
    assert_eq!(result_u64, "1 2 3");
}

#[test]
fn array_to_writer_fmt_multiple_types() {
    let vec_f64 = vec![t64(1.0), t64(2.0), t64(3.0)];
    let mut buffer = String::new();
    array_to_writer_fmt(&vec_f64, &mut buffer);
    assert_eq!(
        buffer,
        "1.0000000000000000e0 2.0000000000000000e0 3.0000000000000000e0\n"
    );

    let vec_u64 = vec![1_u64, 2, 3];
    let mut buffer = String::new();
    array_to_writer_fmt(&vec_u64, &mut buffer);
    assert_eq!(buffer, "1 2 3\n");
}

#[test]
fn values_to_string_multiple_types() {
    let data_f64 = Values::F64(vec![t64(1.0), t64(2.0), t64(3.0)]);
    let result_f64 = values_to_string(&data_f64);
    assert_eq!(
        result_f64,
        "1.0000000000000000e0 2.0000000000000000e0 3.0000000000000000e0"
    );

    let data_u64 = Values::U64(vec![1_u64, 2, 3]);
    let result_u64 = values_to_string(&data_u64);
    assert_eq!(result_u64, "1 2 3");
}

#[test]
fn values_to_writer_multiple_types() {
    let data_f64 = Values::F64(vec![t64(1.0), t64(2.0), t64(3.0)]);
    let mut buffer = String::new();
    values_to_writer(&data_f64, &mut buffer);
    assert_eq!(
        buffer,
        "1.0000000000000000e0 2.0000000000000000e0 3.0000000000000000e0\n"
    );

    let data_u64 = Values::U64(vec![1_u64, 2, 3]);
    let mut buffer = String::new();
    values_to_writer(&data_u64, &mut buffer);
    assert_eq!(buffer, "1 2 3\n");
}

#[test]
fn decimal_round_trip_exact() {
    // integers format and parse back exactly
    for n in [0_u64, 1, 9, 10, 42, 1000, 123_456_789, u64::MAX] {
        let text = dec_u64(n);
        assert_eq!(parse_dec_u64(&text), Some(n));
    }
    assert_eq!(dec_u64(u64::MAX), "18446744073709551615");
    assert_eq!(dec_i64(i64::MIN), "-9223372036854775808");
    assert_eq!(dec_i64(0), "0");
}

#[test]
fn decimal_parse_rejects_junk() {
    assert_eq!(parse_dec_u64(""), None);
    assert_eq!(parse_dec_u64("12a"), None);
    assert_eq!(parse_dec_u64("-1"), None);
    // one above u64::MAX overflows
    assert_eq!(parse_dec_u64("18446744073709551616"), None);
    assert_eq!(parse_dec_u64("18446744073709551615"), Some(u64::MAX));
}

#[test]
fn float_token_round_trip_within_precision() {
    // rendering a finite 64-bit float with 16 fractional digits and
    // reading it back recovers the value exactly
    for x in [
        0.0_f64,
        1.0,
        -1.0,
        3.141592653589793,
        1.0e-300,
        -2.5e300,
        f64::MIN_POSITIVE,
        f64::MAX,
    ] {
        let token = format!("{:.16e}", x);
        let back: f64 = token.parse().unwrap();
        assert_eq!(back.to_bits(), x.to_bits());
    }
}
