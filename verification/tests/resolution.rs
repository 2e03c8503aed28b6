use cap_cli::{
    decimal_string, parse_resolution, INVALID_HEIGHT_ERROR, INVALID_WIDTH_ERROR,
    RESOLUTION_FORMAT_ERROR,
};

/// The reading that `str::split` and `str::parse` give, for comparison.
fn std_reading(s: &str) -> Result<(u32, u32), String> {
    let parts: Vec<&str> = s.split('x').collect();
    if parts.len() != 2 {
        return Err("Resolution must be in WIDTHxHEIGHT format (e.g., 1920x1080)".to_string());
    }
    let width = parts[0].parse::<u32>().map_err(|_| "Invalid width".to_string())?;
    let height = parts[1].parse::<u32>().map_err(|_| "Invalid height".to_string())?;
    Ok((width, height))
}

#[test]
fn default_resolution_is_read() {
    assert_eq!(parse_resolution("1920x1080"), Ok((1920, 1080)));
}

#[test]
fn small_and_zero_sizes_are_read() {
    assert_eq!(parse_resolution("0x0"), Ok((0, 0)));
    assert_eq!(parse_resolution("1x2"), Ok((1, 2)));
    assert_eq!(parse_resolution("640x480"), Ok((640, 480)));
}

#[test]
fn plus_sign_and_leading_zeros_are_accepted() {
    assert_eq!(parse_resolution("+640x+480"), Ok((640, 480)));
    assert_eq!(parse_resolution("00640x0480"), Ok((640, 480)));
}

#[test]
fn largest_u32_is_accepted_and_one_more_is_not() {
    assert_eq!(parse_resolution("4294967295x4294967295"), Ok((u32::MAX, u32::MAX)));
    assert_eq!(parse_resolution("4294967296x1"), Err(INVALID_WIDTH_ERROR.to_string()));
    assert_eq!(parse_resolution("1x4294967296"), Err(INVALID_HEIGHT_ERROR.to_string()));
    assert_eq!(parse_resolution("99999999999999999999x1"), Err(INVALID_WIDTH_ERROR.to_string()));
}

#[test]
fn wrong_number_of_separators_is_a_format_error() {
    let expected = Err(RESOLUTION_FORMAT_ERROR.to_string());
    assert_eq!(parse_resolution(""), expected);
    assert_eq!(parse_resolution("1920"), expected);
    assert_eq!(parse_resolution("1920x1080x1"), expected);
    assert_eq!(parse_resolution("xx"), expected);
    assert_eq!(parse_resolution("1920X1080"), expected);
    assert_eq!(
        parse_resolution("1920*1080"),
        Err("Resolution must be in WIDTHxHEIGHT format (e.g., 1920x1080)".to_string())
    );
}

#[test]
fn bad_width_is_reported_before_bad_height() {
    assert_eq!(parse_resolution("x"), Err("Invalid width".to_string()));
    assert_eq!(parse_resolution("ax"), Err("Invalid width".to_string()));
    assert_eq!(parse_resolution("-1x5"), Err("Invalid width".to_string()));
    assert_eq!(parse_resolution(" 1x5"), Err("Invalid width".to_string()));
    assert_eq!(parse_resolution("+x5"), Err("Invalid width".to_string()));
    assert_eq!(parse_resolution("1x"), Err("Invalid height".to_string()));
    assert_eq!(parse_resolution("1x5 "), Err("Invalid height".to_string()));
    assert_eq!(parse_resolution("1x++5"), Err("Invalid height".to_string()));
}

#[test]
fn non_ascii_input_is_refused() {
    assert_eq!(parse_resolution("١٢x٣"), Err(INVALID_WIDTH_ERROR.to_string()));
    assert_eq!(parse_resolution("12x3é"), Err(INVALID_HEIGHT_ERROR.to_string()));
    assert_eq!(parse_resolution("12×3"), Err(RESOLUTION_FORMAT_ERROR.to_string()));
}

#[test]
fn agrees_with_std_split_and_parse() {
    let samples = [
        "", "x", "xx", "1x1", "12x34", "+1x+1", "++1x1", "-0x1", "0x-0", "01x010",
        "4294967295x0", "4294967296x0", "0x4294967296", "18446744073709551616x1",
        "1 x1", "1x1\n", "1920x1080", "3840x2160", "1x2x3", "abcx12", "12xabc", "+", "+x+",
        "١x1", "1xé", "x1", "1x", "7680x4320",
    ];
    for s in samples {
        assert_eq!(parse_resolution(s), std_reading(s), "input {s:?}");
    }
}

#[test]
fn decimal_string_matches_to_string() {
    for n in [0u64, 1, 9, 10, 11, 99, 100, 1080, 1920, 65535, 1_000_000, 4294967295, 4294967296, u64::MAX - 1, u64::MAX] {
        assert_eq!(decimal_string(n), n.to_string());
    }
}

#[test]
fn rendered_resolution_reads_back() {
    for (w, h) in [(0u32, 0u32), (1920, 1080), (7, 123456), (u32::MAX, 1)] {
        let text = format!("{}x{}", decimal_string(w as u64), decimal_string(h as u64));
        assert_eq!(parse_resolution(&text), Ok((w, h)));
    }
}
