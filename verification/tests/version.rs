use hegel_session::version::{
    parse_version, try_parse_version, VersionError, SUPPORTED_PROTOCOL_VERSIONS,
};

#[test]
fn major_and_minor_are_read() {
    assert_eq!(parse_version("0.14"), (0, 14));
    assert_eq!(parse_version("12.345"), (12, 345));
    assert_eq!(parse_version("4294967295.0"), (4294967295, 0));
}

#[test]
fn leading_zeros_and_a_plus_sign_are_allowed() {
    assert_eq!(try_parse_version("00.014"), Ok((0, 14)));
    assert_eq!(try_parse_version("+0.+14"), Ok((0, 14)));
}

#[test]
fn anything_but_one_dot_is_a_format_error() {
    assert_eq!(try_parse_version(""), Err(VersionError::Format));
    assert_eq!(try_parse_version("14"), Err(VersionError::Format));
    assert_eq!(try_parse_version("0.14.1"), Err(VersionError::Format));
    assert_eq!(try_parse_version(".."), Err(VersionError::Format));
}

#[test]
fn a_bad_major_part_is_reported_first() {
    assert_eq!(try_parse_version("."), Err(VersionError::Major));
    assert_eq!(try_parse_version("x.14"), Err(VersionError::Major));
    assert_eq!(try_parse_version("-1.14"), Err(VersionError::Major));
    assert_eq!(try_parse_version("+.14"), Err(VersionError::Major));
    assert_eq!(try_parse_version("++1.14"), Err(VersionError::Major));
    assert_eq!(try_parse_version("4294967296.x"), Err(VersionError::Major));
}

#[test]
fn a_bad_minor_part_is_reported() {
    assert_eq!(try_parse_version("0."), Err(VersionError::Minor));
    assert_eq!(try_parse_version("0.1a"), Err(VersionError::Minor));
    assert_eq!(try_parse_version("0. 14"), Err(VersionError::Minor));
    assert_eq!(try_parse_version("0.99999999999999999999999"), Err(VersionError::Minor));
    assert_eq!(try_parse_version("0.\u{0664}"), Err(VersionError::Minor));
}

#[test]
fn numbers_are_read_as_the_standard_library_reads_them() {
    for text in [
        "", "0", "7", "007", "+7", "+", "-7", "4294967295", "4294967296", "1 ", "1_0", "9x",
        "\u{0661}",
    ] {
        let version = format!("{}.0", text);
        assert_eq!(try_parse_version(&version).ok().map(|v| v.0), text.parse::<u32>().ok());
    }
}

#[test]
fn version_texts_read_back() {
    for v in [(0, 0), (0, 14), (9, 10), (99, 100), (4294967295, 4294967295)] {
        let v: (u32, u32) = v;
        assert_eq!(parse_version(&format!("{}.{}", v.0, v.1)), v);
    }
}

#[test]
fn the_supported_range_is_one_version() {
    assert_eq!(SUPPORTED_PROTOCOL_VERSIONS, ("0.14", "0.14"));
}

#[test]
fn version_errors_have_messages() {
    assert_eq!(
        VersionError::Format.message("1"),
        "invalid version string '1': expected 'major.minor' format"
    );
    assert_eq!(VersionError::Major.message("a.1"), "invalid major version in 'a.1'");
    assert_eq!(VersionError::Minor.message("1.a"), "invalid minor version in '1.a'");
}
