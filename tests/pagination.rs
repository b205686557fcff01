use restful_api::config::Config;
use restful_api::error::{ApiError, Field};
use restful_api::pagination::{extract_pagination, parse_i32, parse_u16, Pagination};

#[test]
fn empty_query_means_whole_listing() {
    assert_eq!(extract_pagination(None, None), Ok(Pagination { limit: None, offset: 0 }));
    assert_eq!(Pagination::default(), Pagination { limit: None, offset: 0 });
}

#[test]
fn limit_and_offset_are_read() {
    assert_eq!(
        extract_pagination(Some("10"), Some("5")),
        Ok(Pagination { limit: Some(10), offset: 5 })
    );
    assert_eq!(extract_pagination(Some("3"), None), Ok(Pagination { limit: Some(3), offset: 0 }));
    assert_eq!(extract_pagination(None, Some("7")), Ok(Pagination { limit: None, offset: 7 }));
}

#[test]
fn malformed_values_name_their_field() {
    assert_eq!(extract_pagination(Some("abc"), None), Err(ApiError::ParseError(Field::Limit)));
    assert_eq!(extract_pagination(Some("1"), Some("x")), Err(ApiError::ParseError(Field::Offset)));
    assert_eq!(extract_pagination(Some("abc"), Some("x")), Err(ApiError::ParseError(Field::Limit)));
}

#[test]
fn out_of_range_values_are_rejected() {
    assert_eq!(extract_pagination(Some("0"), None), Err(ApiError::OutOfRange(Field::Limit)));
    assert_eq!(extract_pagination(Some("-4"), None), Err(ApiError::OutOfRange(Field::Limit)));
    assert_eq!(extract_pagination(None, Some("-1")), Err(ApiError::OutOfRange(Field::Offset)));
}

#[test]
fn decimal_parsing_follows_std() {
    let cases = [
        "0", "7", "+5", "-5", "2147483647", "-2147483648", "2147483648", "-2147483649", "",
        "-", "+", "12a", " 1", "00012", "99999999999999999999",
    ];
    for c in cases {
        assert_eq!(parse_i32(c), c.parse::<i32>().ok(), "{:?}", c);
        assert_eq!(parse_u16(c), c.parse::<u16>().ok(), "{:?}", c);
    }
    assert_eq!(parse_u16("65535"), Some(65535));
    assert_eq!(parse_u16("65536"), None);
    assert_eq!(parse_u16("-0"), None);
}

fn cli() -> Config {
    Config {
        log_level: "warn".to_string(),
        port: 3030,
        db_user: "postgres".to_string(),
        db_password: "password".to_string(),
        db_host: "localhost".to_string(),
        db_port: 5432,
        db_name: "data".to_string(),
    }
}

#[test]
fn environment_overrides_command_line() {
    let c = Config::resolve(
        cli(),
        Some("8080".to_string()),
        Some("user".to_string()),
        "pass".to_string(),
        Some("localhost".to_string()),
        Some("5432".to_string()),
        Some("data".to_string()),
    )
    .unwrap();
    let expected = Config {
        log_level: "warn".to_string(),
        port: 8080,
        db_user: "user".to_string(),
        db_password: "pass".to_string(),
        db_host: "localhost".to_string(),
        db_port: 5432,
        db_name: "data".to_string(),
    };
    assert_eq!(c, expected);
}

#[test]
fn defaults_stay_without_overrides() {
    let c = Config::resolve(cli(), None, None, "secret".to_string(), None, None, None).unwrap();
    assert_eq!(c.port, 3030);
    assert_eq!(c.db_user, "postgres");
    assert_eq!(c.db_password, "secret");
    assert_eq!(c.db_port, 5432);
}

#[test]
fn bad_ports_are_rejected() {
    let r = Config::resolve(cli(), Some("http".to_string()), None, "p".to_string(), None, None, None);
    assert_eq!(r, Err(ApiError::ParseError(Field::Port)));
    let r = Config::resolve(cli(), None, None, "p".to_string(), None, Some("70000".to_string()), None);
    assert_eq!(r, Err(ApiError::ParseError(Field::DbPort)));
}
