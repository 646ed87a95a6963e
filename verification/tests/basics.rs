use cim::config::{
    default_cache_size, default_endpoint, default_expiration, default_max_size, default_min_idle,
    default_port, default_rotate, default_rust_log, default_time, port_in_range,
};
use cim::num::{i64_to_text, parse_i64, parse_usize, u64_to_text};
use cim::regexp::{check_order_by, check_password};
use cim::text::{split_at_char, split_whitespace};

#[test]
fn config_defaults() {
    assert_eq!(default_rust_log(), "server=info");
    assert_eq!(default_endpoint(), "0.0.0.0");
    assert_eq!(default_port(), 30050);
    assert_eq!(default_max_size(), 50);
    assert_eq!(default_min_idle(), 30);
    assert_eq!(default_cache_size(), 512);
    assert_eq!(default_expiration(), 3600);
    assert_eq!(default_time(), 10);
    assert!(default_rotate());
}

#[test]
fn ports_in_range() {
    assert_eq!(port_in_range("8080"), Ok(8080));
    assert_eq!(port_in_range("1"), Ok(1));
    assert_eq!(port_in_range("65535"), Ok(65535));
    assert_eq!(port_in_range("0"), Err("port not in range 1-65535".to_owned()));
    assert_eq!(port_in_range("65536"), Err("port not in range 1-65535".to_owned()));
    assert_eq!(port_in_range("http"), Err("`http` isn't a port number".to_owned()));
    assert_eq!(port_in_range("-1"), Err("`-1` isn't a port number".to_owned()));
}

#[test]
fn numbers_read_as_std_reads_them() {
    for s in ["0", "42", "+7", "", "+", "-3", "12a", "18446744073709551615", "18446744073709551616"] {
        assert_eq!(parse_usize(s), s.parse::<usize>().ok(), "{}", s);
    }
    for s in ["0", "-0", "-42", "+42", "9223372036854775807", "-9223372036854775808", "9223372036854775808", "-", "1-"] {
        assert_eq!(parse_i64(s), s.parse::<i64>().ok(), "{}", s);
    }
}

#[test]
fn numbers_print_in_decimal() {
    assert_eq!(u64_to_text(0), "0");
    assert_eq!(u64_to_text(1234567890), "1234567890");
    assert_eq!(u64_to_text(u64::MAX), "18446744073709551615");
    assert_eq!(i64_to_text(-45), "-45");
    assert_eq!(i64_to_text(i64::MIN), "-9223372036854775808");
    assert_eq!(i64_to_text(7), "7");
}

#[test]
fn printed_numbers_read_back() {
    for n in [0u64, 9, 10, 65535, 1 << 40] {
        assert_eq!(parse_usize(&u64_to_text(n)), Some(n as usize));
    }
    for n in [i64::MIN, -1, 0, 1, i64::MAX] {
        assert_eq!(parse_i64(&i64_to_text(n)), Some(n));
    }
}

#[test]
fn whitespace_splitting() {
    assert_eq!(split_whitespace("  openid  profile\temail\n"), vec!["openid", "profile", "email"]);
    assert_eq!(split_whitespace(""), Vec::<String>::new());
    assert_eq!(split_whitespace("a\u{3000}b"), vec!["a", "b"]);
    assert_eq!(split_at_char("Cim.404.1", '.'), vec!["Cim", "404", "1"]);
    assert_eq!(split_at_char("a..b", '.'), vec!["a", "", "b"]);
    assert_eq!(split_at_char("", '.'), vec![""]);
}

#[test]
fn password_rule() {
    assert!(check_password("ag1234567890123456789").is_ok());
    assert!(check_password("a#@$_5678901234").is_ok());
    let short = check_password("ag123").unwrap_err();
    assert_eq!(short.code, "invalid password");
    assert!(check_password("1g1234567890123456789").is_err());
}

#[test]
fn order_by_rule() {
    assert!(check_order_by("created_at desc").is_ok());
    assert!(check_order_by("name,created_at ASC").is_ok());
    let bad = check_order_by("name;drop").unwrap_err();
    assert_eq!(bad.code, "invalid order by");
    assert!(check_order_by("a").is_err());
}
