use wallet_flow::text::{coin_amount_text, decimal_text, text_contains};

#[test]
fn contains_finds_marker() {
    assert!(text_contains("RpcError { code: -4, message: \"x\" }", "code: -4"));
    assert!(text_contains("code: -4", "code: -4"));
}

#[test]
fn contains_rejects_other_codes() {
    assert!(!text_contains("RpcError { code: -18 }", "code: -4"));
    assert!(!text_contains("", "code: -4"));
    assert!(!text_contains("code:", "code: -4"));
}

#[test]
fn contains_empty_pattern() {
    assert!(text_contains("", ""));
    assert!(text_contains("abc", ""));
}

#[test]
fn decimal_of_integers() {
    assert_eq!(decimal_text(0), "0");
    assert_eq!(decimal_text(7), "7");
    assert_eq!(decimal_text(102), "102");
    assert_eq!(decimal_text(u64::MAX), "18446744073709551615");
}

#[test]
fn coin_amounts_whole() {
    assert_eq!(coin_amount_text(0), "0");
    assert_eq!(coin_amount_text(2_000_000_000), "20");
    assert_eq!(coin_amount_text(5_000_000_000), "50");
}

#[test]
fn coin_amounts_fraction() {
    assert_eq!(coin_amount_text(2_999_998_590), "29.9999859");
    assert_eq!(coin_amount_text(150_000_000), "1.5");
    assert_eq!(coin_amount_text(1), "0.00000001");
}

#[test]
fn coin_amounts_negative() {
    assert_eq!(coin_amount_text(-1410), "-0.0000141");
    assert_eq!(coin_amount_text(-2_000_000_000), "-20");
}

#[test]
fn coin_amounts_extremes() {
    assert_eq!(
        coin_amount_text(i128::MIN),
        "-1701411834604692317316873037158.84105728"
    );
    assert_eq!(
        coin_amount_text(i128::MAX),
        "1701411834604692317316873037158.84105727"
    );
}
