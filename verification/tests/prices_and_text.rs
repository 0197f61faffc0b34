use auction_service::price::Price;
use auction_service::text::{contains_text, join_lines, str_equal};

fn p(x: f32) -> Price {
    Price::from_bits(x.to_bits())
}

#[test]
fn comparisons_agree_with_floats() {
    let samples = [
        0.0f32, -0.0, 1.0, -1.0, 0.5, 12.5, -12.5, 1e-40, -1e-40, 3.4e38, -3.4e38,
        f32::INFINITY, f32::NEG_INFINITY, f32::NAN, -f32::NAN, f32::MIN_POSITIVE, 100.0, 99.99,
    ];
    for a in samples {
        for b in samples {
            assert_eq!(p(a).lt(&p(b)), a < b, "{} < {}", a, b);
            assert_eq!(p(a).le(&p(b)), a <= b, "{} <= {}", a, b);
            assert_eq!(p(a).gt(&p(b)), a > b, "{} > {}", a, b);
            assert_eq!(p(a).ge(&p(b)), a >= b, "{} >= {}", a, b);
        }
    }
}

#[test]
fn zeros_are_equal_and_nan_is_unordered() {
    assert!(!p(0.0).lt(&p(-0.0)));
    assert!(p(0.0).le(&p(-0.0)));
    assert!(p(f32::NAN).is_not_a_number());
    assert!(!p(f32::NAN).ge(&p(f32::NAN)));
    assert!(!p(1.0).is_not_a_number());
    assert_eq!(p(2.5).to_bits(), 2.5f32.to_bits());
}

#[test]
fn string_equality() {
    assert!(str_equal("auction", "auction"));
    assert!(!str_equal("auction", "auctions"));
    assert!(!str_equal("buynow", "auction"));
    assert!(str_equal("", ""));
    assert!(str_equal("zażółć", "zażółć"));
}

#[test]
fn substring_search() {
    assert!(contains_text("red bicycle", "bicycle"));
    assert!(contains_text("red bicycle", ""));
    assert!(contains_text("red bicycle", "red bicycle"));
    assert!(!contains_text("red bicycle", "blue"));
    assert!(!contains_text("bike", "bikes"));
    assert!(contains_text("łódź ♥ x", "♥ x"));
    assert!(!contains_text("", "a"));
}

#[test]
fn lines_are_joined_with_breaks() {
    assert_eq!(join_lines(&vec![]), "");
    assert_eq!(join_lines(&vec!["{\"a\":1}".to_string(), "{}".to_string()]), "{\"a\":1}\n{}\n");
}
