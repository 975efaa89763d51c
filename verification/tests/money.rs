use rustbill_core::billing::invoices::discount_amount;
use rustbill_core::models::DiscountType;
use rustbill_core::error::BillingError;
use rustbill_core::money::Dec;
use rustbill_core::text::int_string;
use rustbill_core::time::{days_between, format_compact, format_ymd};

#[test]
fn decimal_text_keeps_scale() {
    assert_eq!(Dec::new(4725, 2).to_text(), "47.25");
    assert_eq!(Dec::new(-5, 3).to_text(), "-0.005");
    assert_eq!(Dec::new(100, 2).to_text(), "1.00");
    assert_eq!(Dec::from_int(0).to_text(), "0");
}

#[test]
fn decimal_arithmetic_is_exact() {
    let a = Dec::new(1050, 2);
    let b = Dec::new(25, 1);
    assert_eq!(a.checked_add(&b).expect("sum").to_text(), "13.00");
    assert_eq!(a.checked_sub(&b).expect("diff").to_text(), "8.00");
    assert_eq!(a.checked_mul(&b).expect("product").to_text(), "26.250");
    assert_eq!(Dec::new(2675, 3).round_dp(2).to_text(), "2.68");
    assert_eq!(Dec::new(2665, 3).round_dp(2).to_text(), "2.66");
    assert_eq!(Dec::new(-2665, 3).round_dp(2).to_text(), "-2.66");
    assert_eq!(a.compare(&b), 1);
    assert!(Dec::new(100, 2).eq_value(&Dec::from_int(1)));
    assert_eq!(a.min(&b).to_text(), "2.5");
    assert_eq!(Dec::new(-7, 0).abs().to_text(), "7");
}

#[test]
fn decimal_overflow_is_reported() {
    let big = Dec::from_parts(79_228_162_514_264_337_593_543_950_335, 0).expect("max");
    assert!(big.checked_add(&Dec::from_int(1)).is_none());
    assert!(Dec::from_parts(79_228_162_514_264_337_593_543_950_336, 0).is_none());
}

#[test]
fn division_goes_through_the_decimal_library() {
    let quarter = discount_amount(DiscountType::Percentage, &Dec::from_int(25), &Dec::from_int(1)).expect("q");
    assert_eq!(quarter.to_text(), "0.25");
    let whole = discount_amount(DiscountType::Percentage, &Dec::from_int(100), &Dec::new(1, 2)).expect("t");
    assert_eq!(whole.to_text(), "0.01");
}

#[test]
fn dates_and_numbers_as_text() {
    assert_eq!(format_ymd(1_769_904_000).expect("date"), "2026-02-01");
    assert_eq!(format_compact(1_769_904_001).expect("stamp"), "20260201000001");
    assert_eq!(int_string(-42), "-42");
    assert_eq!(days_between(0, -86_401), -1);
    assert_eq!(days_between(0, 3 * 86_400 + 5), 3);
}

#[test]
fn error_messages_name_what_failed() {
    let missing = BillingError::NotFound { entity: "invoice".to_string(), id: "inv_1".to_string() };
    assert_eq!(missing.message(), "invoice not found: inv_1");
    assert_eq!(BillingError::Forbidden.message(), "forbidden");
    assert_eq!(BillingError::ProviderNotConfigured("paypal".to_string()).message(), "provider not configured: paypal");
    assert_eq!(BillingError::Conflict("taken".to_string()).message(), "taken");
    assert_eq!(BillingError::Internal("boom".to_string()).message(), "boom");
}
