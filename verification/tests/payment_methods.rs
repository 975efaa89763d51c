use rustbill_core::billing::payment_methods::{found_method, initial_default, mark_failed_in, set_default_in};
use rustbill_core::error::BillingError;
use rustbill_core::models::{PaymentProvider, SavedPaymentMethod, SavedPaymentMethodStatus, SavedPaymentMethodType};

fn method(id: &str, is_default: bool) -> SavedPaymentMethod {
    SavedPaymentMethod {
        id: id.to_string(),
        customer_id: "cus_1".to_string(),
        provider: PaymentProvider::Stripe,
        provider_token: format!("tok_{id}"),
        method_type: SavedPaymentMethodType::Card,
        label: "card".to_string(),
        last_four: None,
        expiry_month: None,
        expiry_year: None,
        is_default,
        status: SavedPaymentMethodStatus::Active,
    }
}

#[test]
fn first_method_becomes_default() {
    assert!(initial_default(false, 0));
    assert!(!initial_default(false, 2));
    assert!(initial_default(true, 2));
}

#[test]
fn set_default_keeps_a_single_default() {
    let mut wallet = vec![method("pm_1", true), method("pm_2", false), method("pm_3", false)];
    set_default_in(&mut wallet, &"pm_3".to_string()).expect("set");
    let defaults: Vec<&str> = wallet.iter().filter(|m| m.is_default).map(|m| m.id.as_str()).collect();
    assert_eq!(defaults, vec!["pm_3"]);
    let before: Vec<bool> = wallet.iter().map(|m| m.is_default).collect();
    let err = set_default_in(&mut wallet, &"pm_9".to_string()).expect_err("missing");
    assert!(matches!(err, BillingError::NotFound { entity, id } if entity == "payment_method" && id == "pm_9"));
    assert_eq!(before, wallet.iter().map(|m| m.is_default).collect::<Vec<bool>>());
}

#[test]
fn failed_method_loses_default() {
    let mut wallet = vec![method("pm_1", true), method("pm_2", false)];
    mark_failed_in(&mut wallet, &"pm_1".to_string());
    assert_eq!(wallet[0].status, SavedPaymentMethodStatus::Failed);
    assert!(!wallet[0].is_default);
    assert_eq!(wallet[1].status, SavedPaymentMethodStatus::Active);
    assert!(matches!(found_method("pm_x", None).expect_err("nf"), BillingError::NotFound { .. }));
    assert_eq!(found_method("pm_1", Some(method("pm_1", true))).expect("ok").id, "pm_1");
}
