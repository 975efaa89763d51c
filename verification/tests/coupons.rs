use rustbill_core::billing::coupons::{coupon_lapsed, new_coupon, redeemed, updated_coupon};
use std::cell::RefCell;

use rustbill_core::billing::coupons::{
    apply_coupon, create_coupon, default_true, delete_coupon, get_coupon, update_coupon,
    ApplyCouponRequest, CouponView, CouponsRepository, CreateCouponRequest, UpdateCouponRequest,
};
use rustbill_core::error::BillingError;
use rustbill_core::models::{
    Coupon, DiscountType, MetadataNumber, Subscription, SubscriptionDiscount, SubscriptionStatus,
};
use rustbill_core::money::Dec;

fn sample_coupon(active: bool, times_redeemed: i32) -> Coupon {
    Coupon {
        id: "coupon_1".to_string(),
        code: "SAVE10".to_string(),
        name: "Save 10".to_string(),
        discount_type: DiscountType::Percentage,
        discount_value: Dec::from_int(10),
        currency: "USD".to_string(),
        max_redemptions: Some(5),
        times_redeemed,
        valid_from: 1_767_225_600,
        valid_until: None,
        active,
    }
}

fn sample_subscription() -> Subscription {
    Subscription {
        id: "sub_1".to_string(),
        customer_id: "cus_1".to_string(),
        plan_id: "plan_1".to_string(),
        status: SubscriptionStatus::Active,
        current_period_start: 0,
        current_period_end: 0,
        canceled_at: None,
        cancel_at_period_end: false,
        trial_end: None,
        quantity: 1,
        managed_by: None,
        version: 1,
        meta_pre_renewal_days: MetadataNumber::Absent,
        meta_pre_renewal_days_snake: MetadataNumber::Absent,
    }
}

fn sample_discount() -> SubscriptionDiscount {
    SubscriptionDiscount {
        id: "sd_1".to_string(),
        subscription_id: "sub_1".to_string(),
        coupon_id: "coupon_1".to_string(),
        applied_at: 0,
        expires_at: None,
    }
}

#[derive(Default)]
struct StubRepo {
    coupon_by_id: Option<Coupon>,
    coupon_by_code: Option<Coupon>,
    subscription: Option<Subscription>,
    applied_exists: bool,
    deleted_rows: u64,
    created: RefCell<Option<CreateCouponRequest>>,
    updated: RefCell<Option<(String, UpdateCouponRequest)>>,
    applied: RefCell<Option<(String, String)>>,
}

impl CouponsRepository for StubRepo {
    fn list_coupons(&self) -> Result<Vec<CouponView>, BillingError> {
        Ok(Vec::new())
    }
    fn get_coupon(&self, id: &str) -> Result<Option<Coupon>, BillingError> {
        Ok(self.coupon_by_id.clone().filter(|c| c.id == id))
    }
    fn find_coupon_by_code(&self, code: &str) -> Result<Option<Coupon>, BillingError> {
        Ok(self.coupon_by_code.clone().filter(|c| c.code == code))
    }
    fn create_coupon(&mut self, req: &CreateCouponRequest) -> Result<Coupon, BillingError> {
        *self.created.borrow_mut() = Some(req.clone());
        Ok(sample_coupon(true, 0))
    }
    fn update_coupon(&mut self, id: &str, req: &UpdateCouponRequest) -> Result<Coupon, BillingError> {
        *self.updated.borrow_mut() = Some((id.to_string(), req.clone()));
        Ok(sample_coupon(true, 1))
    }
    fn delete_coupon(&mut self, _id: &str) -> Result<u64, BillingError> {
        Ok(self.deleted_rows)
    }
    fn find_subscription(&self, _id: &str) -> Result<Option<Subscription>, BillingError> {
        Ok(self.subscription.clone())
    }
    fn subscription_has_coupon(&self, _s: &str, _c: &str) -> Result<bool, BillingError> {
        Ok(self.applied_exists)
    }
    fn apply_coupon(&mut self, s: &Subscription, c: &Coupon, _e: Option<i64>) -> Result<SubscriptionDiscount, BillingError> {
        *self.applied.borrow_mut() = Some((s.id.clone(), c.id.clone()));
        Ok(sample_discount())
    }
}

fn create_request(code: &str) -> CreateCouponRequest {
    CreateCouponRequest {
        code: code.to_string(),
        name: "Save 10".to_string(),
        discount_type: DiscountType::Percentage,
        discount_value: Dec::from_int(10),
        currency: None,
        max_redemptions: Some(5),
        valid_from: 1_767_225_600,
        valid_until: None,
        active: default_true(),
        applies_to: None,
    }
}

fn update_request(name: Option<&str>) -> UpdateCouponRequest {
    UpdateCouponRequest {
        name: name.map(str::to_string),
        discount_type: None,
        discount_value: None,
        currency: None,
        max_redemptions: None,
        valid_until: None,
        active: None,
        applies_to: None,
    }
}

#[test]
fn create_coupon_rejects_duplicates() {
    let mut repo = StubRepo { coupon_by_code: Some(sample_coupon(true, 0)), ..StubRepo::default() };
    let err = create_coupon(&mut repo, create_request("SAVE10")).expect_err("expected conflict");
    assert!(matches!(err, BillingError::Conflict(m) if m == "coupon code 'SAVE10' already exists"));
    assert!(repo.created.borrow().is_none());
}

#[test]
fn update_coupon_maps_missing_to_not_found() {
    let mut repo = StubRepo::default();
    let err = update_coupon(&mut repo, "coupon_1", update_request(Some("Updated"))).expect_err("expected not found");
    assert!(matches!(err, BillingError::NotFound { entity, id } if entity == "coupon" && id == "coupon_1"));
}

#[test]
fn delete_coupon_maps_zero_rows_to_not_found() {
    let mut repo = StubRepo::default();
    let err = delete_coupon(&mut repo, "coupon_1").expect_err("expected not found");
    assert!(matches!(err, BillingError::NotFound { entity, id } if entity == "coupon" && id == "coupon_1"));
}

#[test]
fn apply_coupon_returns_conflict_when_already_applied() {
    let mut repo = StubRepo {
        coupon_by_id: Some(sample_coupon(true, 0)),
        subscription: Some(sample_subscription()),
        applied_exists: true,
        ..StubRepo::default()
    };
    let err = apply_coupon(&mut repo, ApplyCouponRequest { subscription_id: "sub_1".to_string(), coupon_id: "coupon_1".to_string(), expires_at: None })
        .expect_err("expected conflict");
    assert!(matches!(err, BillingError::Conflict(m) if m == "coupon already applied to this subscription"));
    assert!(repo.applied.borrow().is_none());
}

#[test]
fn coupon_validation_rules() {
    let mut repo = StubRepo::default();
    let err = create_coupon(&mut repo, create_request("")).expect_err("invalid");
    assert!(matches!(err, BillingError::Validation(m) if m == "code is required"));
    let long = "X".repeat(51);
    assert!(matches!(create_coupon(&mut repo, create_request(&long)).expect_err("invalid"), BillingError::Validation(_)));
    assert!(create_coupon(&mut repo, create_request(&"X".repeat(50))).is_ok());
    let err = update_coupon(&mut repo, "coupon_1", update_request(Some(""))).expect_err("invalid");
    assert!(matches!(err, BillingError::Validation(m) if m == "name must not be empty"));
}

#[test]
fn apply_coupon_checks_in_order() {
    let req = || ApplyCouponRequest { subscription_id: "sub_1".to_string(), coupon_id: "coupon_1".to_string(), expires_at: None };
    let mut repo = StubRepo { coupon_by_id: Some(sample_coupon(true, 0)), ..StubRepo::default() };
    assert!(matches!(apply_coupon(&mut repo, req()).expect_err("nf"), BillingError::NotFound { entity, .. } if entity == "subscription"));
    let mut repo = StubRepo { subscription: Some(sample_subscription()), ..StubRepo::default() };
    assert!(matches!(apply_coupon(&mut repo, req()).expect_err("nf"), BillingError::NotFound { entity, .. } if entity == "coupon"));
    let mut repo = StubRepo { coupon_by_id: Some(sample_coupon(false, 0)), subscription: Some(sample_subscription()), ..StubRepo::default() };
    assert!(matches!(apply_coupon(&mut repo, req()).expect_err("inactive"), BillingError::BadRequest(m) if m == "coupon is not active"));
    let mut repo = StubRepo { coupon_by_id: Some(sample_coupon(true, 5)), subscription: Some(sample_subscription()), ..StubRepo::default() };
    assert!(matches!(apply_coupon(&mut repo, req()).expect_err("exhausted"), BillingError::BadRequest(m) if m == "coupon has reached max redemptions"));
    let mut repo = StubRepo { coupon_by_id: Some(sample_coupon(true, 0)), subscription: Some(sample_subscription()), ..StubRepo::default() };
    assert_eq!(apply_coupon(&mut repo, req()).expect("applied").id, "sd_1");
    assert_eq!(*repo.applied.borrow(), Some(("sub_1".to_string(), "coupon_1".to_string())));
    assert_eq!(get_coupon(&repo, "coupon_1").expect("found").code, "SAVE10");
}

#[test]
fn coupon_records_follow_requests() {
    let c = new_coupon(&create_request("SAVE10"), "coupon_9".to_string());
    assert_eq!((c.currency.as_str(), c.times_redeemed, c.active), ("USD", 0, true));
    let mut upd = update_request(Some("Renamed"));
    upd.max_redemptions = Some(None);
    upd.active = Some(false);
    let u = updated_coupon(&c, &upd);
    assert_eq!(u.name, "Renamed");
    assert_eq!(u.max_redemptions, Some(5));
    assert!(!u.active);
    upd.max_redemptions = Some(Some(9));
    assert_eq!(updated_coupon(&c, &upd).max_redemptions, Some(9));
    assert_eq!(redeemed(&c).times_redeemed, 1);
    let mut ending = sample_coupon(true, 0);
    ending.valid_until = Some(100);
    assert!(coupon_lapsed(&ending, 101));
    assert!(!coupon_lapsed(&ending, 100));
}
