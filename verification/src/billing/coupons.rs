//! Coupons: their validation, their lifecycle, and attaching them to subscriptions.
use vstd::prelude::*;
use crate::billing::invoices::coupon_exhausted;
use crate::error::{bad_request, conflict, not_found, validation, BillingError};
use crate::models::{Coupon, DiscountType, Subscription, SubscriptionDiscount};
use crate::money::Dec;
use crate::text::{chars_of, extend_str, string_of};

verus! {

#[derive(Clone, Debug)]
pub struct CreateCouponRequest {
    pub code: String,
    pub name: String,
    pub discount_type: DiscountType,
    pub discount_value: Dec,
    pub currency: Option<String>,
    pub max_redemptions: Option<i32>,
    pub valid_from: i64,
    pub valid_until: Option<i64>,
    pub active: bool,
    /// The `applies_to` JSON document, kept as its text.
    pub applies_to: Option<String>,
}

/// A coupon is active unless the request says otherwise.
pub fn default_true() -> (r: bool)
    ensures
        r,
{
    true
}

#[derive(Clone, Debug)]
pub struct UpdateCouponRequest {
    pub name: Option<String>,
    pub discount_type: Option<DiscountType>,
    pub discount_value: Option<Dec>,
    pub currency: Option<String>,
    pub max_redemptions: Option<Option<i32>>,
    pub valid_until: Option<Option<i64>>,
    pub active: Option<bool>,
    pub applies_to: Option<Option<String>>,
}

#[derive(Clone, Debug)]
pub struct ApplyCouponRequest {
    pub subscription_id: String,
    pub coupon_id: String,
    pub expires_at: Option<i64>,
}

#[derive(Clone, Debug)]
pub struct CouponView {
    pub id: String,
    pub code: String,
    pub name: String,
    pub discount_type: DiscountType,
    pub discount_value: Dec,
    pub currency: String,
    pub max_redemptions: Option<i32>,
    pub times_redeemed: i32,
    pub valid_from: i64,
    pub valid_until: Option<i64>,
    pub active: bool,
    pub applies_to: Option<String>,
}

/// Storage of coupons and of their attachment to subscriptions.
pub trait CouponsRepository: Sized {
    /// Holds of each answer the store gives when asked for the coupon `id`; a store that
    /// does not describe its answers admits every answer.
    closed spec fn get_coupon_answer(&self, id: Seq<char>, answer: Result<Option<Coupon>, BillingError>) -> bool {
        true
    }

    /// Holds of each answer to listing the coupons.
    closed spec fn list_coupons_answer(&self, answer: Result<Vec<CouponView>, BillingError>) -> bool {
        true
    }

    /// Holds of each answer to deleting the coupon `id` (the rows deleted).
    closed spec fn delete_coupon_answer(&self, id: Seq<char>, answer: Result<u64, BillingError>) -> bool {
        true
    }

    /// Holds of each answer when asked for the subscription `id`.
    closed spec fn find_subscription_answer(&self, id: Seq<char>, answer: Result<Option<Subscription>, BillingError>) -> bool {
        true
    }

    /// Holds of each answer when asked whether the coupon is attached to the subscription.
    closed spec fn subscription_has_coupon_answer(&self, subscription_id: Seq<char>, coupon_id: Seq<char>, answer: Result<bool, BillingError>) -> bool {
        true
    }

    /// Holds of each answer to attaching the coupon to the subscription until `expires_at`.
    closed spec fn apply_coupon_answer(&self, subscription: Subscription, coupon: Coupon, expires_at: Option<i64>, answer: Result<SubscriptionDiscount, BillingError>) -> bool {
        true
    }

    fn list_coupons(&self) -> (r: Result<Vec<CouponView>, BillingError>)
        ensures
            self.list_coupons_answer(r),
    ;

    fn get_coupon(&self, id: &str) -> (r: Result<Option<Coupon>, BillingError>)
        ensures
            self.get_coupon_answer(id@, r),
    ;

    /// Holds of each answer when asked for the coupon with `code`.
    closed spec fn find_coupon_by_code_answer(&self, code: Seq<char>, answer: Result<Option<Coupon>, BillingError>) -> bool {
        true
    }

    /// Holds of each answer to storing a new coupon from `req`.
    closed spec fn create_coupon_answer(&self, req: CreateCouponRequest, answer: Result<Coupon, BillingError>) -> bool {
        true
    }

    /// Holds of each answer to storing the update `req` on the coupon `id`.
    closed spec fn update_coupon_answer(&self, id: Seq<char>, req: UpdateCouponRequest, answer: Result<Coupon, BillingError>) -> bool {
        true
    }

    fn find_coupon_by_code(&self, code: &str) -> (r: Result<Option<Coupon>, BillingError>)
        ensures
            self.find_coupon_by_code_answer(code@, r),
    ;

    /// The store after storing a new coupon from `req`, with that answer; a store that
    /// does not describe its state keeps the same value (so for each `after_` function
    /// below).
    closed spec fn after_create_coupon(&self, req: CreateCouponRequest, answer: Result<Coupon, BillingError>) -> Self {
        *self
    }

    /// The store after storing the update `req` on the coupon `id`.
    closed spec fn after_update_coupon(&self, id: Seq<char>, req: UpdateCouponRequest, answer: Result<Coupon, BillingError>) -> Self {
        *self
    }

    /// The store after deleting the coupon `id`.
    closed spec fn after_delete_coupon(&self, id: Seq<char>, answer: Result<u64, BillingError>) -> Self {
        *self
    }

    /// The store after attaching the coupon to the subscription.
    closed spec fn after_apply_coupon(&self, subscription: Subscription, coupon: Coupon, expires_at: Option<i64>, answer: Result<SubscriptionDiscount, BillingError>) -> Self {
        *self
    }

    fn create_coupon(&mut self, req: &CreateCouponRequest) -> (r: Result<Coupon, BillingError>)
        ensures
            old(self).create_coupon_answer(*req, r),
            *final(self) == old(self).after_create_coupon(*req, r),
    ;

    fn update_coupon(&mut self, id: &str, req: &UpdateCouponRequest) -> (r: Result<Coupon, BillingError>)
        ensures
            old(self).update_coupon_answer(id@, *req, r),
            *final(self) == old(self).after_update_coupon(id@, *req, r),
    ;

    fn delete_coupon(&mut self, id: &str) -> (r: Result<u64, BillingError>)
        ensures
            old(self).delete_coupon_answer(id@, r),
            *final(self) == old(self).after_delete_coupon(id@, r),
    ;

    fn find_subscription(&self, id: &str) -> (r: Result<Option<Subscription>, BillingError>)
        ensures
            self.find_subscription_answer(id@, r),
    ;

    fn subscription_has_coupon(&self, subscription_id: &str, coupon_id: &str) -> (r: Result<
        bool,
        BillingError,
    >)
        ensures
            self.subscription_has_coupon_answer(subscription_id@, coupon_id@, r),
    ;

    fn apply_coupon(
        &mut self,
        subscription: &Subscription,
        coupon: &Coupon,
        expires_at: Option<i64>,
    ) -> (r: Result<SubscriptionDiscount, BillingError>)
        ensures
            old(self).apply_coupon_answer(*subscription, *coupon, expires_at, r),
            *final(self) == old(self).after_apply_coupon(*subscription, *coupon, expires_at, r),
    ;
}

/// Whether a text has between `min` and `max` characters.
pub fn char_len_within(s: &String, min: usize, max: usize) -> (r: bool)
    ensures
        r == (min <= s@.len() && s@.len() <= max),
{
    let v = chars_of(s.as_str());
    min <= v.len() && v.len() <= max
}

/// The first broken rule of a new coupon: a code of 1 to 50 characters, then a name of
/// 1 to 255 characters.
pub open spec fn create_coupon_violation(req: CreateCouponRequest) -> Option<Seq<char>> {
    if !(1 <= req.code@.len() <= 50) {
        Some("code is required"@)
    } else if !(1 <= req.name@.len() <= 255) {
        Some("name is required"@)
    } else {
        None
    }
}

pub fn validate_create_coupon(req: &CreateCouponRequest) -> (r: Result<(), BillingError>)
    ensures
        match create_coupon_violation(*req) {
            Some(m) => r matches Err(BillingError::Validation(t)) && t@ == m,
            None => r is Ok,
        },
{
    if !char_len_within(&req.code, 1, 50) {
        return Err(validation("code is required"));
    }
    if !char_len_within(&req.name, 1, 255) {
        return Err(validation("name is required"));
    }
    Ok(())
}

/// A new name, when an update gives one, has 1 to 255 characters.
pub open spec fn update_coupon_violation(req: UpdateCouponRequest) -> Option<Seq<char>> {
    match req.name {
        Some(n) => if !(1 <= n@.len() <= 255) {
            Some("name must not be empty"@)
        } else {
            None
        },
        None => None,
    }
}

pub fn validate_update_coupon(req: &UpdateCouponRequest) -> (r: Result<(), BillingError>)
    ensures
        match update_coupon_violation(*req) {
            Some(m) => r matches Err(BillingError::Validation(t)) && t@ == m,
            None => r is Ok,
        },
{
    if let Some(n) = &req.name {
        if !char_len_within(n, 1, 255) {
            return Err(validation("name must not be empty"));
        }
    }
    Ok(())
}

/// The message for a coupon code that is taken.
pub open spec fn duplicate_code_message(code: Seq<char>) -> Seq<char> {
    "coupon code '"@ + code + "' already exists"@
}

fn duplicate_code(code: &String) -> (r: BillingError)
    ensures
        r matches BillingError::Conflict(m) && m@ == duplicate_code_message(code@),
{
    let mut v: Vec<char> = Vec::new();
    extend_str(&mut v, "coupon code '");
    extend_str(&mut v, code.as_str());
    extend_str(&mut v, "' already exists");
    BillingError::Conflict(string_of(&v))
}

/// A coupon code can be taken only when no stored coupon carries it.
pub fn check_code_free(code: &String, existing: &Option<Coupon>) -> (r: Result<(), BillingError>)
    ensures
        existing is Some ==> (r matches Err(BillingError::Conflict(m)) && m@ == duplicate_code_message(
            code@,
        )),
        existing is None ==> r is Ok,
{
    if existing.is_some() {
        return Err(duplicate_code(code));
    }
    Ok(())
}

pub fn list_coupons<R: CouponsRepository>(repo: &R) -> (r: Result<Vec<CouponView>, BillingError>)
    ensures
        repo.list_coupons_answer(r),
{
    repo.list_coupons()
}

/// A stored coupon, or `NotFound` for the coupon id.
pub fn found_coupon(id: &str, stored: Option<Coupon>) -> (r: Result<Coupon, BillingError>)
    ensures
        match stored {
            Some(c) => r == Ok::<Coupon, BillingError>(c),
            None => r matches Err(BillingError::NotFound { entity, id: i }) && entity@ == "coupon"@
                && i@ == id@,
        },
{
    match stored {
        Some(c) => Ok(c),
        None => Err(not_found("coupon", id)),
    }
}

pub fn get_coupon<R: CouponsRepository>(repo: &R, id: &str) -> (r: Result<Coupon, BillingError>)
    ensures
        exists|answer: Result<Option<Coupon>, BillingError>|
            #[trigger] repo.get_coupon_answer(id@, answer) && match answer {
                Ok(Some(c)) => r == Ok::<Coupon, BillingError>(c),
                Ok(None) => r matches Err(BillingError::NotFound { entity, id: i }) && entity@ == "coupon"@ && i@ == id@,
                Err(e) => r == Err::<Coupon, BillingError>(e),
            },
{
    let stored = repo.get_coupon(id)?;
    found_coupon(id, stored)
}

/// Creates a coupon: an invalid request is refused before storage is read, and a code
/// already in use is a conflict.
pub fn create_coupon<R: CouponsRepository>(repo: &mut R, req: CreateCouponRequest) -> (r: Result<
    Coupon,
    BillingError,
>)
    ensures
        create_coupon_violation(req) matches Some(m) ==> (r matches Err(BillingError::Validation(t))
            && t@ == m) && *final(repo) == *old(repo),
        create_coupon_violation(req) is None ==> exists|fa: Result<Option<Coupon>, BillingError>|
            #[trigger] old(repo).find_coupon_by_code_answer(req.code@, fa) && match fa {
                Err(e) => r == Err::<Coupon, BillingError>(e) && *final(repo) == *old(repo),
                Ok(Some(_)) => *final(repo) == *old(repo) && (r matches Err(BillingError::Conflict(m))
                    && m@ == duplicate_code_message(req.code@)),
                Ok(None) => old(repo).create_coupon_answer(req, r) && *final(repo) == old(
                    repo,
                ).after_create_coupon(req, r),
            },
{
    validate_create_coupon(&req)?;
    let existing = repo.find_coupon_by_code(req.code.as_str())?;
    check_code_free(&req.code, &existing)?;
    repo.create_coupon(&req)
}

/// Updates a coupon: an invalid request is refused, a missing coupon is not found.
pub fn update_coupon<R: CouponsRepository>(repo: &mut R, id: &str, req: UpdateCouponRequest) -> (r:
    Result<Coupon, BillingError>)
    ensures
        update_coupon_violation(req) matches Some(m) ==> (r matches Err(BillingError::Validation(t))
            && t@ == m) && *final(repo) == *old(repo),
        update_coupon_violation(req) is None ==> exists|ga: Result<Option<Coupon>, BillingError>|
            #[trigger] old(repo).get_coupon_answer(id@, ga) && match ga {
                Err(e) => r == Err::<Coupon, BillingError>(e) && *final(repo) == *old(repo),
                Ok(None) => *final(repo) == *old(repo) && (r matches Err(BillingError::NotFound { entity, id: i })
                    && entity@ == "coupon"@ && i@ == id@),
                Ok(Some(_)) => old(repo).update_coupon_answer(id@, req, r) && *final(repo) == old(
                    repo,
                ).after_update_coupon(id@, req, r),
            },
{
    validate_update_coupon(&req)?;
    let _existing = get_coupon(&*repo, id)?;
    repo.update_coupon(id, &req)
}

/// Zero affected rows means the entity was not there.
pub fn rows_to_result(affected: u64, entity: &str, id: &str) -> (r: Result<(), BillingError>)
    ensures
        affected == 0 ==> (r matches Err(BillingError::NotFound { entity: e, id: i }) && e@
            == entity@ && i@ == id@),
        affected != 0 ==> r is Ok,
{
    if affected == 0 {
        return Err(not_found(entity, id));
    }
    Ok(())
}

pub fn delete_coupon<R: CouponsRepository>(repo: &mut R, id: &str) -> (r: Result<(), BillingError>)
    ensures
        exists|answer: Result<u64, BillingError>|
            #[trigger] old(repo).delete_coupon_answer(id@, answer) && *final(repo) == old(
                repo,
            ).after_delete_coupon(id@, answer) && match answer {
                Ok(0) => r matches Err(BillingError::NotFound { entity, id: i }) && entity@ == "coupon"@
                    && i@ == id@,
                Ok(_) => r is Ok,
                Err(e) => r == Err::<(), BillingError>(e),
            },
{
    let affected = repo.delete_coupon(id)?;
    rows_to_result(affected, "coupon", id)
}

pub open spec fn found_inactive(coupon: Option<Coupon>) -> bool {
    match coupon {
        Some(c) => !c.active,
        None => false,
    }
}

pub open spec fn found_exhausted(coupon: Option<Coupon>) -> bool {
    match coupon {
        Some(c) => c.active && coupon_exhausted(c),
        None => false,
    }
}

pub open spec fn found_usable(coupon: Option<Coupon>) -> bool {
    match coupon {
        Some(c) => c.active && !coupon_exhausted(c),
        None => false,
    }
}

/// Whether a coupon can be attached to the subscription, before the attachment itself
/// is looked up: the subscription and the coupon must exist, the coupon must be active
/// and not exhausted.
pub fn check_coupon_applicable(
    req: &ApplyCouponRequest,
    subscription: Option<Subscription>,
    coupon: Option<Coupon>,
) -> (r: Result<(Subscription, Coupon), BillingError>)
    ensures
        subscription is None ==> (r matches Err(BillingError::NotFound { entity, id }) && entity@
            == "subscription"@ && id@ == req.subscription_id@),
        subscription is Some && coupon is None ==> (r matches Err(
            BillingError::NotFound { entity, id },
        ) && entity@ == "coupon"@ && id@ == req.coupon_id@),
        subscription is Some && found_inactive(coupon) ==> (r matches Err(
            BillingError::BadRequest(m),
        ) && m@ == "coupon is not active"@),
        subscription is Some && found_exhausted(coupon) ==> (r matches Err(
            BillingError::BadRequest(m),
        ) && m@ == "coupon has reached max redemptions"@),
        r is Ok <==> (subscription is Some && found_usable(coupon)),
        r matches Ok(p) ==> Some(p.0) == subscription && Some(p.1) == coupon,
{
    let sub = match subscription {
        Some(s) => s,
        None => {
            return Err(not_found("subscription", req.subscription_id.as_str()));
        },
    };
    let c = found_coupon(req.coupon_id.as_str(), coupon)?;
    if !c.active {
        return Err(bad_request("coupon is not active"));
    }
    crate::billing::invoices::validate_coupon(&c)?;
    Ok((sub, c))
}

/// A coupon is attached to a subscription once.
pub fn check_not_applied(already_applied: bool) -> (r: Result<(), BillingError>)
    ensures
        already_applied ==> (r matches Err(BillingError::Conflict(m)) && m@
            == "coupon already applied to this subscription"@),
        !already_applied ==> r is Ok,
{
    if already_applied {
        return Err(conflict("coupon already applied to this subscription"));
    }
    Ok(())
}

/// Attaches a coupon to a subscription, with the checks of `check_coupon_applicable`
/// and `check_not_applied` in that order.
pub fn apply_coupon<R: CouponsRepository>(repo: &mut R, req: ApplyCouponRequest) -> (r: Result<
    SubscriptionDiscount,
    BillingError,
>)
    ensures
        exists|sa: Result<Option<Subscription>, BillingError>|
            #[trigger] old(repo).find_subscription_answer(req.subscription_id@, sa) && match sa {
                Err(e) => r == Err::<SubscriptionDiscount, BillingError>(e) && *final(repo) == *old(repo),
                Ok(None) => *final(repo) == *old(repo) && (r matches Err(BillingError::NotFound { entity, id })
                    && entity@ == "subscription"@ && id@ == req.subscription_id@),
                Ok(Some(sub)) => exists|ca: Result<Option<Coupon>, BillingError>|
                    #[trigger] old(repo).get_coupon_answer(req.coupon_id@, ca) && match ca {
                        Err(e) => r == Err::<SubscriptionDiscount, BillingError>(e) && *final(repo) == *old(repo),
                        Ok(None) => *final(repo) == *old(repo) && (r matches Err(BillingError::NotFound {
                            entity,
                            id,
                        }) && entity@ == "coupon"@ && id@ == req.coupon_id@),
                        Ok(Some(c)) => if !c.active {
                            *final(repo) == *old(repo) && (r matches Err(BillingError::BadRequest(m)) && m@
                                == "coupon is not active"@)
                        } else if coupon_exhausted(c) {
                            *final(repo) == *old(repo) && (r matches Err(BillingError::BadRequest(m)) && m@
                                == "coupon has reached max redemptions"@)
                        } else {
                            exists|ha: Result<bool, BillingError>|
                                #[trigger] old(repo).subscription_has_coupon_answer(
                                    req.subscription_id@,
                                    req.coupon_id@,
                                    ha,
                                ) && match ha {
                                    Err(e) => r == Err::<SubscriptionDiscount, BillingError>(e) && *final(repo) == *old(repo),
                                    Ok(true) => *final(repo) == *old(repo) && (r matches Err(
                                        BillingError::Conflict(m),
                                    ) && m@ == "coupon already applied to this subscription"@),
                                    Ok(false) => old(repo).apply_coupon_answer(sub, c, req.expires_at, r)
                                        && *final(repo) == old(repo).after_apply_coupon(
                                        sub,
                                        c,
                                        req.expires_at,
                                        r,
                                    ),
                                }
                        },
                    },
            },
{
    let subscription = repo.find_subscription(req.subscription_id.as_str())?;
    let coupon = match subscription {
        Some(_) => repo.get_coupon(req.coupon_id.as_str())?,
        None => None,
    };
    let (sub, c) = check_coupon_applicable(&req, subscription, coupon)?;
    let applied = repo.subscription_has_coupon(req.subscription_id.as_str(), req.coupon_id.as_str())?;
    check_not_applied(applied)?;
    repo.apply_coupon(&sub, &c, req.expires_at)
}

} // verus!

verus! {

/// A new coupon from its request: `USD` unless a currency is given, never redeemed yet.
pub fn new_coupon(req: &CreateCouponRequest, id: String) -> (r: Coupon)
    ensures
        r.id == id,
        r.code == req.code,
        r.name == req.name,
        r.discount_type == req.discount_type,
        r.discount_value == req.discount_value,
        r.currency@ == (match req.currency {
            Some(c) => c@,
            None => "USD"@,
        }),
        r.max_redemptions == req.max_redemptions,
        r.times_redeemed == 0,
        r.valid_from == req.valid_from,
        r.valid_until == req.valid_until,
        r.active == req.active,
{
    let currency = match &req.currency {
        Some(c) => c.clone(),
        None => crate::error::owned("USD"),
    };
    Coupon {
        id,
        code: req.code.clone(),
        name: req.name.clone(),
        discount_type: req.discount_type,
        discount_value: req.discount_value,
        currency,
        max_redemptions: req.max_redemptions,
        times_redeemed: 0,
        valid_from: req.valid_from,
        valid_until: req.valid_until,
        active: req.active,
    }
}

/// A field an update may give: the given value, else the stored one.
pub open spec fn or_kept<T>(given: Option<T>, kept: T) -> T {
    match given {
        Some(v) => v,
        None => kept,
    }
}

/// A field an update may clear: a given non-empty value replaces the stored one; not
/// giving it, or giving it empty, keeps what is stored.
pub open spec fn or_kept_flat<T>(given: Option<Option<T>>, kept: Option<T>) -> Option<T> {
    match given {
        Some(Some(v)) => Some(v),
        _ => kept,
    }
}

/// A coupon after an update: each field the request gives replaces the stored one; a
/// limit or end date given as empty keeps the stored one.
pub fn updated_coupon(c: &Coupon, req: &UpdateCouponRequest) -> (r: Coupon)
    ensures
        r.id == c.id && r.code == c.code && r.times_redeemed == c.times_redeemed && r.valid_from
            == c.valid_from,
        r.name == or_kept(req.name, c.name),
        r.discount_type == or_kept(req.discount_type, c.discount_type),
        r.discount_value == or_kept(req.discount_value, c.discount_value),
        r.currency == or_kept(req.currency, c.currency),
        r.max_redemptions == or_kept_flat(req.max_redemptions, c.max_redemptions),
        r.valid_until == or_kept_flat(req.valid_until, c.valid_until),
        r.active == or_kept(req.active, c.active),
{
    Coupon {
        id: c.id.clone(),
        code: c.code.clone(),
        name: match &req.name {
            Some(n) => n.clone(),
            None => c.name.clone(),
        },
        discount_type: match req.discount_type {
            Some(t) => t,
            None => c.discount_type,
        },
        discount_value: match req.discount_value {
            Some(v) => v,
            None => c.discount_value,
        },
        currency: match &req.currency {
            Some(x) => x.clone(),
            None => c.currency.clone(),
        },
        max_redemptions: match req.max_redemptions {
            Some(Some(m)) => Some(m),
            _ => c.max_redemptions,
        },
        times_redeemed: c.times_redeemed,
        valid_from: c.valid_from,
        valid_until: match req.valid_until {
            Some(Some(t)) => Some(t),
            _ => c.valid_until,
        },
        active: match req.active {
            Some(a) => a,
            None => c.active,
        },
    }
}

/// An active coupon whose end date has passed is deactivated.
pub open spec fn spec_coupon_lapsed(c: Coupon, now: int) -> bool {
    c.active && (c.valid_until matches Some(t) && t < now)
}

pub fn coupon_lapsed(c: &Coupon, now: i64) -> (r: bool)
    ensures
        r == spec_coupon_lapsed(*c, now as int),
{
    c.active && match c.valid_until {
        Some(t) => t < now,
        None => false,
    }
}

/// A coupon after one more redemption.
pub fn redeemed(c: &Coupon) -> (r: Coupon)
    requires
        c.times_redeemed < i32::MAX,
    ensures
        r == (Coupon { times_redeemed: (c.times_redeemed + 1) as i32, ..*c }),
{
    Coupon {
        id: c.id.clone(),
        code: c.code.clone(),
        name: c.name.clone(),
        discount_type: c.discount_type,
        discount_value: c.discount_value,
        currency: c.currency.clone(),
        max_redemptions: c.max_redemptions,
        times_redeemed: c.times_redeemed + 1,
        valid_from: c.valid_from,
        valid_until: c.valid_until,
        active: c.active,
    }
}

/// A coupon is never redeemed past its limit: attaching it is refused once it is
/// exhausted, and a redemption of a coupon that is not exhausted stays within the limit.
pub proof fn lemma_redemptions_within_limit(c: Coupon)
    requires
        !crate::billing::invoices::coupon_exhausted(c),
    ensures
        c.max_redemptions matches Some(m) ==> c.times_redeemed + 1 <= m,
{
}

} // verus!
