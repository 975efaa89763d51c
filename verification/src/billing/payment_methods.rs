//! Saved payment methods of a customer, and which of them is the default.
use vstd::prelude::*;
use crate::error::{not_found, BillingError};
use crate::models::{
    PaymentProvider, SavedPaymentMethod, SavedPaymentMethodStatus, SavedPaymentMethodType,
};

verus! {

pub struct CreatePaymentMethodRequest {
    pub customer_id: String,
    pub provider: PaymentProvider,
    pub provider_token: String,
    pub method_type: SavedPaymentMethodType,
    pub label: String,
    pub last_four: Option<String>,
    pub expiry_month: Option<i32>,
    pub expiry_year: Option<i32>,
    pub set_default: bool,
}

/// A new method is the default when asked to be, or when the customer has no active
/// method yet.
pub fn initial_default(set_default: bool, existing_active: i64) -> (r: bool)
    ensures
        r == (set_default || existing_active == 0),
{
    set_default || existing_active == 0
}

/// The method that `set_default` marked, or `NotFound` for the method id.
pub fn found_method(method_id: &str, updated: Option<SavedPaymentMethod>) -> (r: Result<
    SavedPaymentMethod,
    BillingError,
>)
    ensures
        match updated {
            Some(m) => r == Ok::<SavedPaymentMethod, BillingError>(m),
            None => r matches Err(BillingError::NotFound { entity, id }) && entity@
                == "payment_method"@ && id@ == method_id@,
        },
{
    match updated {
        Some(m) => Ok(m),
        None => Err(not_found("payment_method", method_id)),
    }
}

/// The count of a customer's active methods.
pub open spec fn active_count(ms: Seq<SavedPaymentMethod>) -> nat
    decreases ms.len(),
{
    if ms.len() == 0 {
        0
    } else {
        active_count(ms.drop_last()) + if ms.last().status == SavedPaymentMethodStatus::Active {
            1nat
        } else {
            0nat
        }
    }
}

/// How many methods of a list are marked default.
pub open spec fn default_count(ms: Seq<SavedPaymentMethod>) -> nat
    decreases ms.len(),
{
    if ms.len() == 0 {
        0
    } else {
        default_count(ms.drop_last()) + if ms.last().is_default {
            1nat
        } else {
            0nat
        }
    }
}

proof fn lemma_default_count_zero(ms: Seq<SavedPaymentMethod>)
    requires
        forall|i: int| 0 <= i < ms.len() ==> !(#[trigger] ms[i]).is_default,
    ensures
        default_count(ms) == 0,
    decreases ms.len(),
{
    if ms.len() > 0 {
        lemma_default_count_zero(ms.drop_last());
    }
}

proof fn lemma_default_count_bound(ms: Seq<SavedPaymentMethod>, k: int)
    requires
        0 <= k < ms.len(),
        forall|i: int| 0 <= i < ms.len() && i != k ==> !(#[trigger] ms[i]).is_default,
    ensures
        default_count(ms) <= 1,
    decreases ms.len(),
{
    if ms.len() > 0 {
        if k == ms.len() - 1 {
            lemma_default_count_zero(ms.drop_last());
        } else {
            lemma_default_count_bound(ms.drop_last(), k);
        }
    }
}

/// A method with its default mark and status replaced, every other field kept.
pub open spec fn marked(m: SavedPaymentMethod, is_default: bool, status: SavedPaymentMethodStatus) -> SavedPaymentMethod {
    SavedPaymentMethod { is_default, status, ..m }
}

fn with_marks(m: &SavedPaymentMethod, is_default: bool, status: SavedPaymentMethodStatus) -> (r:
    SavedPaymentMethod)
    ensures
        r == marked(*m, is_default, status),
{
    SavedPaymentMethod {
        id: m.id.clone(),
        customer_id: m.customer_id.clone(),
        provider: m.provider,
        provider_token: m.provider_token.clone(),
        method_type: m.method_type,
        label: m.label.clone(),
        last_four: match &m.last_four {
            Some(t) => Some(t.clone()),
            None => None,
        },
        expiry_month: m.expiry_month,
        expiry_year: m.expiry_year,
        is_default,
        status,
    }
}

/// Clears the default mark of every method.
pub fn clear_defaults(wallet: &mut Vec<SavedPaymentMethod>)
    ensures
        final(wallet)@.len() == old(wallet)@.len(),
        forall|i: int| 0 <= i < final(wallet)@.len() ==> #[trigger] final(wallet)@[i] == marked(
            old(wallet)@[i],
            false,
            old(wallet)@[i].status,
        ),
        default_count(final(wallet)@) == 0,
{
    let mut i: usize = 0;
    while i < wallet.len()
        invariant
            i <= wallet.len(),
            wallet@.len() == old(wallet)@.len(),
            forall|j: int| 0 <= j < i ==> #[trigger] wallet@[j] == marked(old(wallet)@[j], false, old(wallet)@[j].status),
            forall|j: int| i <= j < wallet@.len() ==> #[trigger] wallet@[j] == old(wallet)@[j],
        decreases wallet.len() - i,
    {
        let m = with_marks(&wallet[i], false, wallet[i].status);
        wallet.set(i, m);
        i = i + 1;
    }
    proof {
        lemma_default_count_zero(wallet@);
    }
}

/// Marks `method_id` as the only default of the wallet; a missing method leaves the
/// wallet unchanged and is not found.
pub fn set_default_in(wallet: &mut Vec<SavedPaymentMethod>, method_id: &String) -> (r: Result<
    (),
    BillingError,
>)
    ensures
        r is Ok <==> exists|i: int| 0 <= i < old(wallet)@.len() && (#[trigger] old(wallet)@[i]).id@
            == method_id@,
        r is Err ==> final(wallet)@ == old(wallet)@,
        r is Ok ==> default_count(final(wallet)@) == 1 && exists|i: int| 0 <= i < final(wallet)@.len()
            && (#[trigger] final(wallet)@[i]).id@ == method_id@ && final(wallet)@[i].is_default,
        r is Ok ==> exists|k: int|
            0 <= k < old(wallet)@.len() && (#[trigger] old(wallet)@[k]).id@ == method_id@ && forall|i: int|
                0 <= i < final(wallet)@.len() ==> #[trigger] final(wallet)@[i] == marked(
                    old(wallet)@[i],
                    i == k,
                    old(wallet)@[i].status,
                ),
        final(wallet)@.len() == old(wallet)@.len(),
{
    let mut k: usize = 0;
    let mut found = false;
    while k < wallet.len()
        invariant_except_break
            k <= wallet.len(),
            !found,
            forall|j: int| 0 <= j < k ==> (#[trigger] wallet@[j]).id@ != method_id@,
        ensures
            k <= wallet.len(),
            found ==> k < wallet.len() && wallet@[k as int].id@ == method_id@,
            !found ==> forall|j: int| 0 <= j < wallet@.len() ==> (#[trigger] wallet@[j]).id@ != method_id@,
        decreases wallet.len() - k,
    {
        if crate::text::str_eq(wallet[k].id.as_str(), method_id.as_str()) {
            found = true;
            break;
        }
        k = k + 1;
    }
    if !found {
        return Err(not_found("payment_method", method_id.as_str()));
    }
    let ghost before = wallet@;
    clear_defaults(wallet);
    let m = with_marks(&wallet[k], true, wallet[k].status);
    wallet.set(k, m);
    proof {
        assert forall|i: int| 0 <= i < wallet@.len() implies #[trigger] wallet@[i] == marked(
            before[i],
            i == k,
            before[i].status,
        ) by {
            if i != k {
                assert(wallet@[i] == marked(before[i], false, before[i].status));
            }
        }
        assert(before[k as int].id@ == method_id@);
        assert(wallet@[k as int].id == before[k as int].id);
        lemma_default_count_bound(wallet@, k as int);
        assert(default_count(wallet@) >= 1) by {
            lemma_default_count_positive(wallet@, k as int);
        }
    }
    Ok(())
}

proof fn lemma_default_count_positive(ms: Seq<SavedPaymentMethod>, k: int)
    requires
        0 <= k < ms.len(),
        ms[k].is_default,
    ensures
        default_count(ms) >= 1,
    decreases ms.len(),
{
    if k < ms.len() - 1 {
        lemma_default_count_positive(ms.drop_last(), k);
    }
}

/// A failed method is no longer active nor the default.
pub fn mark_failed_in(wallet: &mut Vec<SavedPaymentMethod>, method_id: &String)
    requires
        default_count(old(wallet)@) <= 1,
    ensures
        final(wallet)@.len() == old(wallet)@.len(),
        forall|i: int| 0 <= i < final(wallet)@.len() && (#[trigger] final(wallet)@[i]).id@ == method_id@
            ==> final(wallet)@[i].status == SavedPaymentMethodStatus::Failed && !final(wallet)@[i].is_default,
        forall|i: int| 0 <= i < final(wallet)@.len() ==> #[trigger] final(wallet)@[i] == (if old(
            wallet,
        )@[i].id@ == method_id@ {
            marked(old(wallet)@[i], false, SavedPaymentMethodStatus::Failed)
        } else {
            old(wallet)@[i]
        }),
        default_count(final(wallet)@) <= 1,
{
    let mut i: usize = 0;
    while i < wallet.len()
        invariant
            i <= wallet.len(),
            wallet@.len() == old(wallet)@.len(),
            default_count(wallet@) <= 1,
            forall|j: int| 0 <= j < i && (#[trigger] wallet@[j]).id@ == method_id@ ==> wallet@[j].status
                == SavedPaymentMethodStatus::Failed && !wallet@[j].is_default,
            forall|j: int| 0 <= j < wallet@.len() ==> #[trigger] wallet@[j] == (if j < i && old(
                wallet,
            )@[j].id@ == method_id@ {
                marked(old(wallet)@[j], false, SavedPaymentMethodStatus::Failed)
            } else {
                old(wallet)@[j]
            }),
        decreases wallet.len() - i,
    {
        if crate::text::str_eq(wallet[i].id.as_str(), method_id.as_str()) {
            let ghost before = wallet@;
            let m = with_marks(&wallet[i], false, SavedPaymentMethodStatus::Failed);
            wallet.set(i, m);
            proof {
                lemma_default_count_unset(before, i as int, wallet@);
            }
        }
        i = i + 1;
    }
}

proof fn lemma_default_count_unset(a: Seq<SavedPaymentMethod>, k: int, b: Seq<SavedPaymentMethod>)
    requires
        0 <= k < a.len(),
        a.len() == b.len(),
        !b[k].is_default,
        forall|i: int| 0 <= i < a.len() && i != k ==> #[trigger] b[i] == a[i],
    ensures
        default_count(b) <= default_count(a),
    decreases a.len(),
{
    if a.len() > 0 {
        if k < a.len() - 1 {
            lemma_default_count_unset(a.drop_last(), k, b.drop_last());
            assert(b.last() == a.last());
        } else {
            assert(b.drop_last() =~= a.drop_last());
        }
    }
}

} // verus!
