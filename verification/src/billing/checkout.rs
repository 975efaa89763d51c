//! Hosted checkout for an open invoice with one of the payment providers.
use vstd::prelude::*;
use crate::auth::{url_encode, url_encoded};
use crate::error::{bad_request, owned, BillingError};
use crate::models::{Customer, Invoice, InvoiceStatus};
use crate::money::dec_text;
use crate::text::{extend_str, str_eq, string_of};

verus! {

#[derive(Clone, Debug)]
pub struct CheckoutResult {
    pub checkout_url: String,
    pub provider: String,
}

#[derive(Clone, Debug)]
pub struct CheckoutRequest {
    pub invoice_id: String,
    pub provider: String,
    pub origin: String,
}

#[derive(Clone, Debug)]
pub struct CheckoutContext {
    pub invoice: Invoice,
    pub customer: Customer,
    pub success_url: String,
    pub cancel_url: String,
}

/// What a provider answered when it created a hosted checkout.
#[derive(Clone, Debug)]
pub struct CheckoutProviderResult {
    pub checkout_url: String,
    pub provider_reference: String,
}

/// Storage and the providers that checkout needs.
pub trait CheckoutRepository: Sized {
    /// Holds of each answer the store gives when asked for the invoice `invoice_id`; a
    /// store that does not describe its answers admits every answer (so for each relation
    /// below).
    closed spec fn find_invoice_answer(&self, invoice_id: Seq<char>, answer: Result<Invoice, BillingError>) -> bool {
        true
    }

    /// Holds of each answer when asked for the customer `customer_id`.
    closed spec fn find_customer_answer(&self, customer_id: Seq<char>, answer: Result<Customer, BillingError>) -> bool {
        true
    }

    /// Holds of each answer Xendit gives to a checkout of `ctx`.
    closed spec fn create_xendit_checkout_answer(&self, ctx: CheckoutContext, answer: Result<CheckoutProviderResult, BillingError>) -> bool {
        true
    }

    /// Holds of each answer to saving Xendit's invoice id on the invoice.
    closed spec fn save_xendit_invoice_id_answer(&self, invoice_id: Seq<char>, provider_id: Seq<char>, answer: Result<(), BillingError>) -> bool {
        true
    }

    /// Holds of each answer Lemon Squeezy gives to a checkout of `ctx`.
    closed spec fn create_lemonsqueezy_checkout_answer(&self, ctx: CheckoutContext, answer: Result<CheckoutProviderResult, BillingError>) -> bool {
        true
    }

    /// Holds of each answer to saving Lemon Squeezy's checkout id on the invoice.
    closed spec fn save_lemonsqueezy_checkout_id_answer(&self, invoice_id: Seq<char>, provider_id: Seq<char>, answer: Result<(), BillingError>) -> bool {
        true
    }

    fn find_invoice(&self, invoice_id: &str) -> (r: Result<Invoice, BillingError>)
        ensures
            self.find_invoice_answer(invoice_id@, r),
    ;

    fn find_customer(&self, customer_id: &str) -> (r: Result<Customer, BillingError>)
        ensures
            self.find_customer_answer(customer_id@, r),
    ;

    /// The store after Xendit's checkout of `ctx`, with that answer; a store that does not
    /// describe its state keeps the same value (so for each `after_` function below).
    closed spec fn after_create_xendit_checkout(&self, ctx: CheckoutContext, answer: Result<CheckoutProviderResult, BillingError>) -> Self {
        *self
    }

    /// The store after saving Xendit's invoice id on the invoice.
    closed spec fn after_save_xendit_invoice_id(&self, invoice_id: Seq<char>, provider_id: Seq<char>, answer: Result<(), BillingError>) -> Self {
        *self
    }

    /// The store after Lemon Squeezy's checkout of `ctx`.
    closed spec fn after_create_lemonsqueezy_checkout(&self, ctx: CheckoutContext, answer: Result<CheckoutProviderResult, BillingError>) -> Self {
        *self
    }

    /// The store after saving Lemon Squeezy's checkout id on the invoice.
    closed spec fn after_save_lemonsqueezy_checkout_id(&self, invoice_id: Seq<char>, provider_id: Seq<char>, answer: Result<(), BillingError>) -> Self {
        *self
    }

    fn create_xendit_checkout(&mut self, ctx: &CheckoutContext) -> (r: Result<CheckoutProviderResult, BillingError>)
        ensures
            old(self).create_xendit_checkout_answer(*ctx, r),
            *final(self) == old(self).after_create_xendit_checkout(*ctx, r),
    ;

    fn save_xendit_invoice_id(&mut self, invoice_id: &str, provider_id: &str) -> (r: Result<(), BillingError>)
        ensures
            old(self).save_xendit_invoice_id_answer(invoice_id@, provider_id@, r),
            *final(self) == old(self).after_save_xendit_invoice_id(invoice_id@, provider_id@, r),
    ;

    fn create_lemonsqueezy_checkout(&mut self, ctx: &CheckoutContext) -> (r: Result<
        CheckoutProviderResult,
        BillingError,
    >)
        ensures
            old(self).create_lemonsqueezy_checkout_answer(*ctx, r),
            *final(self) == old(self).after_create_lemonsqueezy_checkout(*ctx, r),
    ;

    fn save_lemonsqueezy_checkout_id(&mut self, invoice_id: &str, provider_id: &str) -> (r: Result<
        (),
        BillingError,
    >)
        ensures
            old(self).save_lemonsqueezy_checkout_id_answer(invoice_id@, provider_id@, r),
            *final(self) == old(self).after_save_lemonsqueezy_checkout_id(invoice_id@, provider_id@, r),
    ;
}

/// A Xendit checkout of `ctx`: refused without the customer's Xendit id; else Xendit's
/// address, once its invoice id is saved on the invoice.
pub open spec fn xendit_outcome<R: CheckoutRepository>(repo: R, ctx: CheckoutContext, r: Result<CheckoutResult, BillingError>, fin: R) -> bool {
    if ctx.customer.xendit_customer_id is None {
        fin == repo && (r matches Err(BillingError::BadRequest(m)) && m@
            == "customer does not have a Xendit customer ID configured"@)
    } else {
        exists|pa: Result<CheckoutProviderResult, BillingError>|
            #[trigger] repo.create_xendit_checkout_answer(ctx, pa) && match pa {
                Err(e) => r == Err::<CheckoutResult, BillingError>(e) && fin == repo.after_create_xendit_checkout(
                    ctx,
                    pa,
                ),
                Ok(p) => exists|sa: Result<(), BillingError>|
                    #[trigger] repo.after_create_xendit_checkout(ctx, pa).save_xendit_invoice_id_answer(
                        ctx.invoice.id@,
                        p.provider_reference@,
                        sa,
                    ) && fin == repo.after_create_xendit_checkout(ctx, pa).after_save_xendit_invoice_id(
                        ctx.invoice.id@,
                        p.provider_reference@,
                        sa,
                    ) && match sa {
                        Err(e) => r == Err::<CheckoutResult, BillingError>(e),
                        Ok(_) => r matches Ok(c) && c.checkout_url == p.checkout_url && c.provider@ == "xendit"@,
                    },
            }
    }
}

/// A Lemon Squeezy checkout of `ctx`: its address, once its checkout id is saved on the
/// invoice.
pub open spec fn lemonsqueezy_outcome<R: CheckoutRepository>(repo: R, ctx: CheckoutContext, r: Result<CheckoutResult, BillingError>, fin: R) -> bool {
    exists|pa: Result<CheckoutProviderResult, BillingError>|
        #[trigger] repo.create_lemonsqueezy_checkout_answer(ctx, pa) && match pa {
            Err(e) => r == Err::<CheckoutResult, BillingError>(e) && fin == repo.after_create_lemonsqueezy_checkout(
                ctx,
                pa,
            ),
            Ok(p) => exists|sa: Result<(), BillingError>|
                #[trigger] repo.after_create_lemonsqueezy_checkout(ctx, pa).save_lemonsqueezy_checkout_id_answer(
                    ctx.invoice.id@,
                    p.provider_reference@,
                    sa,
                ) && fin == repo.after_create_lemonsqueezy_checkout(ctx, pa).after_save_lemonsqueezy_checkout_id(
                    ctx.invoice.id@,
                    p.provider_reference@,
                    sa,
                ) && match sa {
                    Err(e) => r == Err::<CheckoutResult, BillingError>(e),
                    Ok(_) => r matches Ok(c) && c.checkout_url == p.checkout_url && c.provider@
                        == "lemonsqueezy"@,
                },
        }
}

/// A Stripe checkout of `ctx`: refused without the customer's Stripe id, else the address
/// `stripe_checkout_url` gives.
pub open spec fn stripe_outcome(ctx: CheckoutContext, r: Result<CheckoutResult, BillingError>) -> bool {
    if ctx.customer.stripe_customer_id is None {
        r matches Err(BillingError::BadRequest(m)) && m@ == "customer does not have a Stripe customer ID configured"@
    } else {
        r matches Ok(c) && c.checkout_url@ == stripe_checkout_url(ctx) && c.provider@ == "stripe"@
    }
}

/// The context of a checkout of `inv` for `cust` as `request` asks.
pub open spec fn is_checkout_context(ctx: CheckoutContext, request: CheckoutRequest, inv: Invoice, cust: Customer) -> bool {
    &&& ctx.invoice == inv
    &&& ctx.customer == cust
    &&& ctx.success_url@ == return_url(request.origin@, "success"@, request.invoice_id@)
    &&& ctx.cancel_url@ == return_url(request.origin@, "cancel"@, request.invoice_id@)
}

/// What a checkout of an open invoice gives, by provider.
/// A Stripe checkout writes nothing; an unknown provider or an amount outside the decimal
/// domain writes nothing either.
pub open spec fn provider_outcome<R: CheckoutRepository>(repo: R, ctx: CheckoutContext, provider: Seq<char>, r: Result<CheckoutResult, BillingError>, fin: R) -> bool {
    if provider == "stripe"@ {
        fin == repo && if ctx.invoice.total.wf() {
            stripe_outcome(ctx, r)
        } else {
            r matches Err(BillingError::Internal(_))
        }
    } else if provider == "xendit"@ {
        xendit_outcome(repo, ctx, r, fin)
    } else if provider == "lemonsqueezy"@ {
        lemonsqueezy_outcome(repo, ctx, r, fin)
    } else {
        fin == repo && (r matches Err(BillingError::ProviderNotConfigured(p)) && p@ == provider)
    }
}

/// Only an invoice that is neither paid nor void can be checked out.
pub fn checkout_gate(status: InvoiceStatus) -> (r: Result<(), BillingError>)
    ensures
        status == InvoiceStatus::Paid ==> (r matches Err(BillingError::BadRequest(m)) && m@
            == "invoice is already paid"@),
        status == InvoiceStatus::Void ==> (r matches Err(BillingError::BadRequest(m)) && m@
            == "invoice has been voided"@),
        status != InvoiceStatus::Paid && status != InvoiceStatus::Void ==> r is Ok,
{
    if status == InvoiceStatus::Paid {
        return Err(bad_request("invoice is already paid"));
    }
    if status == InvoiceStatus::Void {
        return Err(bad_request("invoice has been voided"));
    }
    Ok(())
}

/// The page a checkout returns to: `<origin>/checkout/<outcome>?invoice_id=<id>`.
pub open spec fn return_url(origin: Seq<char>, outcome: Seq<char>, invoice_id: Seq<char>) -> Seq<char> {
    origin + "/checkout/"@ + outcome + "?invoice_id="@ + invoice_id
}

fn make_return_url(origin: &String, outcome: &str, invoice_id: &String) -> (r: String)
    ensures
        r@ == return_url(origin@, outcome@, invoice_id@),
{
    let mut v: Vec<char> = Vec::new();
    extend_str(&mut v, origin.as_str());
    extend_str(&mut v, "/checkout/");
    extend_str(&mut v, outcome);
    extend_str(&mut v, "?invoice_id=");
    extend_str(&mut v, invoice_id.as_str());
    string_of(&v)
}

/// The checkout context of a request for an invoice and its customer.
pub fn checkout_context(request: &CheckoutRequest, invoice: Invoice, customer: Customer) -> (r:
    CheckoutContext)
    ensures
        r.invoice == invoice,
        r.customer == customer,
        r.success_url@ == return_url(request.origin@, "success"@, request.invoice_id@),
        r.cancel_url@ == return_url(request.origin@, "cancel"@, request.invoice_id@),
{
    let success_url = make_return_url(&request.origin, "success", &request.invoice_id);
    let cancel_url = make_return_url(&request.origin, "cancel", &request.invoice_id);
    CheckoutContext { invoice, customer, success_url, cancel_url }
}

/// The Stripe checkout address of a context.
pub open spec fn stripe_checkout_url(ctx: CheckoutContext) -> Seq<char> {
    "https://checkout.stripe.com/pay/placeholder?invoice="@ + ctx.invoice.id@ + "&amount="@
        + dec_text(ctx.invoice.total) + "&currency="@ + ctx.invoice.currency@ + "&success_url="@
        + url_encoded(ctx.success_url@) + "&cancel_url="@ + url_encoded(ctx.cancel_url@)
}

/// A Stripe checkout needs the customer's Stripe id; its address carries the invoice,
/// its total and currency, and the encoded return addresses.
pub fn create_stripe_checkout(context: &CheckoutContext) -> (r: Result<CheckoutResult, BillingError>)
    requires
        context.invoice.total.wf(),
    ensures
        context.customer.stripe_customer_id is None ==> (r matches Err(BillingError::BadRequest(m))
            && m@ == "customer does not have a Stripe customer ID configured"@),
        context.customer.stripe_customer_id is Some ==> (r matches Ok(c) && c.checkout_url@
            == stripe_checkout_url(*context) && c.provider@ == "stripe"@),
{
    if context.customer.stripe_customer_id.is_none() {
        return Err(bad_request("customer does not have a Stripe customer ID configured"));
    }
    let mut v: Vec<char> = Vec::new();
    extend_str(&mut v, "https://checkout.stripe.com/pay/placeholder?invoice=");
    extend_str(&mut v, context.invoice.id.as_str());
    extend_str(&mut v, "&amount=");
    let total = context.invoice.total.to_text();
    extend_str(&mut v, total.as_str());
    extend_str(&mut v, "&currency=");
    extend_str(&mut v, context.invoice.currency.as_str());
    extend_str(&mut v, "&success_url=");
    let s = url_encode(context.success_url.as_str());
    extend_str(&mut v, s.as_str());
    extend_str(&mut v, "&cancel_url=");
    let c = url_encode(context.cancel_url.as_str());
    extend_str(&mut v, c.as_str());
    Ok(CheckoutResult { checkout_url: string_of(&v), provider: owned("stripe") })
}

/// The provider's address, under the provider's name.
pub fn to_checkout_result(provider_result: CheckoutProviderResult, provider: &str) -> (r: CheckoutResult)
    ensures
        r.checkout_url == provider_result.checkout_url,
        r.provider@ == provider@,
{
    CheckoutResult { checkout_url: provider_result.checkout_url, provider: owned(provider) }
}

/// A Xendit checkout needs the customer's Xendit id; the provider's invoice id is saved
/// on the invoice.
pub fn create_xendit_checkout<R: CheckoutRepository>(repo: &mut R, context: &CheckoutContext) -> (r:
    Result<CheckoutResult, BillingError>)
    ensures
        xendit_outcome(*old(repo), *context, r, *final(repo)),
        r matches Ok(c) ==> c.provider@ == "xendit"@,
{
    if context.customer.xendit_customer_id.is_none() {
        return Err(bad_request("customer does not have a Xendit customer ID configured"));
    }
    let provider_result = repo.create_xendit_checkout(context)?;
    repo.save_xendit_invoice_id(context.invoice.id.as_str(), provider_result.provider_reference.as_str())?;
    Ok(to_checkout_result(provider_result, "xendit"))
}

/// A Lemon Squeezy checkout; its checkout id is saved on the invoice.
pub fn create_lemonsqueezy_checkout<R: CheckoutRepository>(repo: &mut R, context: &CheckoutContext) -> (r:
    Result<CheckoutResult, BillingError>)
    ensures
        lemonsqueezy_outcome(*old(repo), *context, r, *final(repo)),
        r matches Ok(c) ==> c.provider@ == "lemonsqueezy"@,
{
    let provider_result = repo.create_lemonsqueezy_checkout(context)?;
    repo.save_lemonsqueezy_checkout_id(
        context.invoice.id.as_str(),
        provider_result.provider_reference.as_str(),
    )?;
    Ok(to_checkout_result(provider_result, "lemonsqueezy"))
}

/// The providers a checkout can be made with.
pub open spec fn known_provider(p: Seq<char>) -> bool {
    p == "stripe"@ || p == "xendit"@ || p == "lemonsqueezy"@
}

/// Creates a checkout: the invoice must be open (see `checkout_gate`); an unknown
/// provider is answered with `ProviderNotConfigured` naming it; a result always names
/// the requested provider.
pub fn create_checkout<R: CheckoutRepository>(repo: &mut R, request: CheckoutRequest) -> (r: Result<
    CheckoutResult,
    BillingError,
>)
    ensures
        r matches Ok(c) ==> c.provider@ == request.provider@ && known_provider(request.provider@),
        !known_provider(request.provider@) ==> r is Err,
        exists|ia: Result<Invoice, BillingError>|
            #[trigger] old(repo).find_invoice_answer(request.invoice_id@, ia) && match ia {
                Err(e) => r == Err::<CheckoutResult, BillingError>(e) && *final(repo) == *old(repo),
                Ok(inv) => if inv.status == InvoiceStatus::Paid {
                    *final(repo) == *old(repo) && (r matches Err(BillingError::BadRequest(m)) && m@
                        == "invoice is already paid"@)
                } else if inv.status == InvoiceStatus::Void {
                    *final(repo) == *old(repo) && (r matches Err(BillingError::BadRequest(m)) && m@
                        == "invoice has been voided"@)
                } else {
                    exists|ca: Result<Customer, BillingError>|
                        #[trigger] old(repo).find_customer_answer(inv.customer_id@, ca) && match ca {
                            Err(e) => r == Err::<CheckoutResult, BillingError>(e) && *final(repo) == *old(repo),
                            Ok(cust) => exists|ctx: CheckoutContext|
                                is_checkout_context(ctx, request, inv, cust) && #[trigger] provider_outcome(
                                    *old(repo),
                                    ctx,
                                    request.provider@,
                                    r,
                                    *final(repo),
                                ),
                        }
                },
            },
{
    let ghost s0 = *repo;
    let invoice = repo.find_invoice(request.invoice_id.as_str())?;
    let ghost inv = invoice;
    checkout_gate(invoice.status)?;
    let customer = repo.find_customer(invoice.customer_id.as_str())?;
    let ghost cust = customer;
    let total_ok = invoice.total.is_valid();
    let context = checkout_context(&request, invoice, customer);
    let r = if str_eq(request.provider.as_str(), "stripe") {
        if !total_ok {
            Err(crate::error::overflow())
        } else {
            create_stripe_checkout(&context)
        }
    } else if str_eq(request.provider.as_str(), "xendit") {
        create_xendit_checkout(repo, &context)
    } else if str_eq(request.provider.as_str(), "lemonsqueezy") {
        create_lemonsqueezy_checkout(repo, &context)
    } else {
        Err(BillingError::ProviderNotConfigured(request.provider.clone()))
    };
    proof {
        assert(is_checkout_context(context, request, inv, cust));
        assert(provider_outcome(s0, context, request.provider@, r, *repo));
        assert(s0.find_customer_answer(inv.customer_id@, Ok(cust)));
        assert(s0.find_invoice_answer(request.invoice_id@, Ok(inv)));
    }
    r
}

} // verus!
