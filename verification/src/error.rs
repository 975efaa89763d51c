//! Errors of the billing services.
use vstd::prelude::*;
use crate::text::{extend_str, string_of};

verus! {

#[derive(Clone, Debug)]
pub enum BillingError {
    /// No `entity` with this id.
    NotFound { entity: String, id: String },
    /// The request cannot be served as it stands.
    BadRequest(String),
    /// The request collides with what is stored.
    Conflict(String),
    /// The caller lacks the required role.
    Forbidden,
    /// The payment provider named in the request is not available.
    ProviderNotConfigured(String),
    /// A field of the request breaks its validation rule.
    Validation(String),
    /// A computation or an outside service failed.
    Internal(String),
}

/// The text of a literal as an owned string.
pub fn owned(s: &str) -> (r: String)
    ensures
        r@ == s@,
{
    String::from_str(s)
}

pub fn not_found(entity: &str, id: &str) -> (r: BillingError)
    ensures
        r matches BillingError::NotFound { entity: e, id: i } && e@ == entity@ && i@ == id@,
{
    BillingError::NotFound { entity: owned(entity), id: owned(id) }
}

pub fn bad_request(message: &str) -> (r: BillingError)
    ensures
        r matches BillingError::BadRequest(m) && m@ == message@,
{
    BillingError::BadRequest(owned(message))
}

pub fn conflict(message: &str) -> (r: BillingError)
    ensures
        r matches BillingError::Conflict(m) && m@ == message@,
{
    BillingError::Conflict(owned(message))
}

pub fn validation(message: &str) -> (r: BillingError)
    ensures
        r matches BillingError::Validation(m) && m@ == message@,
{
    BillingError::Validation(owned(message))
}

pub fn internal(message: &str) -> (r: BillingError)
    ensures
        r matches BillingError::Internal(m) && m@ == message@,
{
    BillingError::Internal(owned(message))
}

/// `e` is the refusal named by `m`: a bad request with message `t` for `Some(t)`, an
/// internal error (an amount leaving the decimal domain) for `None`.
pub open spec fn is_refusal(e: BillingError, m: Option<Seq<char>>) -> bool {
    match m {
        Some(t) => match e {
            BillingError::BadRequest(x) => x@ == t,
            _ => false,
        },
        None => e is Internal,
    }
}

/// The error raised when an amount leaves the decimal domain.
pub fn overflow() -> (r: BillingError)
    ensures
        r is Internal,
{
    internal("decimal overflow")
}

/// The human readable message of an error: `<entity> not found: <id>`, `forbidden`,
/// `provider not configured: <provider>`, or the error's own text.
pub open spec fn error_message(e: BillingError) -> Seq<char> {
    match e {
        BillingError::NotFound { entity, id } => entity@ + " not found: "@ + id@,
        BillingError::BadRequest(m) => m@,
        BillingError::Conflict(m) => m@,
        BillingError::Forbidden => "forbidden"@,
        BillingError::ProviderNotConfigured(p) => "provider not configured: "@ + p@,
        BillingError::Validation(m) => m@,
        BillingError::Internal(m) => m@,
    }
}

impl BillingError {
    /// The human readable message of the error.
    pub fn message(&self) -> (r: String)
        ensures
            r@ == error_message(*self),
    {
        match self {
            BillingError::NotFound { entity, id } => {
                let mut v: Vec<char> = Vec::new();
                extend_str(&mut v, entity.as_str());
                extend_str(&mut v, " not found: ");
                extend_str(&mut v, id.as_str());
                string_of(&v)
            },
            BillingError::BadRequest(m) => m.clone(),
            BillingError::Conflict(m) => m.clone(),
            BillingError::Forbidden => owned("forbidden"),
            BillingError::ProviderNotConfigured(p) => {
                let mut v: Vec<char> = Vec::new();
                extend_str(&mut v, "provider not configured: ");
                extend_str(&mut v, p.as_str());
                string_of(&v)
            },
            BillingError::Validation(m) => m.clone(),
            BillingError::Internal(m) => m.clone(),
        }
    }
}

} // verus!
