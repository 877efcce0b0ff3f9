//! Structural validation of the inbound creation payload. It runs entirely
//! before any persistence call: a violation short-circuits with the first
//! failing rule's description, in field order.

use vstd::prelude::*;
use validator::ValidateEmail;
use crate::dto::{CreateUserRequest, CreateUserRequestView};

verus! {

/// Whether the characters form a syntactically valid email address, exactly
/// as the validator crate judges them.
pub uninterp spec fn email_valid(s: Seq<char>) -> bool;

/// Relies on validator's `ValidateEmail::validate_email` for `&str`, a
/// syntactic email check against the HTML5 address grammar: its verdict is a
/// function of the characters alone.
#[verifier::external_body]
fn check_email(s: &str) -> (r: bool)
    ensures
        r == email_valid(s@),
{
    s.validate_email()
}

/// The structural rules a creation payload must meet before the repository
/// is invoked.
pub open spec fn valid_request(req: CreateUserRequestView) -> bool {
    &&& email_valid(req.email)
    &&& req.password.len() >= 8
    &&& req.full_name.len() >= 2
    &&& req.role.len() >= 1
}

/// The description of the first rule (in field order) that `req` violates;
/// meaningful only when some rule fails.
pub open spec fn violation_message(req: CreateUserRequestView) -> Seq<char> {
    if !email_valid(req.email) {
        "Invalid email address"@
    } else if req.password.len() < 8 {
        "Password must be at least 8 characters"@
    } else if req.full_name.len() < 2 {
        "Full name must be at least 2 characters"@
    } else {
        "Role is required"@
    }
}

/// Checks the payload against every structural rule. Returns no message
/// exactly when all rules hold, and otherwise the first violation's
/// description.
pub fn validate_create(req: &CreateUserRequest) -> (r: Option<String>)
    ensures
        r is None <==> valid_request(req@),
        r matches Some(m) ==> m@ == violation_message(req@),
{
    if !check_email(req.email.as_str()) {
        Some(String::from_str("Invalid email address"))
    } else if req.password.as_str().unicode_len() < 8 {
        Some(String::from_str("Password must be at least 8 characters"))
    } else if req.full_name.as_str().unicode_len() < 2 {
        Some(String::from_str("Full name must be at least 2 characters"))
    } else if req.role.as_str().unicode_len() < 1 {
        Some(String::from_str("Role is required"))
    } else {
        None
    }
}

} // verus!
