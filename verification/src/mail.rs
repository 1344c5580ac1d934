//! Explaining the outcome of checking a mail address.
use vstd::prelude::*;

use crate::text::{chars_of, string_of};

verus! {

/// How reachable a mail address is, as the mail check judged it.
#[derive(Debug, Clone, Copy, PartialEq, Eq, Hash, Structural)]
pub enum Reachable {
    /// The address is safe to send to.
    Safe,
    /// The address appears to exist, but has quality issues.
    Risky,
    /// The address does not exist or is not well formed.
    Invalid,
    /// The recipient's server gave no valid answer.
    Unknown,
}

/// What a mail check found: whether its miscellaneous checks failed, the
/// text of its SMTP and MX errors (as `{:?}` writes them), and how
/// reachable the address is.
#[derive(Debug, Clone, PartialEq, Eq)]
pub struct MailCheckOutput {
    /// The miscellaneous checks failed.
    pub misc_failed: bool,
    /// The SMTP check failed, with this error.
    pub smtp_error: Option<String>,
    /// The MX lookup failed, with this error.
    pub mx_error: Option<String>,
    /// How reachable the address is.
    pub is_reachable: Reachable,
}

/// The explanation of a mail check: a failure of the miscellaneous
/// checks, else the SMTP error, else the MX error, else the
/// reachability.
pub open spec fn mail_check_details(o: MailCheckOutput) -> Seq<char> {
    if o.misc_failed {
        "Error occurred connecting to this email server via SMTP"@
    } else if o.smtp_error is Some {
        o.smtp_error->Some_0@
    } else if o.mx_error is Some {
        o.mx_error->Some_0@
    } else {
        match o.is_reachable {
            Reachable::Safe => "Safe: The email is safe to send"@,
            Reachable::Risky => "Risky: The email address appears to exist, but has quality issues that may result in low engagement or a bounce"@,
            Reachable::Invalid => "Invalid: Email doesn't exist or is syntactically incorrect"@,
            Reachable::Unknown => "Unknown: We're unable to get a valid response from the recipient's email server."@,
        }
    }
}

fn owned(s: &str) -> (r: String)
    ensures
        r@ == s@,
{
    string_of(chars_of(s).as_slice())
}

/// Explains the outcome of a mail check.
pub fn error_from_output(o: &MailCheckOutput) -> (r: String)
    ensures
        r@ == mail_check_details(*o),
{
    if o.misc_failed {
        return owned("Error occurred connecting to this email server via SMTP");
    }
    match &o.smtp_error {
        Some(e) => return owned(e.as_str()),
        None => {},
    }
    match &o.mx_error {
        Some(e) => return owned(e.as_str()),
        None => {},
    }
    match o.is_reachable {
        Reachable::Safe => owned("Safe: The email is safe to send"),
        Reachable::Risky => owned(
            "Risky: The email address appears to exist, but has quality issues that may result in low engagement or a bounce",
        ),
        Reachable::Invalid => owned("Invalid: Email doesn't exist or is syntactically incorrect"),
        Reachable::Unknown => owned(
            "Unknown: We're unable to get a valid response from the recipient's email server.",
        ),
    }
}

} // verus!
