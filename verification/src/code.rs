//! The error codes surfaced to callers, and their wire numbers.

use crate::register::UpdateError;
use vstd::prelude::*;

verus! {

#[derive(Debug, Clone, Copy, PartialEq, Eq, Structural, Hash)]
pub enum Code {
    AccessDatabaseFail,
    FormFieldDoesNotMatch,
    FormFieldTooShort,
    FormFieldInvalid,
    PasswordInsecure,
}

impl Code {
    /// The number under which the code goes over the wire.
    pub open spec fn number_spec(self) -> u32 {
        match self {
            Code::AccessDatabaseFail => 1,
            Code::FormFieldDoesNotMatch => 2,
            Code::FormFieldTooShort => 3,
            Code::FormFieldInvalid => 4,
            Code::PasswordInsecure => 5,
        }
    }

    pub fn number(self) -> (r: u32)
        ensures
            r == self.number_spec(),
    {
        match self {
            Code::AccessDatabaseFail => 1,
            Code::FormFieldDoesNotMatch => 2,
            Code::FormFieldTooShort => 3,
            Code::FormFieldInvalid => 4,
            Code::PasswordInsecure => 5,
        }
    }
}

/// The form fields each rejection is reported against: a mismatched
/// confirmation names the password and its confirmation, the password
/// rejections name the password, an unusable invite the invite, a bad or
/// taken email the email, and a store anomaly no field at all.
pub fn fields_of(error: &UpdateError) -> (r: Vec<String>)
    ensures
        error is MismatchConfirmation ==> r@.len() == 2 && r@[0]@ == "password"@ && r@[1]@
            == "passwordConfirmation"@,
        error is ShortPassword ==> r@.len() == 1 && r@[0]@ == "password"@,
        error is InsecurePassword ==> r@.len() == 1 && r@[0]@ == "password"@,
        error is InvalidInvite ==> r@.len() == 1 && r@[0]@ == "invite"@,
        error is InvalidEmail ==> r@.len() == 1 && r@[0]@ == "email"@,
        error is EmailInUse ==> r@.len() == 1 && r@[0]@ == "email"@,
        error is DatabaseError ==> r@.len() == 0,
{
    let mut r: Vec<String> = Vec::new();
    match error {
        UpdateError::MismatchConfirmation => {
            r.push("password".to_owned());
            r.push("passwordConfirmation".to_owned());
        },
        UpdateError::ShortPassword => {
            r.push("password".to_owned());
        },
        UpdateError::InsecurePassword(_) => {
            r.push("password".to_owned());
        },
        UpdateError::InvalidInvite => {
            r.push("invite".to_owned());
        },
        UpdateError::InvalidEmail => {
            r.push("email".to_owned());
        },
        UpdateError::EmailInUse => {
            r.push("email".to_owned());
        },
        UpdateError::DatabaseError => {},
    }
    r
}

/// The code under which each rejection is reported: a mismatched
/// confirmation is a non-matching field, a short password a too-short
/// field, a weak password an insecure password, an unusable invite and a
/// bad or taken email an invalid field, and a store anomaly a database
/// failure.
pub fn code_of(error: &UpdateError) -> (r: Code)
    ensures
        r == (match error {
            UpdateError::MismatchConfirmation => Code::FormFieldDoesNotMatch,
            UpdateError::ShortPassword => Code::FormFieldTooShort,
            UpdateError::InsecurePassword(_) => Code::PasswordInsecure,
            UpdateError::InvalidInvite => Code::FormFieldInvalid,
            UpdateError::InvalidEmail => Code::FormFieldInvalid,
            UpdateError::EmailInUse => Code::FormFieldInvalid,
            UpdateError::DatabaseError => Code::AccessDatabaseFail,
        }),
{
    match error {
        UpdateError::MismatchConfirmation => Code::FormFieldDoesNotMatch,
        UpdateError::ShortPassword => Code::FormFieldTooShort,
        UpdateError::InsecurePassword(_) => Code::PasswordInsecure,
        UpdateError::InvalidInvite => Code::FormFieldInvalid,
        UpdateError::InvalidEmail => Code::FormFieldInvalid,
        UpdateError::EmailInUse => Code::FormFieldInvalid,
        UpdateError::DatabaseError => Code::AccessDatabaseFail,
    }
}

} // verus!
