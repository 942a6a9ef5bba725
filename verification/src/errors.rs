//! The failures that the library reports.

use vstd::prelude::*;

verus! {

/// Why a caller was refused access.
#[derive(Clone, Copy, Debug, PartialEq, Eq, Structural)]
pub enum AccessError {
    /// The caller has no agent record.
    NotRegistered,
    /// The code hash of the caller's record is not on the allow-list.
    RevokedOrUnapproved,
    /// The caller is not the owner.
    NotOwner,
}

impl AccessError {
    /// A sentence that names the check that failed.
    pub fn reason(&self) -> (r: &'static str)
        ensures
            r@ == access_reason(*self)@,
    {
        match self {
            AccessError::NotRegistered => "no worker found",
            AccessError::RevokedOrUnapproved => "the worker's codehash is not approved",
            AccessError::NotOwner => "the caller is not the owner",
        }
    }
}

/// The sentence for each access failure.
pub open spec fn access_reason(e: AccessError) -> &'static str {
    match e {
        AccessError::NotRegistered => "no worker found",
        AccessError::RevokedOrUnapproved => "the worker's codehash is not approved",
        AccessError::NotOwner => "the caller is not the owner",
    }
}

/// Why a collateral or a TCB info document was refused.
#[derive(Clone, Copy, Debug, PartialEq, Eq, Structural)]
pub enum ParseError {
    /// The document does not have the structure that is asked of it.
    MalformedCollateral,
    /// The document does not lead from the measurement to its images.
    MeasurementNotFound,
}

/// The verifier refused the quote.
#[derive(Clone, Copy, Debug, PartialEq, Eq, Structural)]
pub struct VerificationError;

/// Why a registration was refused.
#[derive(Clone, Copy, Debug, PartialEq, Eq, Structural)]
pub enum RegistrationError {
    /// The quote is not hexadecimal text.
    EncodingError,
    /// The collateral or the TCB info does not have the structure that is asked of it.
    MalformedCollateral,
    /// The TCB info does not lead from the measurement of the quote to its images.
    MeasurementNotFound,
    /// The verifier refused the quote.
    VerificationError,
    /// The quote was made for another identity than the caller's.
    IdentityMismatch,
    /// One of the two images is not on the allow-list.
    UnapprovedImage,
}

/// The sentence for each registration failure.
pub open spec fn registration_reason(e: RegistrationError) -> &'static str {
    match e {
        RegistrationError::EncodingError => "the quote is not hexadecimal text",
        RegistrationError::MalformedCollateral => "the collateral or the TCB info is malformed",
        RegistrationError::MeasurementNotFound => "the TCB info does not match the measurement",
        RegistrationError::VerificationError => "report is not verified",
        RegistrationError::IdentityMismatch => "predecessor_account_id != report_data",
        RegistrationError::UnapprovedImage => "an image of the agent is not approved",
    }
}

impl RegistrationError {
    /// A sentence that names the step that failed.
    pub fn reason(&self) -> (r: &'static str)
        ensures
            r@ == registration_reason(*self)@,
    {
        match self {
            RegistrationError::EncodingError => "the quote is not hexadecimal text",
            RegistrationError::MalformedCollateral => "the collateral or the TCB info is malformed",
            RegistrationError::MeasurementNotFound => "the TCB info does not match the measurement",
            RegistrationError::VerificationError => "report is not verified",
            RegistrationError::IdentityMismatch => "predecessor_account_id != report_data",
            RegistrationError::UnapprovedImage => "an image of the agent is not approved",
        }
    }

    /// The registration failure that a parse failure becomes.
    pub fn from_parse(e: ParseError) -> (r: RegistrationError)
        ensures
            r == registration_error_of(e),
    {
        match e {
            ParseError::MalformedCollateral => RegistrationError::MalformedCollateral,
            ParseError::MeasurementNotFound => RegistrationError::MeasurementNotFound,
        }
    }
}

/// The registration failure that a parse failure becomes.
pub open spec fn registration_error_of(e: ParseError) -> RegistrationError {
    match e {
        ParseError::MalformedCollateral => RegistrationError::MalformedCollateral,
        ParseError::MeasurementNotFound => RegistrationError::MeasurementNotFound,
    }
}

} // verus!
