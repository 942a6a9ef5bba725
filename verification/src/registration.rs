//! Registration: from a quote, its collateral and a TCB info to the record of
//! the agent that sent them.

use crate::attestation::{
    collateral_document, lossy_utf8, parse_collateral, quote_verification, verify, ReportView,
    VerifiedReport,
};
use crate::errors::{registration_error_of, ParseError, RegistrationError};
use crate::hexcode::{decode_hex, hex_decoded, hex_encoded, is_hex_text};
use crate::registry::{both_approved, registered, Contract, ContractView};
use crate::tcb::{parse_tcb_info, tcb_images_of_text};
use crate::text::same_text;
use vstd::prelude::*;

verus! {

/// The whole seconds in a time given in nanoseconds.
pub open spec fn seconds_of(nanoseconds: u64) -> u64 {
    nanoseconds / 1_000_000_000
}

/// How a registration ends, and the registry after it, once the identity of
/// the report and the images of the TCB info are known: the identity has to
/// be the caller's, the images have to be found, and both have to be on the
/// allow-list. Only then the registry changes: the caller's record becomes
/// `checksum` and the image of the application.
pub open spec fn concluded(
    state: ContractView,
    caller: Seq<char>,
    identity: Seq<char>,
    images: Result<(Seq<char>, Seq<char>), ParseError>,
    checksum: Seq<char>,
) -> (Result<bool, RegistrationError>, ContractView) {
    if identity != caller {
        (Err(RegistrationError::IdentityMismatch), state)
    } else {
        match images {
            Err(e) => (Err(registration_error_of(e)), state),
            Ok((api_image, app_image)) => if both_approved(state, api_image, app_image) {
                (Ok(true), registered(state, caller, checksum, app_image))
            } else {
                (Err(RegistrationError::UnapprovedImage), state)
            },
        }
    }
}

/// How a registration ends, and the registry after it, once the quote is
/// verified.
pub open spec fn judged(
    state: ContractView,
    caller: Seq<char>,
    report: ReportView,
    checksum: Seq<char>,
    tcb_info: Seq<char>,
) -> (Result<bool, RegistrationError>, ContractView) {
    concluded(
        state,
        caller,
        lossy_utf8(report.report_data),
        tcb_images_of_text(tcb_info, hex_encoded(report.rt_mr3)),
        checksum,
    )
}

/// How a registration ends, and the registry after it.
pub open spec fn registration(
    state: ContractView,
    caller: Seq<char>,
    block_timestamp: u64,
    quote_hex: Seq<char>,
    collateral: Seq<char>,
    checksum: Seq<char>,
    tcb_info: Seq<char>,
) -> (Result<bool, RegistrationError>, ContractView) {
    if !is_hex_text(quote_hex) {
        (Err(RegistrationError::EncodingError), state)
    } else {
        match collateral_document(collateral) {
            None => (Err(RegistrationError::MalformedCollateral), state),
            Some(c) => match quote_verification(
                hex_decoded(quote_hex),
                c,
                seconds_of(block_timestamp),
            ) {
                None => (Err(RegistrationError::VerificationError), state),
                Some(report) => judged(state, caller, report, checksum, tcb_info),
            },
        }
    }
}

/// The images as texts.
pub open spec fn image_texts(images: Result<(String, String), ParseError>) -> Result<
    (Seq<char>, Seq<char>),
    ParseError,
> {
    match images {
        Ok((api_image, app_image)) => Ok((api_image@, app_image@)),
        Err(e) => Err(e),
    }
}

impl Contract {
    /// Ends a registration of `caller`, given the identity that the verified
    /// report was made for and what the TCB info gave for its measurement.
    pub fn conclude_registration(
        &mut self,
        caller: &str,
        identity: &str,
        images: Result<(String, String), ParseError>,
        checksum: String,
    ) -> (r: Result<bool, RegistrationError>)
        requires
            old(self).well_formed(),
        ensures
            final(self).well_formed(),
            (r, final(self)@) == concluded(
                old(self)@,
                caller@,
                identity@,
                image_texts(images),
                checksum@,
            ),
    {
        if !same_text(identity, caller) {
            return Err(RegistrationError::IdentityMismatch);
        }
        match images {
            Err(e) => Err(RegistrationError::from_parse(e)),
            Ok((api_image, app_image)) => {
                if self.admit_agent(caller, api_image.as_str(), app_image, checksum) {
                    Ok(true)
                } else {
                    Err(RegistrationError::UnapprovedImage)
                }
            },
        }
    }

    /// Registers `caller` on a verified report: the report has to be made for
    /// the caller, and the TCB info has to lead from the report's measurement
    /// to two images on the allow-list.
    pub fn register_verified(
        &mut self,
        caller: &str,
        report: &VerifiedReport,
        checksum: String,
        tcb_info: &str,
    ) -> (r: Result<bool, RegistrationError>)
        requires
            old(self).well_formed(),
        ensures
            final(self).well_formed(),
            (r, final(self)@) == judged(old(self)@, caller@, report@, checksum@, tcb_info@),
    {
        let identity = report.identity();
        if !same_text(identity.as_str(), caller) {
            return Err(RegistrationError::IdentityMismatch);
        }
        let measurement = report.measurement();
        let images = parse_tcb_info(tcb_info, measurement.as_str());
        self.conclude_registration(caller, identity.as_str(), images, checksum)
    }

    /// Registers `caller` as an agent. The quote, in hexadecimal, is verified
    /// against the collateral at the whole seconds of `block_timestamp`, a
    /// time in nanoseconds; then the report is judged as `register_verified`
    /// does. On any failure the registry stays as it was.
    pub fn register_agent(
        &mut self,
        caller: &str,
        block_timestamp: u64,
        quote_hex: &str,
        collateral: &str,
        checksum: String,
        tcb_info: &str,
    ) -> (r: Result<bool, RegistrationError>)
        requires
            old(self).well_formed(),
        ensures
            final(self).well_formed(),
            (r, final(self)@) == registration(
                old(self)@,
                caller@,
                block_timestamp,
                quote_hex@,
                collateral@,
                checksum@,
                tcb_info@,
            ),
    {
        let quote = match decode_hex(quote_hex) {
            Some(bytes) => bytes,
            None => { return Err(RegistrationError::EncodingError); },
        };
        let collateral = match parse_collateral(collateral) {
            Ok(c) => c,
            Err(_) => { return Err(RegistrationError::MalformedCollateral); },
        };
        let now = block_timestamp / 1_000_000_000;
        let report = match verify(quote.as_slice(), collateral, now) {
            Ok(report) => report,
            Err(_) => { return Err(RegistrationError::VerificationError); },
        };
        self.register_verified(caller, &report, checksum, tcb_info)
    }
}

} // verus!
