//! Collateral, the verification of a quote against it, and what a verified
//! quote reports.

use crate::errors::{ParseError, VerificationError};
use crate::hexcode::{encode_hex, hex_encoded};
use vstd::prelude::*;

verus! {

/// The vendor's certificates, revocation lists and signed statements against
/// which a quote is verified.
pub struct Collateral {
    pub pck_crl_issuer_chain: String,
    pub root_ca_crl: Vec<u8>,
    pub pck_crl: Vec<u8>,
    pub tcb_info_issuer_chain: String,
    pub tcb_info: String,
    pub tcb_info_signature: Vec<u8>,
    pub qe_identity_issuer_chain: String,
    pub qe_identity: String,
    pub qe_identity_signature: Vec<u8>,
    pub pck_certificate_chain: Option<String>,
}

/// What a [`Collateral`] holds.
pub ghost struct CollateralView {
    pub pck_crl_issuer_chain: Seq<char>,
    pub root_ca_crl: Seq<u8>,
    pub pck_crl: Seq<u8>,
    pub tcb_info_issuer_chain: Seq<char>,
    pub tcb_info: Seq<char>,
    pub tcb_info_signature: Seq<u8>,
    pub qe_identity_issuer_chain: Seq<char>,
    pub qe_identity: Seq<char>,
    pub qe_identity_signature: Seq<u8>,
    pub pck_certificate_chain: Option<Seq<char>>,
}

impl View for Collateral {
    type V = CollateralView;

    open spec fn view(&self) -> CollateralView {
        CollateralView {
            pck_crl_issuer_chain: self.pck_crl_issuer_chain@,
            root_ca_crl: self.root_ca_crl@,
            pck_crl: self.pck_crl@,
            tcb_info_issuer_chain: self.tcb_info_issuer_chain@,
            tcb_info: self.tcb_info@,
            tcb_info_signature: self.tcb_info_signature@,
            qe_identity_issuer_chain: self.qe_identity_issuer_chain@,
            qe_identity: self.qe_identity@,
            qe_identity_signature: self.qe_identity_signature@,
            pck_certificate_chain: match self.pck_certificate_chain {
                Some(chain) => Some(chain@),
                None => None,
            },
        }
    }
}

/// What a verified quote of a trust domain reports.
pub struct VerifiedReport {
    /// The 64 bytes that the maker of the quote chose; here, an identity.
    pub report_data: Vec<u8>,
    /// The measurement register of the application.
    pub rt_mr3: Vec<u8>,
}

/// What a [`VerifiedReport`] holds.
pub ghost struct ReportView {
    pub report_data: Seq<u8>,
    pub rt_mr3: Seq<u8>,
}

impl View for VerifiedReport {
    type V = ReportView;

    open spec fn view(&self) -> ReportView {
        ReportView { report_data: self.report_data@, rt_mr3: self.rt_mr3@ }
    }
}

/// The collateral that a JSON text stands for; `None` where it stands for none.
pub uninterp spec fn collateral_document(raw: Seq<char>) -> Option<CollateralView>;

/// What the verifier finds in `quote`, held against `collateral` at
/// `now_secs` seconds after the epoch: the report of a trust domain, or
/// `None` where the quote is refused or reports no trust domain.
pub uninterp spec fn quote_verification(
    quote: Seq<u8>,
    collateral: CollateralView,
    now_secs: u64,
) -> Option<ReportView>;

/// The text that `bytes` stand for in UTF-8, with the replacement character
/// in place of what is no UTF-8.
pub uninterp spec fn lossy_utf8(bytes: Seq<u8>) -> Seq<char>;

/// Calls `serde_json::from_str` for a `dcap_qvl::QuoteCollateralV3` and moves
/// its fields. The result depends on the text alone.
#[verifier::external_body]
pub(crate) fn read_collateral(raw: &str) -> (r: Option<Collateral>)
    ensures
        match r {
            Some(c) => collateral_document(raw@) == Some(c@),
            None => collateral_document(raw@).is_none(),
        },
{
    let c = serde_json::from_str::<dcap_qvl::QuoteCollateralV3>(raw).ok()?;
    Some(Collateral {
        pck_crl_issuer_chain: c.pck_crl_issuer_chain,
        root_ca_crl: c.root_ca_crl,
        pck_crl: c.pck_crl,
        tcb_info_issuer_chain: c.tcb_info_issuer_chain,
        tcb_info: c.tcb_info,
        tcb_info_signature: c.tcb_info_signature,
        qe_identity_issuer_chain: c.qe_identity_issuer_chain,
        qe_identity: c.qe_identity,
        qe_identity_signature: c.qe_identity_signature,
        pck_certificate_chain: c.pck_certificate_chain,
    })
}

/// Calls `dcap_qvl::verify::verify` on the quote, the collateral and the
/// time, and `Report::as_td10` on what it reports. The result depends on
/// these three alone.
#[verifier::external_body]
pub(crate) fn check_quote(quote: &[u8], collateral: Collateral, now_secs: u64) -> (r: Option<
    VerifiedReport,
>)
    ensures
        match r {
            Some(report) => quote_verification(quote@, collateral@, now_secs) == Some(report@),
            None => quote_verification(quote@, collateral@, now_secs).is_none(),
        },
{
    let c = dcap_qvl::QuoteCollateralV3 {
        pck_crl_issuer_chain: collateral.pck_crl_issuer_chain,
        root_ca_crl: collateral.root_ca_crl,
        pck_crl: collateral.pck_crl,
        tcb_info_issuer_chain: collateral.tcb_info_issuer_chain,
        tcb_info: collateral.tcb_info,
        tcb_info_signature: collateral.tcb_info_signature,
        qe_identity_issuer_chain: collateral.qe_identity_issuer_chain,
        qe_identity: collateral.qe_identity,
        qe_identity_signature: collateral.qe_identity_signature,
        pck_certificate_chain: collateral.pck_certificate_chain,
    };
    let verified = dcap_qvl::verify::verify(quote, &c, now_secs).ok()?;
    let td = verified.report.as_td10()?;
    Some(VerifiedReport { report_data: td.report_data.to_vec(), rt_mr3: td.rt_mr3.to_vec() })
}

/// Calls `String::from_utf8_lossy`.
#[verifier::external_body]
pub(crate) fn lossy_text(bytes: &[u8]) -> (r: String)
    ensures
        r@ == lossy_utf8(bytes@),
{
    String::from_utf8_lossy(bytes).into_owned()
}

/// Reads a collateral from its JSON text.
pub fn parse_collateral(raw: &str) -> (r: Result<Collateral, ParseError>)
    ensures
        match r {
            Ok(c) => collateral_document(raw@) == Some(c@),
            Err(e) => collateral_document(raw@).is_none() && e == ParseError::MalformedCollateral,
        },
{
    match read_collateral(raw) {
        Some(c) => Ok(c),
        None => Err(ParseError::MalformedCollateral),
    }
}

/// Verifies `quote` against `collateral` at `reference_time_seconds` seconds
/// after the epoch.
pub fn verify(quote: &[u8], collateral: Collateral, reference_time_seconds: u64) -> (r: Result<
    VerifiedReport,
    VerificationError,
>)
    ensures
        match r {
            Ok(report) => quote_verification(quote@, collateral@, reference_time_seconds) == Some(
                report@,
            ),
            Err(_) => quote_verification(quote@, collateral@, reference_time_seconds).is_none(),
        },
{
    match check_quote(quote, collateral, reference_time_seconds) {
        Some(report) => Ok(report),
        None => Err(VerificationError),
    }
}

impl VerifiedReport {
    /// The identity that the report was made for.
    pub fn identity(&self) -> (r: String)
        ensures
            r@ == lossy_utf8(self.report_data@),
    {
        lossy_text(self.report_data.as_slice())
    }

    /// The measurement register of the application, in hexadecimal.
    pub fn measurement(&self) -> (r: String)
        ensures
            r@ == hex_encoded(self.rt_mr3@),
    {
        encode_hex(self.rt_mr3.as_slice())
    }
}

} // verus!
