//! What holds of the registry whatever the inputs are.

use crate::attestation::{collateral_document, lossy_utf8, quote_verification, CollateralView, ReportView};
use crate::errors::{AccessError, ParseError, RegistrationError};
use crate::hexcode::{hex_decoded, hex_encoded, is_hex_text};
use crate::registration::{concluded, registration, seconds_of};
use crate::registry::{
    access_of, approved_with, both_approved, owner_access, registered, Contract, ContractView,
    WorkerView,
};
use crate::tcb::tcb_images_of_text;
use vstd::prelude::*;

verus! {

/// A registration that fails leaves the registry as it was, and leaves the
/// allow-list as it was even where it succeeds.
pub proof fn law_failure_changes_nothing(
    state: ContractView,
    caller: Seq<char>,
    block_timestamp: u64,
    quote_hex: Seq<char>,
    collateral: Seq<char>,
    checksum: Seq<char>,
    tcb_info: Seq<char>,
)
    ensures
        ({
            let (result, after) = registration(
                state,
                caller,
                block_timestamp,
                quote_hex,
                collateral,
                checksum,
                tcb_info,
            );
            &&& result.is_err() ==> after == state
            &&& result.is_ok() ==> result == Ok::<bool, RegistrationError>(true)
            &&& after.approved == state.approved
            &&& after.owner == state.owner
        }),
{
}

/// Where the verifier refuses the quote, the registration fails with
/// `VerificationError` and the registry stays as it was.
pub proof fn law_unverified_quote_is_refused(
    state: ContractView,
    caller: Seq<char>,
    block_timestamp: u64,
    quote_hex: Seq<char>,
    collateral: Seq<char>,
    checksum: Seq<char>,
    tcb_info: Seq<char>,
    parsed: CollateralView,
)
    requires
        is_hex_text(quote_hex),
        collateral_document(collateral) == Some(parsed),
        quote_verification(hex_decoded(quote_hex), parsed, seconds_of(block_timestamp)).is_none(),
    ensures
        registration(state, caller, block_timestamp, quote_hex, collateral, checksum, tcb_info) == (
            Err::<bool, RegistrationError>(RegistrationError::VerificationError),
            state,
        ),
{
}

/// Where the quote is verified and was made for another identity than the
/// caller's, the registration fails with `IdentityMismatch`, whatever the TCB
/// info and the allow-list hold, and the registry stays as it was.
pub proof fn law_identity_binding(
    state: ContractView,
    caller: Seq<char>,
    block_timestamp: u64,
    quote_hex: Seq<char>,
    collateral: Seq<char>,
    checksum: Seq<char>,
    tcb_info: Seq<char>,
    parsed: CollateralView,
    report: ReportView,
)
    requires
        is_hex_text(quote_hex),
        collateral_document(collateral) == Some(parsed),
        quote_verification(hex_decoded(quote_hex), parsed, seconds_of(block_timestamp)) == Some(
            report,
        ),
        lossy_utf8(report.report_data) != caller,
    ensures
        registration(state, caller, block_timestamp, quote_hex, collateral, checksum, tcb_info) == (
            Err::<bool, RegistrationError>(RegistrationError::IdentityMismatch),
            state,
        ),
{
}

/// Where the quote is verified and made for the caller, and the TCB info
/// gives two images that are not both on the allow-list, the registration
/// fails with `UnapprovedImage`; once both are approved, the same
/// registration succeeds and records the image of the application.
pub proof fn law_unapproved_then_approved(
    state: ContractView,
    caller: Seq<char>,
    block_timestamp: u64,
    quote_hex: Seq<char>,
    collateral: Seq<char>,
    checksum: Seq<char>,
    tcb_info: Seq<char>,
    parsed: CollateralView,
    report: ReportView,
    api_image: Seq<char>,
    app_image: Seq<char>,
)
    requires
        is_hex_text(quote_hex),
        collateral_document(collateral) == Some(parsed),
        quote_verification(hex_decoded(quote_hex), parsed, seconds_of(block_timestamp)) == Some(
            report,
        ),
        lossy_utf8(report.report_data) == caller,
        tcb_images_of_text(tcb_info, hex_encoded(report.rt_mr3)) == Ok::<
            (Seq<char>, Seq<char>),
            ParseError,
        >((api_image, app_image)),
        !both_approved(state, api_image, app_image),
    ensures
        registration(state, caller, block_timestamp, quote_hex, collateral, checksum, tcb_info) == (
            Err::<bool, RegistrationError>(RegistrationError::UnapprovedImage),
            state,
        ),
        ({
            let approved = approved_with(approved_with(state, api_image), app_image);
            registration(
                approved,
                caller,
                block_timestamp,
                quote_hex,
                collateral,
                checksum,
                tcb_info,
            ) == (Ok::<bool, RegistrationError>(true), registered(approved, caller, checksum, app_image))
        }),
{
}

/// A second registration of one identity replaces its record: nothing of the
/// first one stays, and no other record changes.
pub proof fn law_reregistration_overwrites(
    state: ContractView,
    caller: Seq<char>,
    first_images: (Seq<char>, Seq<char>),
    first_checksum: Seq<char>,
    second_images: (Seq<char>, Seq<char>),
    second_checksum: Seq<char>,
)
    requires
        both_approved(state, first_images.0, first_images.1),
        both_approved(state, second_images.0, second_images.1),
    ensures
        ({
            let (first, between) = concluded(
                state,
                caller,
                caller,
                Ok(first_images),
                first_checksum,
            );
            let (second, after) = concluded(
                between,
                caller,
                caller,
                Ok(second_images),
                second_checksum,
            );
            &&& first == Ok::<bool, RegistrationError>(true)
            &&& second == Ok::<bool, RegistrationError>(true)
            &&& after.agents[caller] == WorkerView {
                checksum: second_checksum,
                codehash: second_images.1,
            }
            &&& after == registered(state, caller, second_checksum, second_images.1)
        }),
{
    let between = registered(state, caller, first_checksum, first_images.1);
    let after = registered(between, caller, second_checksum, second_images.1);
    assert(after.agents =~= registered(state, caller, second_checksum, second_images.1).agents);
}

/// To approve a code hash twice is to approve it once: the allow-list is
/// the same, and so is its size.
pub proof fn law_approval_is_idempotent(state: ContractView, codehash: Seq<char>)
    requires
        state.approved.finite(),
    ensures
        approved_with(approved_with(state, codehash), codehash) == approved_with(state, codehash),
        approved_with(approved_with(state, codehash), codehash).approved.len() == approved_with(
            state,
            codehash,
        ).approved.len(),
        state.approved.contains(codehash) ==> approved_with(state, codehash) == state,
{
    let once = approved_with(state, codehash);
    assert(once.approved.insert(codehash) =~= once.approved);
    if state.approved.contains(codehash) {
        assert(state.approved.insert(codehash) =~= state.approved);
    }
}

/// Only the owner passes the owner check, and an approval grows the
/// allow-list and changes nothing else.
pub proof fn law_only_owner_approves(state: ContractView, caller: Seq<char>, codehash: Seq<char>)
    ensures
        owner_access(state, caller).is_ok() <==> caller == state.owner,
        caller != state.owner ==> owner_access(state, caller) == Err::<(), AccessError>(
            AccessError::NotOwner,
        ),
        state.approved.subset_of(approved_with(state, codehash).approved),
        approved_with(state, codehash).agents == state.agents,
        approved_with(state, codehash).owner == state.owner,
{
}

/// The access gate refuses an identity without a record, and an identity
/// whose recorded code hash is not on the allow-list although its record is
/// there; it lets every other identity pass.
pub proof fn law_access_gate(state: ContractView, caller: Seq<char>)
    ensures
        !state.agents.contains_key(caller) ==> access_of(state, caller) == Err::<(), AccessError>(
            AccessError::NotRegistered,
        ),
        state.agents.contains_key(caller) && !state.approved.contains(state.agents[caller].codehash)
            ==> access_of(state, caller) == Err::<(), AccessError>(
            AccessError::RevokedOrUnapproved,
        ),
        state.agents.contains_key(caller) && state.approved.contains(state.agents[caller].codehash)
            ==> access_of(state, caller).is_ok(),
{
}

/// An agent that has just been registered passes the access gate.
pub proof fn law_registered_agent_passes(
    state: ContractView,
    caller: Seq<char>,
    images: (Seq<char>, Seq<char>),
    checksum: Seq<char>,
)
    requires
        both_approved(state, images.0, images.1),
    ensures
        access_of(concluded(state, caller, caller, Ok(images), checksum).1, caller).is_ok(),
{
}

/// The allow-list of a registry is finite.
pub proof fn law_allow_list_is_finite(contract: &Contract)
    ensures
        contract@.approved.finite(),
{
    contract.lemma_allow_list_is_finite();
}

} // verus!
