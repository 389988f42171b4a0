//! The three pluggable capability interfaces: signature verification,
//! payment-limit policy, and account creation. Each is a narrow policy
//! contract that a composing module supplies at assembly time; the unit
//! type carries the permissive default implementation used when no
//! chain-specific policy is configured.

use vstd::prelude::*;
use vstd::string::StringSliceAdditionalSpecFns;

use crate::identity::account_bytes_from_seed;
use crate::identity::create_account_from_seed;
use crate::identity::AccountCreationError;
use crate::identity::ACCOUNT_ID_WIDTH;

verus! {

/// Interface for verifying a device signature over a nonce.
pub trait VerifySignatureInterface<AccountId> {
    /// What the implementation promises of its verdict.
    spec fn verify_atomos_signature_ensures(
        nonce: u64,
        signature: Seq<u8>,
        sender: AccountId,
        verdict: bool,
    ) -> bool;

    /// Verify a device signature over the given nonce against the
    /// sender's account.
    fn verify_atomos_signature(nonce: u64, signature: Vec<u8>, sender: AccountId) -> (verdict:
        bool)
        ensures
            Self::verify_atomos_signature_ensures(nonce, signature@, sender, verdict),
    ;
}

impl<AccountId> VerifySignatureInterface<AccountId> for () {
    /// The default capability accepts every signature: a safe
    /// placeholder for test and bootstrap configurations only.
    open spec fn verify_atomos_signature_ensures(
        nonce: u64,
        signature: Seq<u8>,
        sender: AccountId,
        verdict: bool,
    ) -> bool {
        verdict == true
    }

    fn verify_atomos_signature(_nonce: u64, _signature: Vec<u8>, _sender: AccountId) -> bool {
        true
    }
}

/// Interface for the payment-limit policy of micropayment operations.
pub trait OperationInterface<AccountId, Balance> {
    /// What the implementation promises of its verdict.
    spec fn is_single_max_limit_ensures(pay_amount: Balance, verdict: bool) -> bool;

    /// Whether a single payment of `pay_amount` stays within the
    /// chain's single-payment ceiling.
    fn is_single_max_limit(pay_amount: Balance) -> (verdict: bool)
        ensures
            Self::is_single_max_limit_ensures(pay_amount, verdict),
    ;
}

impl<AccountId, Balance> OperationInterface<AccountId, Balance> for () {
    /// The default policy enforces no limit: every amount passes.
    open spec fn is_single_max_limit_ensures(pay_amount: Balance, verdict: bool) -> bool {
        verdict == true
    }

    fn is_single_max_limit(_pay_amount: Balance) -> bool {
        true
    }
}

/// Interface for deterministically creating well-known accounts from
/// human-readable seeds.
pub trait AccountCreator<AccountId> {
    /// What the implementation promises of the created account.
    spec fn create_account_ensures(
        string: &str,
        result: Result<AccountId, AccountCreationError>,
    ) -> bool;

    /// Derive an account identifier from a textual seed.
    fn create_account(string: &'static str) -> (result: Result<AccountId, AccountCreationError>)
        ensures
            Self::create_account_ensures(string, result),
    ;
}

impl AccountCreator<crate::identity::AccountId> for () {
    /// The default creator reads the seed's bytes as a zero-padded
    /// encoding of the identifier, and refuses a seed longer than the
    /// identifier width.
    open spec fn create_account_ensures(
        string: &str,
        result: Result<crate::identity::AccountId, AccountCreationError>,
    ) -> bool {
        &&& (result is Ok <==> string.spec_bytes().len() <= ACCOUNT_ID_WIDTH)
        &&& result is Ok ==> result->Ok_0@ == account_bytes_from_seed(string.spec_bytes())
        &&& result is Ok ==> result->Ok_0.well_formed()
        &&& result is Err ==> result->Err_0 == AccountCreationError::InputTooLong
    }

    fn create_account(string: &'static str) -> (result: Result<
        crate::identity::AccountId,
        AccountCreationError,
    >) {
        create_account_from_seed(string)
    }
}

} // verus!
