//! The chain-level account identity: a fixed-width identifier derived
//! injectively from a signature scheme's public key, and the
//! deterministic derivation of well-known accounts from textual seeds.

use vstd::prelude::*;
use vstd::std_specs::cmp::PartialEqSpec;
use vstd::string::StringSliceAdditionalSpecFns;

verus! {

/// The serialized width of an account identifier, in bytes: the
/// identifier carries a 256-bit public-key-derived value.
pub const ACCOUNT_ID_WIDTH: usize = 32;

/// Why an account could not be created.
#[derive(Clone, Copy, Debug, PartialEq, Eq, Structural)]
pub enum AccountCreationError {
    /// The seed has more bytes than the identifier can encode; a
    /// silently truncated seed would name the wrong account.
    InputTooLong,
}

/// Some way of identifying an account on the chain: the canonical
/// signer identity derived from the public key of the transaction
/// signing scheme, held as its serialized bytes.
#[derive(Debug)]
pub struct AccountId {
    bytes: Vec<u8>,
}

impl View for AccountId {
    type V = Seq<u8>;

    closed spec fn view(&self) -> Seq<u8> {
        self.bytes@
    }
}

impl AccountId {
    /// An identifier always holds exactly its serialized width.
    pub open spec fn well_formed(&self) -> bool {
        self@.len() == ACCOUNT_ID_WIDTH
    }

    /// Wraps the serialized form of a signer identity, refusing any
    /// byte string that is not exactly the identifier width. The
    /// identifier keeps the bytes unchanged, so distinct public keys
    /// yield distinct identifiers.
    pub fn from_bytes(bytes: Vec<u8>) -> (result: Option<AccountId>)
        ensures
            (result is Some <==> bytes@.len() == ACCOUNT_ID_WIDTH),
            result is Some ==> result->0@ == bytes@,
            result is Some ==> result->0.well_formed(),
    {
        if bytes.len() == ACCOUNT_ID_WIDTH {
            Some(AccountId { bytes })
        } else {
            None
        }
    }

    /// The serialized bytes of the identifier.
    pub fn as_bytes(&self) -> (bytes: &Vec<u8>)
        ensures
            bytes@ == self@,
    {
        &self.bytes
    }
}

impl PartialEq for AccountId {
    /// Two identifiers are equal exactly when their bytes are.
    fn eq(&self, other: &AccountId) -> (same: bool)
        ensures
            same == (self@ == other@),
    {
        if self.bytes.len() != other.bytes.len() {
            return false;
        }
        let mut i: usize = 0;
        while i < self.bytes.len()
            invariant
                0 <= i <= self.bytes@.len(),
                self.bytes@.len() == other.bytes@.len(),
                forall|j: int| 0 <= j < i ==> self.bytes@[j] == other.bytes@[j],
            decreases self.bytes@.len() - i,
        {
            if self.bytes[i] != other.bytes[i] {
                return false;
            }
            i = i + 1;
        }
        proof {
            assert(self.bytes@ =~= other.bytes@);
        }
        true
    }
}

impl Eq for AccountId {}

impl vstd::std_specs::cmp::PartialEqSpecImpl for AccountId {
    open spec fn obeys_eq_spec() -> bool {
        true
    }

    open spec fn eq_spec(&self, other: &AccountId) -> bool {
        self@ == other@
    }
}

/// The identifier bytes an account derived from a seed must hold: the
/// seed's bytes in the low-order position, every remaining high-order
/// byte zero.
pub open spec fn account_bytes_from_seed(seed: Seq<u8>) -> Seq<u8> {
    Seq::new(
        ACCOUNT_ID_WIDTH as nat,
        |i: int| if i < seed.len() {
            seed[i]
        } else {
            0u8
        },
    )
}

/// Deterministically derives a well-known account identifier from a
/// textual seed, by reading the seed's bytes as a zero-padded encoding
/// of the identifier. A seed longer than the identifier width is
/// refused rather than truncated.
pub fn create_account_from_seed(seed: &str) -> (result: Result<AccountId, AccountCreationError>)
    ensures
        (result is Ok <==> seed.spec_bytes().len() <= ACCOUNT_ID_WIDTH),
        result is Ok ==> result->Ok_0@ == account_bytes_from_seed(seed.spec_bytes()),
        result is Ok ==> result->Ok_0.well_formed(),
        result is Err ==> result->Err_0 == AccountCreationError::InputTooLong,
{
    let seed_bytes: &[u8] = seed.as_bytes();
    if seed_bytes.len() > ACCOUNT_ID_WIDTH {
        return Err(AccountCreationError::InputTooLong);
    }
    let mut bytes: Vec<u8> = Vec::new();
    let mut i: usize = 0;
    while i < seed_bytes.len()
        invariant
            0 <= i <= seed_bytes@.len(),
            seed_bytes@.len() <= ACCOUNT_ID_WIDTH,
            bytes@.len() == i,
            forall|j: int| 0 <= j < i ==> bytes@[j] == seed_bytes@[j],
        decreases seed_bytes@.len() - i,
    {
        bytes.push(seed_bytes[i]);
        i = i + 1;
    }
    while bytes.len() < ACCOUNT_ID_WIDTH
        invariant
            seed_bytes@.len() <= bytes@.len() <= ACCOUNT_ID_WIDTH,
            forall|j: int| 0 <= j < seed_bytes@.len() ==> bytes@[j] == seed_bytes@[j],
            forall|j: int| seed_bytes@.len() <= j < bytes@.len() ==> bytes@[j] == 0u8,
        decreases ACCOUNT_ID_WIDTH - bytes@.len(),
    {
        bytes.push(0u8);
    }
    proof {
        assert(bytes@ =~= account_bytes_from_seed(seed.spec_bytes()));
    }
    Ok(AccountId { bytes })
}

/// Account creation from a seed is deterministic: any two results that
/// the contract of `create_account_from_seed` allows for one seed hold
/// the same identifier bytes.
pub proof fn lemma_create_account_deterministic(
    seed: Seq<u8>,
    first: Seq<u8>,
    second: Seq<u8>,
)
    requires
        first == account_bytes_from_seed(seed),
        second == account_bytes_from_seed(seed),
    ensures
        first == second,
{
}

/// The signer-identity mapping is injective: identifiers wrapping
/// distinct key bytes stay distinct, so two public keys never collide
/// on one account.
pub proof fn lemma_account_identity_injective(first: AccountId, second: AccountId)
    requires
        first@ != second@,
    ensures
        !first.eq_spec(&second),
{
}

} // verus!
