use node_primitives::identity::{
    create_account_from_seed, AccountCreationError, AccountId, ACCOUNT_ID_WIDTH,
};
use node_primitives::interfaces::{AccountCreator, OperationInterface, VerifySignatureInterface};
use node_primitives::Balance;

#[test]
fn default_signature_verification_accepts_everything() {
    let sender = AccountId::from_bytes(vec![9u8; ACCOUNT_ID_WIDTH]).unwrap();
    assert!(<() as VerifySignatureInterface<AccountId>>::verify_atomos_signature(
        0,
        Vec::new(),
        sender,
    ));
    let sender = AccountId::from_bytes(vec![0u8; ACCOUNT_ID_WIDTH]).unwrap();
    assert!(<() as VerifySignatureInterface<AccountId>>::verify_atomos_signature(
        u64::MAX,
        vec![0xde, 0xad, 0xbe, 0xef],
        sender,
    ));
    assert!(<() as VerifySignatureInterface<u32>>::verify_atomos_signature(
        42,
        vec![1, 2, 3],
        7,
    ));
}

#[test]
fn default_payment_limit_accepts_every_amount() {
    assert!(<() as OperationInterface<AccountId, Balance>>::is_single_max_limit(0));
    assert!(<() as OperationInterface<AccountId, Balance>>::is_single_max_limit(1));
    assert!(<() as OperationInterface<AccountId, Balance>>::is_single_max_limit(Balance::MAX));
    assert!(<() as OperationInterface<u32, u64>>::is_single_max_limit(u64::MAX));
}

#[test]
fn default_account_creator_matches_seed_derivation() {
    let through_trait = <() as AccountCreator<AccountId>>::create_account("treasury").unwrap();
    let direct = create_account_from_seed("treasury").unwrap();
    assert!(through_trait == direct);
}

#[test]
fn default_account_creator_rejects_long_seeds() {
    let result =
        <() as AccountCreator<AccountId>>::create_account("a seed that is much too long to encode");
    assert_eq!(result, Err(AccountCreationError::InputTooLong));
}
