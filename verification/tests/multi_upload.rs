use squads_multisig_program::ephemeral_signers::derive_ephemeral_signer;
use squads_multisig_program::vault_transaction_multi_upload::{append, realloc_size};
use squads_multisig_program::{
    Member, Multisig, MultisigCompiledInstruction, MultisigError, Permissions, Pubkey, RentPayer, UploadPolicy,
    VaultTransaction, VaultTransactionAccount, VaultTransactionMessage, VaultTransactionMultiUpload,
    VaultTransactionMultiUploadArgs,
};

const INITIATE: u8 = 1;
const VOTE: u8 = 2;
const EXECUTE: u8 = 4;

fn key(byte: u8) -> Pubkey {
    Pubkey::new_from_array([byte; 32])
}

fn program_id() -> Pubkey {
    let mut bytes = [0u8; 32];
    for (i, b) in bytes.iter_mut().enumerate() {
        *b = i as u8;
    }
    Pubkey::new_from_array(bytes)
}

fn transaction_key() -> Pubkey {
    let mut bytes = [0u8; 32];
    for (i, b) in bytes.iter_mut().enumerate() {
        *b = 100 + i as u8;
    }
    Pubkey::new_from_array(bytes)
}

fn member(byte: u8, mask: u8) -> Member {
    Member { key: key(byte), permissions: Permissions { mask } }
}

/// An instruction that takes `size` bytes when written out.
fn instruction_of_size(size: usize, fill: u8) -> MultisigCompiledInstruction {
    assert!(size >= 9);
    MultisigCompiledInstruction { program_id_index: fill, account_indexes: vec![], data: vec![fill; size - 9] }
}

/// A context whose stored message takes `message_size` bytes, with the given
/// bumps, a creator that may initiate, storage that fits the transaction
/// exactly and a payer that can fund any storage.
fn context(message_size: usize, bumps: Vec<u8>) -> VaultTransactionMultiUpload {
    let transaction = VaultTransaction {
        multisig: key(50),
        creator: key(10),
        transaction_index: 7,
        vault_index: 3,
        ephemeral_signer_bumps: bumps,
        message: VaultTransactionMessage { instructions: vec![instruction_of_size(message_size - 4, 0xaa)] },
    };
    let data_len = transaction.size().unwrap();
    VaultTransactionMultiUpload {
        program_id: program_id(),
        multisig: Multisig {
            create_key: key(60),
            transaction_index: 9,
            members: vec![
                member(10, INITIATE | VOTE | EXECUTE),
                member(11, VOTE | EXECUTE),
                member(12, INITIATE),
            ],
        },
        transaction: VaultTransactionAccount { key: transaction_key(), data_len, transaction },
        creator: key(10),
        rent_payer: RentPayer { key: key(20), fundable_len: usize::MAX },
        policy: UploadPolicy::default(),
    }
}

fn args(ephemeral_signers: u8, additional_instructions: Vec<MultisigCompiledInstruction>) -> VaultTransactionMultiUploadArgs {
    VaultTransactionMultiUploadArgs {
        vault_index: 3,
        transaction_index: 7,
        ephemeral_signers,
        additional_instructions,
        memo: None,
    }
}

/// What the amendment may change, and what a refusal must leave alone.
fn snapshot(ctx: &VaultTransactionMultiUpload) -> (Vec<(u8, Vec<u8>, Vec<u8>)>, Vec<u8>, usize, u64, u8, usize) {
    (
        ctx.transaction
            .transaction
            .message
            .instructions
            .iter()
            .map(|ix| (ix.program_id_index, ix.account_indexes.clone(), ix.data.clone()))
            .collect(),
        ctx.transaction.transaction.ephemeral_signer_bumps.clone(),
        ctx.transaction.data_len,
        ctx.transaction.transaction.transaction_index,
        ctx.transaction.transaction.vault_index,
        ctx.rent_payer.fundable_len,
    )
}

fn outside_bump(ordinal: u8) -> u8 {
    let program = anchor_lang::prelude::Pubkey::new_from_array(program_id().bytes);
    let (_, bump) = anchor_lang::prelude::Pubkey::find_program_address(
        &[b"multisig", &transaction_key().bytes, b"ephemeral_signer", &[ordinal]],
        &program,
    );
    bump
}

#[test]
fn amendment_of_a_thousand_byte_message() {
    let mut ctx = context(1000, vec![255, 255]);
    assert_eq!(ctx.transaction.transaction.message.size(), Some(1000));
    let old_storage_len = ctx.transaction.data_len;
    assert_eq!(old_storage_len, 77 + 2 + 1000);
    let added = instruction_of_size(50, 0xbb);
    assert_eq!(added.size(), Some(50));

    let done = ctx.vault_transaction_multi_upload(args(1, vec![added]));

    assert_eq!(done, Ok(()));
    assert_eq!(ctx.transaction.transaction.message.size(), Some(1050));
    assert_eq!(ctx.transaction.transaction.message.instructions.len(), 2);
    assert_eq!(ctx.transaction.transaction.ephemeral_signer_bumps.len(), 3);
    assert_eq!(ctx.transaction.transaction.ephemeral_signer_bumps, vec![255, 255, 255]);
    assert_eq!(ctx.transaction.transaction.ephemeral_signer_bumps[2], outside_bump(2));
    assert_eq!(ctx.transaction.data_len, old_storage_len + 50 + 150);
    assert_eq!(ctx.transaction.data_len, 1279);
    assert!(ctx.multisig.check_invariant().is_ok());
    assert_eq!(ctx.transaction.transaction.transaction_index, 7);
    assert_eq!(ctx.transaction.transaction.vault_index, 3);
}

#[test]
fn amendment_without_initiate_is_unauthorized() {
    let mut ctx = context(1000, vec![255, 255]);
    ctx.creator = key(11);
    let before = snapshot(&ctx);

    let done = ctx.vault_transaction_multi_upload(args(1, vec![instruction_of_size(50, 0xbb)]));

    assert_eq!(done, Err(MultisigError::Unauthorized));
    assert_eq!(snapshot(&ctx), before);
}

#[test]
fn amendment_by_a_stranger_is_refused() {
    let mut ctx = context(1000, vec![]);
    ctx.creator = key(99);
    let before = snapshot(&ctx);

    let done = ctx.vault_transaction_multi_upload(args(0, vec![]));

    assert_eq!(done, Err(MultisigError::NotAMember));
    assert_eq!(snapshot(&ctx), before);
    assert_eq!(ctx.validate(), Err(MultisigError::NotAMember));
}

#[test]
fn membership_is_checked_before_size() {
    let mut ctx = context(2000, vec![]);
    ctx.creator = key(99);
    assert_eq!(ctx.validate(), Err(MultisigError::NotAMember));
    ctx.creator = key(11);
    assert_eq!(ctx.validate(), Err(MultisigError::Unauthorized));
    ctx.creator = key(12);
    assert_eq!(ctx.validate(), Err(MultisigError::TransactionTooLarge));
}

#[test]
fn message_at_the_ceiling_accepts_nothing() {
    let mut ctx = context(1280, vec![]);
    let before = snapshot(&ctx);

    assert_eq!(ctx.validate(), Err(MultisigError::TransactionTooLarge));
    assert_eq!(ctx.vault_transaction_multi_upload(args(0, vec![])), Err(MultisigError::TransactionTooLarge));
    assert_eq!(
        ctx.vault_transaction_multi_upload(args(2, vec![instruction_of_size(9, 1), instruction_of_size(700, 2)])),
        Err(MultisigError::TransactionTooLarge)
    );
    assert_eq!(snapshot(&ctx), before);
}

#[test]
fn message_above_the_ceiling_accepts_nothing() {
    let mut ctx = context(5000, vec![]);
    assert_eq!(ctx.vault_transaction_multi_upload(args(0, vec![])), Err(MultisigError::TransactionTooLarge));
}

#[test]
fn message_one_byte_under_the_ceiling_is_amended() {
    let mut ctx = context(1279, vec![]);
    assert_eq!(ctx.validate(), Ok(()));
    let done = ctx.vault_transaction_multi_upload(args(0, vec![instruction_of_size(300, 5)]));
    assert_eq!(done, Ok(()));
    // The size is checked before the amendment, not after it.
    assert_eq!(ctx.transaction.transaction.message.size(), Some(1579));
    assert_eq!(ctx.validate(), Err(MultisigError::TransactionTooLarge));
}

#[test]
fn empty_amendment_adds_the_slack_alone() {
    let mut ctx = context(100, vec![255]);
    let before = snapshot(&ctx);

    assert_eq!(ctx.vault_transaction_multi_upload(args(0, vec![])), Ok(()));

    let after = snapshot(&ctx);
    assert_eq!(after.0, before.0);
    assert_eq!(after.1, before.1);
    assert_eq!(after.2, 77 + 1 + 100 + 0 + 150);
}

#[test]
fn instructions_are_appended_in_order() {
    let mut ctx = context(40, vec![]);
    let batch = vec![
        MultisigCompiledInstruction { program_id_index: 1, account_indexes: vec![0, 1], data: vec![9, 8, 7] },
        MultisigCompiledInstruction { program_id_index: 2, account_indexes: vec![], data: vec![] },
        MultisigCompiledInstruction { program_id_index: 1, account_indexes: vec![0, 1], data: vec![9, 8, 7] },
    ];
    let before = snapshot(&ctx);

    assert_eq!(ctx.vault_transaction_multi_upload(args(0, batch)), Ok(()));

    let after = snapshot(&ctx);
    assert_eq!(after.0.len(), 4);
    assert_eq!(after.0[0], before.0[0]);
    assert_eq!(after.0[1], (1, vec![0, 1], vec![9, 8, 7]));
    assert_eq!(after.0[2], (2, vec![], vec![]));
    assert_eq!(after.0[3], (1, vec![0, 1], vec![9, 8, 7]));
    // 40 stored, then 14 + 9 + 14 added.
    assert_eq!(ctx.transaction.transaction.message.size(), Some(77));
    assert_eq!(after.2, (77 + 40) + 37 + 150);
}

#[test]
fn ordinals_follow_the_stored_bumps() {
    let mut ctx = context(200, vec![255, 255, 255]);

    assert_eq!(ctx.vault_transaction_multi_upload(args(2, vec![instruction_of_size(20, 1)])), Ok(()));

    assert_eq!(ctx.transaction.transaction.ephemeral_signer_bumps, vec![255, 255, 255, 253, 253]);
    assert_eq!(ctx.transaction.transaction.ephemeral_signer_bumps[3], outside_bump(3));
    assert_eq!(ctx.transaction.transaction.ephemeral_signer_bumps[4], outside_bump(4));
}

#[test]
fn second_amendment_continues_the_first() {
    let mut ctx = context(200, vec![]);
    assert_eq!(ctx.vault_transaction_multi_upload(args(3, vec![instruction_of_size(20, 1)])), Ok(()));
    assert_eq!(ctx.transaction.data_len, (77 + 200) + 20 + 150);
    assert_eq!(ctx.vault_transaction_multi_upload(args(2, vec![instruction_of_size(30, 2)])), Ok(()));

    assert_eq!(ctx.transaction.transaction.ephemeral_signer_bumps, vec![255, 255, 255, 253, 253]);
    assert_eq!(ctx.transaction.transaction.message.instructions.len(), 3);
    assert_eq!(ctx.transaction.transaction.message.size(), Some(250));
    assert_eq!(ctx.transaction.data_len, (77 + 3 + 220) + 30 + 150);
}

#[test]
fn stored_bumps_are_derived_again() {
    let mut ctx = context(200, vec![]);
    assert_eq!(ctx.vault_transaction_multi_upload(args(5, vec![])), Ok(()));
    let stored = ctx.transaction.transaction.ephemeral_signer_bumps.clone();
    assert_eq!(stored.len(), 5);
    for (ordinal, bump) in stored.iter().enumerate() {
        let first = derive_ephemeral_signer(&ctx.program_id, &ctx.transaction.key, ordinal).unwrap();
        let second = derive_ephemeral_signer(&ctx.program_id, &ctx.transaction.key, ordinal).unwrap();
        assert_eq!(first.1, *bump);
        assert_eq!(second.1, *bump);
        assert_eq!(first.0.bytes, second.0.bytes);
    }
}

#[test]
fn derived_signer_is_the_program_address() {
    let (address, bump) = derive_ephemeral_signer(&program_id(), &transaction_key(), 3).unwrap();
    assert_eq!(bump, 253);
    assert_eq!(
        address.bytes,
        [
            151, 174, 246, 99, 118, 229, 221, 136, 3, 168, 60, 48, 27, 33, 57, 17, 215, 123, 114, 66, 54, 28, 226,
            49, 120, 82, 128, 135, 139, 176, 133, 110
        ]
    );
    let program = anchor_lang::prelude::Pubkey::new_from_array(program_id().bytes);
    let (outside_address, outside_bump) = anchor_lang::prelude::Pubkey::find_program_address(
        &[b"multisig", &transaction_key().bytes, b"ephemeral_signer", &[3u8]],
        &program,
    );
    assert_eq!(address.bytes, outside_address.to_bytes());
    assert_eq!(bump, outside_bump);
    assert_ne!(address.bytes, program_id().bytes);
    assert_ne!(address.bytes, transaction_key().bytes);
}

#[test]
fn derived_signer_depends_on_program_key_and_ordinal() {
    let (a0, b0) = derive_ephemeral_signer(&key(7), &key(1), 0).unwrap();
    let (a1, b1) = derive_ephemeral_signer(&key(7), &key(1), 1).unwrap();
    let (a255, b255) = derive_ephemeral_signer(&key(7), &key(1), 255).unwrap();
    assert_eq!((b0, b1, b255), (254, 254, 255));
    assert_eq!(a0.bytes[..4], [66, 240, 94, 198]);
    assert_eq!(a1.bytes[..4], [118, 54, 222, 125]);
    assert_eq!(a255.bytes[..4], [255, 249, 238, 164]);
    let (other_program, _) = derive_ephemeral_signer(&program_id(), &key(1), 0).unwrap();
    assert_ne!(other_program.bytes, a0.bytes);
}

#[test]
fn ordinal_beyond_a_byte_has_no_signer() {
    assert!(derive_ephemeral_signer(&program_id(), &transaction_key(), 255).is_some());
    assert!(derive_ephemeral_signer(&program_id(), &transaction_key(), 256).is_none());
    assert!(derive_ephemeral_signer(&program_id(), &transaction_key(), usize::MAX).is_none());
}

#[test]
fn amendment_that_needs_ordinal_256_is_refused() {
    let mut ctx = context(200, vec![1; 255]);
    let before = snapshot(&ctx);

    let done = ctx.vault_transaction_multi_upload(args(2, vec![instruction_of_size(20, 1)]));

    assert_eq!(done, Err(MultisigError::EphemeralSignerUnavailable));
    assert_eq!(snapshot(&ctx), before);

    assert_eq!(ctx.vault_transaction_multi_upload(args(1, vec![instruction_of_size(20, 1)])), Ok(()));
    assert_eq!(ctx.transaction.transaction.ephemeral_signer_bumps.len(), 256);
    assert_eq!(ctx.transaction.transaction.ephemeral_signer_bumps[255], 255);
    assert_eq!(ctx.vault_transaction_multi_upload(args(0, vec![])), Ok(()));
    assert_eq!(
        ctx.vault_transaction_multi_upload(args(1, vec![])),
        Err(MultisigError::EphemeralSignerUnavailable)
    );
}

#[test]
fn payer_that_cannot_fund_the_growth_is_refused() {
    let mut ctx = context(1000, vec![255, 255]);
    ctx.rent_payer.fundable_len = 1278;
    let before = snapshot(&ctx);

    let done = ctx.vault_transaction_multi_upload(args(1, vec![instruction_of_size(50, 0xbb)]));

    assert_eq!(done, Err(MultisigError::InsufficientFunds));
    assert_eq!(snapshot(&ctx), before);

    ctx.rent_payer.fundable_len = 1279;
    assert_eq!(ctx.vault_transaction_multi_upload(args(1, vec![instruction_of_size(50, 0xbb)])), Ok(()));
    assert_eq!(ctx.transaction.data_len, 1279);
    assert_eq!(ctx.rent_payer.fundable_len, 1279);
}

#[test]
fn storage_that_does_not_grow_needs_no_funds() {
    let mut ctx = context(100, vec![]);
    ctx.transaction.data_len = 4000;
    ctx.rent_payer.fundable_len = 0;

    assert_eq!(ctx.vault_transaction_multi_upload(args(0, vec![instruction_of_size(10, 1)])), Ok(()));
    assert_eq!(ctx.transaction.data_len, (77 + 100) + 10 + 150);
}

#[test]
fn payer_need_not_be_creator_or_member() {
    let mut ctx = context(100, vec![]);
    ctx.rent_payer.key = key(200);
    assert_eq!(ctx.vault_transaction_multi_upload(args(0, vec![])), Ok(()));
    let mut ctx = context(100, vec![]);
    ctx.creator = key(12);
    ctx.rent_payer.key = key(12);
    assert_eq!(ctx.vault_transaction_multi_upload(args(0, vec![])), Ok(()));
    assert_eq!(ctx.transaction.transaction.creator.bytes, key(10).bytes);
}

#[test]
fn funding_is_checked_after_authorization() {
    let mut ctx = context(1280, vec![]);
    ctx.rent_payer.fundable_len = 0;
    assert_eq!(ctx.vault_transaction_multi_upload(args(0, vec![])), Err(MultisigError::TransactionTooLarge));
    ctx.creator = key(99);
    assert_eq!(ctx.vault_transaction_multi_upload(args(0, vec![])), Err(MultisigError::NotAMember));
}

#[test]
fn derivation_is_checked_after_funding() {
    let mut ctx = context(200, vec![0; 256]);
    ctx.rent_payer.fundable_len = 0;
    assert_eq!(ctx.vault_transaction_multi_upload(args(1, vec![])), Err(MultisigError::InsufficientFunds));
    ctx.rent_payer.fundable_len = usize::MAX;
    assert_eq!(
        ctx.vault_transaction_multi_upload(args(1, vec![])),
        Err(MultisigError::EphemeralSignerUnavailable)
    );
}

#[test]
fn inconsistent_multisig_changes_nothing() {
    let mut ctx = context(1000, vec![255, 255]);
    ctx.multisig.members.push(member(11, INITIATE));
    let before = snapshot(&ctx);

    let done = ctx.vault_transaction_multi_upload(args(1, vec![instruction_of_size(50, 0xbb)]));

    assert_eq!(done, Err(MultisigError::InvariantViolation));
    assert_eq!(snapshot(&ctx), before);
    assert_eq!(ctx.multisig.members.len(), 4);
}

#[test]
fn consistency_is_checked_last() {
    let mut ctx = context(200, vec![0; 256]);
    ctx.multisig.members.push(member(10, VOTE));
    assert_eq!(ctx.multisig.check_invariant(), Err(MultisigError::InvariantViolation));
    assert_eq!(
        ctx.vault_transaction_multi_upload(args(1, vec![])),
        Err(MultisigError::EphemeralSignerUnavailable)
    );
    assert_eq!(ctx.vault_transaction_multi_upload(args(0, vec![])), Err(MultisigError::InvariantViolation));
}

#[test]
fn default_policy_is_1280_and_150() {
    let policy = UploadPolicy::default();
    assert_eq!(policy.max_message_size, 1280);
    assert_eq!(policy.realloc_slack, 150);
}

#[test]
fn policy_can_be_set() {
    let mut ctx = context(100, vec![]);
    ctx.policy = UploadPolicy { max_message_size: 100, realloc_slack: 10 };
    assert_eq!(ctx.validate(), Err(MultisigError::TransactionTooLarge));
    ctx.policy.max_message_size = 101;
    assert_eq!(ctx.validate(), Ok(()));
    assert_eq!(ctx.vault_transaction_multi_upload(args(0, vec![instruction_of_size(12, 1)])), Ok(()));
    assert_eq!(ctx.transaction.data_len, (77 + 100) + 12 + 10);
}

#[test]
fn storage_depends_on_the_size_of_the_batch_alone() {
    let mut first = context(300, vec![]);
    let mut second = context(300, vec![]);
    let one = vec![instruction_of_size(60, 1)];
    let other = vec![
        MultisigCompiledInstruction { program_id_index: 9, account_indexes: vec![3; 11], data: vec![] },
        MultisigCompiledInstruction { program_id_index: 0, account_indexes: vec![1, 2], data: vec![0xff; 20] },
        instruction_of_size(9, 0),
    ];
    assert_eq!(first.vault_transaction_multi_upload(args(0, one)), Ok(()));
    assert_eq!(second.vault_transaction_multi_upload(args(0, other)), Ok(()));
    assert_eq!(first.transaction.data_len, (77 + 300) + 60 + 150);
    assert_eq!(second.transaction.data_len, first.transaction.data_len);
}

#[test]
fn realloc_size_is_contents_plus_batch_plus_slack() {
    let ctx = context(1000, vec![1, 2, 3]);
    let batch = vec![instruction_of_size(50, 1), instruction_of_size(25, 2)];
    assert_eq!(realloc_size(&ctx.transaction.transaction, &batch, 150), Some(1080 + 75 + 150));
    assert_eq!(realloc_size(&ctx.transaction.transaction, &vec![], 0), Some(1080));
    assert_eq!(realloc_size(&ctx.transaction.transaction, &batch, usize::MAX), None);
    assert_eq!(realloc_size(&ctx.transaction.transaction, &batch, usize::MAX - 1155), Some(usize::MAX));
    assert_eq!(realloc_size(&ctx.transaction.transaction, &batch, usize::MAX - 1154), None);
}

#[test]
fn append_keeps_what_is_stored() {
    let mut transaction = context(30, vec![4, 5]).transaction.transaction;
    append(&mut transaction, vec![instruction_of_size(10, 6), instruction_of_size(11, 7)], vec![8, 9, 10]);
    assert_eq!(transaction.ephemeral_signer_bumps, vec![4, 5, 8, 9, 10]);
    let sizes: Vec<Option<usize>> = transaction.message.instructions.iter().map(|ix| ix.size()).collect();
    assert_eq!(sizes, vec![Some(26), Some(10), Some(11)]);
    let marks: Vec<u8> = transaction.message.instructions.iter().map(|ix| ix.program_id_index).collect();
    assert_eq!(marks, vec![0xaa, 6, 7]);
    assert_eq!(transaction.transaction_index, 7);
    assert_eq!(transaction.vault_index, 3);
    assert_eq!(transaction.multisig.bytes, key(50).bytes);
    assert_eq!(transaction.creator.bytes, key(10).bytes);
}

#[test]
fn arguments_other_than_batch_and_signers_change_nothing() {
    let mut ctx = context(100, vec![]);
    let request = VaultTransactionMultiUploadArgs {
        vault_index: 200,
        transaction_index: 7,
        ephemeral_signers: 0,
        additional_instructions: vec![],
        memo: Some(String::from("second part")),
    };
    assert_eq!(ctx.vault_transaction_multi_upload(request), Ok(()));
    assert_eq!(ctx.transaction.transaction.vault_index, 3);
    assert_eq!(ctx.transaction.transaction.transaction_index, 7);
    assert_eq!(ctx.multisig.transaction_index, 9);
}
