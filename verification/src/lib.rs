//! Verified core of the multi-upload amendment of a multisig vault
//! transaction.
//!
//! A vault transaction that is already stored is amended: further
//! instructions are appended to its message, the bumps of the ephemeral
//! signers that they need are derived and appended, and its storage is
//! resized, all or nothing. The amendment is
//! [`VaultTransactionMultiUpload::vault_transaction_multi_upload`]; its
//! contract is stated over the mathematical values of the state and the
//! request, [`VaultTransactionMultiUploadView`] and
//! [`VaultTransactionMultiUploadArgsView`].
//!
//! - [`pubkey`]: 32-byte identities.
//! - [`errors`]: the ways in which an amendment is refused.
//! - [`multisig`]: members, permissions and the consistency predicate.
//! - [`vault_transaction`]: the stored transaction and the bytes it takes.
//! - [`ephemeral_signers`]: derivation of ephemeral signers.
//! - [`vault_transaction_multi_upload`]: the amendment and what holds of it.

pub mod ephemeral_signers;
pub mod errors;
pub mod multisig;
pub mod pubkey;
pub mod vault_transaction;
pub mod vault_transaction_multi_upload;

pub use errors::MultisigError;
pub use multisig::{Member, MemberView, Multisig, MultisigView, Permission, Permissions};
pub use pubkey::Pubkey;
pub use vault_transaction::{
    MultisigCompiledInstruction, MultisigCompiledInstructionView, VaultTransaction, VaultTransactionAccount,
    VaultTransactionAccountView, VaultTransactionMessage, VaultTransactionMessageView, VaultTransactionView,
};
pub use vault_transaction_multi_upload::{
    RentPayer, RentPayerView, UploadPolicy, VaultTransactionMultiUpload, VaultTransactionMultiUploadArgs,
    VaultTransactionMultiUploadArgsView, VaultTransactionMultiUploadView,
};
