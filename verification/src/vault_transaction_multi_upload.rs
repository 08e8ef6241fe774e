//! The multi-upload amendment: instructions and ephemeral signers are added
//! to a vault transaction that is already stored, so that a transaction too
//! large for one submission can still be assembled and later executed as
//! one.

use vstd::prelude::*;
use crate::ephemeral_signers::{
    derive_ephemeral_signer_bumps, ephemeral_signer, ephemeral_signer_bumps, ephemeral_signers_available,
};
use crate::errors::MultisigError;
use crate::multisig::{Multisig, MultisigView, Permission};
use crate::pubkey::Pubkey;
use crate::vault_transaction::{
    instructions_size, instructions_size_of, instructions_view, lemma_instructions_size_concat,
    MultisigCompiledInstruction, MultisigCompiledInstructionView, VaultTransaction, VaultTransactionAccount,
    VaultTransactionAccountView, VaultTransactionMessageView, VaultTransactionView,
};

verus! {

/// The ceiling on the size of a stored message that is in force by default.
pub const DEFAULT_MAX_MESSAGE_SIZE: usize = 1280;

/// The slack added to the storage of an amended transaction by default.
pub const DEFAULT_REALLOC_SLACK: usize = 150;

/// The two limits of the amendment, which a deployment may set.
#[derive(Clone, Copy, Debug, PartialEq, Eq, Structural)]
pub struct UploadPolicy {
    /// A transaction whose stored message takes this many bytes or more
    /// accepts no further instructions.
    pub max_message_size: usize,
    /// Bytes added to the storage of an amended transaction beyond what its
    /// contents and the new instructions take, for the framing of its lists.
    pub realloc_slack: usize,
}

impl Default for UploadPolicy {
    fn default() -> (policy: UploadPolicy)
        ensures
            policy.max_message_size == DEFAULT_MAX_MESSAGE_SIZE,
            policy.realloc_slack == DEFAULT_REALLOC_SLACK,
    {
        UploadPolicy { max_message_size: DEFAULT_MAX_MESSAGE_SIZE, realloc_slack: DEFAULT_REALLOC_SLACK }
    }
}

/// The identity that bears the cost of the storage. It need be neither the
/// creator of the transaction nor the member that amends it.
#[derive(Clone, Copy, Debug)]
pub struct RentPayer {
    pub key: Pubkey,
    /// The largest storage, in bytes, that this payer can fund for the
    /// transaction.
    pub fundable_len: usize,
}

/// A rent payer as a mathematical value.
pub struct RentPayerView {
    pub key: Seq<u8>,
    pub fundable_len: nat,
}

impl View for RentPayer {
    type V = RentPayerView;

    open spec fn view(&self) -> RentPayerView {
        RentPayerView { key: self.key@, fundable_len: self.fundable_len as nat }
    }
}

/// What the caller asks for.
#[derive(Clone, Debug)]
pub struct VaultTransactionMultiUploadArgs {
    /// Index of the vault this transaction belongs to.
    pub vault_index: u8,
    /// The index of the transaction to be appended to.
    pub transaction_index: u64,
    /// Number of further ephemeral signers that the added instructions need.
    pub ephemeral_signers: u8,
    /// Instructions to be appended to the transaction.
    pub additional_instructions: Vec<MultisigCompiledInstruction>,
    /// A note for those who read the submission; it is not stored.
    pub memo: Option<String>,
}

/// The request as a mathematical value.
pub struct VaultTransactionMultiUploadArgsView {
    pub vault_index: u8,
    pub transaction_index: u64,
    pub ephemeral_signers: u8,
    pub additional_instructions: Seq<MultisigCompiledInstructionView>,
    pub memo: Option<Seq<char>>,
}

impl View for VaultTransactionMultiUploadArgs {
    type V = VaultTransactionMultiUploadArgsView;

    open spec fn view(&self) -> VaultTransactionMultiUploadArgsView {
        VaultTransactionMultiUploadArgsView {
            vault_index: self.vault_index,
            transaction_index: self.transaction_index,
            ephemeral_signers: self.ephemeral_signers,
            additional_instructions: instructions_view(self.additional_instructions@),
            memo: match self.memo {
                Some(memo) => Some(memo@),
                None => None,
            },
        }
    }
}

/// Everything that the amendment reads and writes.
#[derive(Clone, Debug)]
pub struct VaultTransactionMultiUpload {
    /// The program under which ephemeral signers are derived.
    pub program_id: Pubkey,
    /// The multisig that owns the transaction.
    pub multisig: Multisig,
    /// The stored transaction that is amended.
    pub transaction: VaultTransactionAccount,
    /// The member of the multisig that is adding to the transaction.
    pub creator: Pubkey,
    /// The payer for the storage of the transaction.
    pub rent_payer: RentPayer,
    /// The limits in force.
    pub policy: UploadPolicy,
}

/// The state of an amendment as a mathematical value.
pub struct VaultTransactionMultiUploadView {
    pub program_id: Seq<u8>,
    pub multisig: MultisigView,
    pub transaction: VaultTransactionAccountView,
    pub creator: Seq<u8>,
    pub rent_payer: RentPayerView,
    pub policy: UploadPolicy,
}

impl View for VaultTransactionMultiUpload {
    type V = VaultTransactionMultiUploadView;

    open spec fn view(&self) -> VaultTransactionMultiUploadView {
        VaultTransactionMultiUploadView {
            program_id: self.program_id@,
            multisig: self.multisig@,
            transaction: self.transaction@,
            creator: self.creator@,
            rent_payer: self.rent_payer@,
            policy: self.policy,
        }
    }
}

impl VaultTransactionView {
    /// The storage that the transaction needs once `additional_instructions`
    /// are added to it: what it takes now, what the new instructions take,
    /// and the slack.
    pub open spec fn realloc_size(
        self,
        additional_instructions: Seq<MultisigCompiledInstructionView>,
        slack: nat,
    ) -> nat {
        self.size() + instructions_size(additional_instructions) + slack
    }

    /// The transaction with the instructions and the bumps appended, each
    /// after what is already there, and nothing else changed.
    pub open spec fn appended(
        self,
        additional_instructions: Seq<MultisigCompiledInstructionView>,
        bumps: Seq<u8>,
    ) -> VaultTransactionView {
        VaultTransactionView {
            ephemeral_signer_bumps: self.ephemeral_signer_bumps + bumps,
            message: VaultTransactionMessageView { instructions: self.message.instructions + additional_instructions },
            ..self
        }
    }
}

impl VaultTransactionMultiUploadView {
    /// What the checks made before anything is written say: the first that
    /// fails decides.
    pub open spec fn validation(self) -> Result<(), MultisigError> {
        if !self.multisig.has_member(self.creator) {
            Err(MultisigError::NotAMember)
        } else if !self.multisig.member_has_permission(self.creator, Permission::Initiate) {
            Err(MultisigError::Unauthorized)
        } else if self.transaction.transaction.message.size() >= self.policy.max_message_size {
            Err(MultisigError::TransactionTooLarge)
        } else {
            Ok(())
        }
    }

    /// The storage that the amended transaction is given.
    pub open spec fn new_data_len(self, args: VaultTransactionMultiUploadArgsView) -> nat {
        self.transaction.transaction.realloc_size(args.additional_instructions, self.policy.realloc_slack as nat)
    }

    /// Whether the rent payer can fund the storage that the amended
    /// transaction is given. Storage that does not grow costs nothing.
    pub open spec fn funded(self, args: VaultTransactionMultiUploadArgsView) -> bool {
        self.new_data_len(args) <= self.transaction.data_len || self.new_data_len(args)
            <= self.rent_payer.fundable_len
    }

    /// The ordinal of the first ephemeral signer that an amendment adds: the
    /// ordinals follow those of the signers whose bumps are stored.
    pub open spec fn first_new_ordinal(self) -> int {
        self.transaction.transaction.ephemeral_signer_bumps.len() as int
    }

    /// Whether every ephemeral signer that the amendment asks for can be
    /// derived.
    pub open spec fn signers_available(self, args: VaultTransactionMultiUploadArgsView) -> bool {
        ephemeral_signers_available(
            self.program_id,
            self.transaction.key,
            self.first_new_ordinal(),
            args.ephemeral_signers as int,
        )
    }

    /// The bumps that the amendment adds: those of the new ephemeral
    /// signers, in the order of their ordinals.
    pub open spec fn new_bumps(self, args: VaultTransactionMultiUploadArgsView) -> Seq<u8> {
        ephemeral_signer_bumps(
            self.program_id,
            self.transaction.key,
            self.first_new_ordinal(),
            args.ephemeral_signers as int,
        )
    }

    /// How the amendment ends: the first check that fails decides, in the
    /// order authorization, size, funding, derivation, consistency.
    pub open spec fn outcome(self, args: VaultTransactionMultiUploadArgsView) -> Result<(), MultisigError> {
        if self.validation() is Err {
            self.validation()
        } else if !self.funded(args) {
            Err(MultisigError::InsufficientFunds)
        } else if !self.signers_available(args) {
            Err(MultisigError::EphemeralSignerUnavailable)
        } else if !self.multisig.invariant_holds() {
            Err(MultisigError::InvariantViolation)
        } else {
            Ok(())
        }
    }

    /// What a successful amendment makes of the state: the instructions and
    /// the new bumps are appended to the transaction, its storage is
    /// resized, and nothing else is changed.
    pub open spec fn amended(self, args: VaultTransactionMultiUploadArgsView) -> VaultTransactionMultiUploadView {
        VaultTransactionMultiUploadView {
            transaction: VaultTransactionAccountView {
                data_len: self.new_data_len(args),
                transaction: self.transaction.transaction.appended(
                    args.additional_instructions,
                    self.new_bumps(args),
                ),
                ..self.transaction
            },
            ..self
        }
    }
}

/// The storage that a transaction needs once `additional_instructions` are
/// added to it, or `None` where that number does not fit a `usize`.
pub fn realloc_size(
    transaction: &VaultTransaction,
    additional_instructions: &Vec<MultisigCompiledInstruction>,
    slack: usize,
) -> (size: Option<usize>)
    ensures
        match size {
            Some(n) => n == transaction@.realloc_size(instructions_view(additional_instructions@), slack as nat),
            None => transaction@.realloc_size(instructions_view(additional_instructions@), slack as nat)
                > usize::MAX,
        },
{
    let stored = match transaction.size() {
        Some(stored) => stored,
        None => {
            return None;
        },
    };
    let added = match instructions_size_of(additional_instructions) {
        Some(added) => added,
        None => {
            return None;
        },
    };
    match stored.checked_add(added) {
        Some(contents) => contents.checked_add(slack),
        None => None,
    }
}

/// Appends the instructions and the bumps to the transaction, each after
/// what is already there. Nothing that is stored is changed, moved or
/// removed.
pub fn append(
    transaction: &mut VaultTransaction,
    additional_instructions: Vec<MultisigCompiledInstruction>,
    ephemeral_signer_bumps: Vec<u8>,
)
    ensures
        final(transaction)@ == old(transaction)@.appended(
            instructions_view(additional_instructions@),
            ephemeral_signer_bumps@,
        ),
{
    let mut instructions = additional_instructions;
    let mut bumps = ephemeral_signer_bumps;
    transaction.message.instructions.append(&mut instructions);
    transaction.ephemeral_signer_bumps.append(&mut bumps);
    assert(transaction@.message.instructions =~= old(transaction)@.message.instructions + instructions_view(
        additional_instructions@,
    ));
}

impl VaultTransactionMultiUpload {
    /// Decides whether the amendment may proceed, before anything is
    /// written: the creator must be a member, must hold the permission to
    /// initiate, and the stored message must be under the ceiling.
    pub fn validate(&self) -> (checked: Result<(), MultisigError>)
        ensures
            checked == self@.validation(),
    {
        if self.multisig.is_member(self.creator).is_none() {
            return Err(MultisigError::NotAMember);
        }
        if !self.multisig.member_has_permission(self.creator, Permission::Initiate) {
            return Err(MultisigError::Unauthorized);
        }
        let under_ceiling = match self.transaction.transaction.message.size() {
            Some(size) => size < self.policy.max_message_size,
            None => false,
        };
        if !under_ceiling {
            return Err(MultisigError::TransactionTooLarge);
        }
        Ok(())
    }

    /// Amends the stored transaction: appends `args.additional_instructions`
    /// to its message, derives `args.ephemeral_signers` further ephemeral
    /// signers and appends their bumps, and resizes its storage. Either all
    /// of this happens, or nothing is changed and the error says why.
    ///
    /// The multisig is read and never written, so its consistency predicate
    /// says of the state after the amendment what it says before: it is
    /// evaluated before the transaction is written, and nothing is written
    /// unless it holds.
    pub fn vault_transaction_multi_upload(&mut self, args: VaultTransactionMultiUploadArgs) -> (done: Result<
        (),
        MultisigError,
    >)
        ensures
            done == old(self)@.outcome(args@),
            done is Ok ==> final(self)@ == old(self)@.amended(args@),
            done is Err ==> *final(self) == *old(self),
    {
        match self.validate() {
            Ok(()) => {},
            Err(refused) => {
                return Err(refused);
            },
        }
        let needed = realloc_size(
            &self.transaction.transaction,
            &args.additional_instructions,
            self.policy.realloc_slack,
        );
        let new_data_len = match needed {
            Some(size) => size,
            None => {
                return Err(MultisigError::InsufficientFunds);
            },
        };
        if new_data_len > self.transaction.data_len && new_data_len > self.rent_payer.fundable_len {
            return Err(MultisigError::InsufficientFunds);
        }
        let bumps = match derive_ephemeral_signer_bumps(
            &self.program_id,
            &self.transaction.key,
            self.transaction.transaction.ephemeral_signer_bumps.len(),
            args.ephemeral_signers,
        ) {
            Some(bumps) => bumps,
            None => {
                return Err(MultisigError::EphemeralSignerUnavailable);
            },
        };
        match self.multisig.check_invariant() {
            Ok(()) => {},
            Err(_) => {
                return Err(MultisigError::InvariantViolation);
            },
        }
        self.transaction.data_len = new_data_len;
        append(&mut self.transaction.transaction, args.additional_instructions, bumps);
        Ok(())
    }
}

/// Whether every stored bump of the transaction is the bump of the
/// ephemeral signer with its ordinal: whoever derives the signer again from
/// the address of the transaction and the ordinal gets the stored bump.
pub open spec fn bumps_rederivable(program_id: Seq<u8>, account: VaultTransactionAccountView) -> bool {
    forall|ordinal: int|
        0 <= ordinal < account.transaction.ephemeral_signer_bumps.len() ==> {
            &&& (#[trigger] ephemeral_signer(program_id, account.key, ordinal)) is Some
            &&& ephemeral_signer(program_id, account.key, ordinal).unwrap().1
                == account.transaction.ephemeral_signer_bumps[ordinal]
        }
}

/// A creator that is not among the members is refused as no member,
/// whatever else holds. A member without the permission to initiate is
/// refused as unauthorized. For a member with that permission the size of
/// the stored message decides next.
pub proof fn lemma_authorization_gate(
    state: VaultTransactionMultiUploadView,
    args: VaultTransactionMultiUploadArgsView,
)
    ensures
        !state.multisig.has_member(state.creator) ==> state.outcome(args) == Err::<(), MultisigError>(
            MultisigError::NotAMember,
        ),
        state.multisig.has_member(state.creator) && !state.multisig.member_has_permission(
            state.creator,
            Permission::Initiate,
        ) ==> state.outcome(args) == Err::<(), MultisigError>(MultisigError::Unauthorized),
        state.multisig.member_has_permission(state.creator, Permission::Initiate) ==> {
            &&& state.outcome(args) != Err::<(), MultisigError>(MultisigError::NotAMember)
            &&& state.outcome(args) != Err::<(), MultisigError>(MultisigError::Unauthorized)
            &&& state.outcome(args) == Err::<(), MultisigError>(MultisigError::TransactionTooLarge)
                <==> state.transaction.transaction.message.size() >= state.policy.max_message_size
        },
{
    state.multisig.lemma_member_index(state.creator);
}

/// A transaction whose stored message has reached the ceiling accepts no
/// amendment, whatever the amendment holds, an empty one too; and where the
/// creator is a member that may initiate, the refusal names the size.
pub proof fn lemma_size_gate(state: VaultTransactionMultiUploadView, args: VaultTransactionMultiUploadArgsView)
    requires
        state.transaction.transaction.message.size() >= state.policy.max_message_size,
    ensures
        state.outcome(args) is Err,
        state.multisig.member_has_permission(state.creator, Permission::Initiate) ==> state.outcome(args)
            == Err::<(), MultisigError>(MultisigError::TransactionTooLarge),
{
    state.multisig.lemma_member_index(state.creator);
}

/// An amendment only appends. Every instruction and every bump that was
/// stored is still there, at its place; the new instructions follow in the
/// order in which they were given, and the new bumps are those of the
/// ephemeral signers whose ordinals follow the stored ones. The identity of
/// the transaction, its index, its vault and its creator stay as they were.
pub proof fn lemma_append_only(state: VaultTransactionMultiUploadView, args: VaultTransactionMultiUploadArgsView)
    requires
        state.outcome(args) is Ok,
    ensures
        ({
            let before = state.transaction.transaction;
            let after = state.amended(args).transaction.transaction;
            &&& after.message.instructions == before.message.instructions + args.additional_instructions
            &&& after.message.instructions.len() == before.message.instructions.len()
                + args.additional_instructions.len()
            &&& forall|i: int|
                0 <= i < before.message.instructions.len() ==> after.message.instructions[i]
                    == before.message.instructions[i]
            &&& forall|i: int|
                0 <= i < args.additional_instructions.len() ==> after.message.instructions[before.message.instructions.len()
                    + i] == args.additional_instructions[i]
            &&& after.ephemeral_signer_bumps == before.ephemeral_signer_bumps + state.new_bumps(args)
            &&& after.ephemeral_signer_bumps.len() == before.ephemeral_signer_bumps.len()
                + args.ephemeral_signers
            &&& forall|i: int|
                0 <= i < before.ephemeral_signer_bumps.len() ==> after.ephemeral_signer_bumps[i]
                    == before.ephemeral_signer_bumps[i]
            &&& forall|ordinal: int|
                before.ephemeral_signer_bumps.len() <= ordinal < after.ephemeral_signer_bumps.len() ==> {
                    &&& (#[trigger] ephemeral_signer(state.program_id, state.transaction.key, ordinal)) is Some
                    &&& ephemeral_signer(state.program_id, state.transaction.key, ordinal).unwrap().1
                        == after.ephemeral_signer_bumps[ordinal]
                }
            &&& after.transaction_index == before.transaction_index
            &&& after.vault_index == before.vault_index
            &&& after.creator == before.creator
            &&& after.multisig == before.multisig
            &&& state.amended(args).transaction.key == state.transaction.key
        }),
{
    let before = state.transaction.transaction;
    let after = state.amended(args).transaction.transaction;
    let stored = before.ephemeral_signer_bumps.len() as int;
    assert forall|ordinal: int| stored <= ordinal < after.ephemeral_signer_bumps.len() implies {
        &&& (#[trigger] ephemeral_signer(state.program_id, state.transaction.key, ordinal)) is Some
        &&& ephemeral_signer(state.program_id, state.transaction.key, ordinal).unwrap().1
            == after.ephemeral_signer_bumps[ordinal]
    } by {
        assert(after.ephemeral_signer_bumps[ordinal] == state.new_bumps(args)[ordinal - stored]);
    }
}

/// Deriving an ephemeral signer again gives the bump that is stored at its
/// ordinal: where that holds of a transaction before a successful
/// amendment, it holds of it afterwards, of the old bumps and of the new.
pub proof fn lemma_bumps_rederivable(
    state: VaultTransactionMultiUploadView,
    args: VaultTransactionMultiUploadArgsView,
)
    requires
        state.outcome(args) is Ok,
        bumps_rederivable(state.program_id, state.transaction),
    ensures
        bumps_rederivable(state.amended(args).program_id, state.amended(args).transaction),
{
    lemma_append_only(state, args);
    let after = state.amended(args);
    assert forall|ordinal: int| 0 <= ordinal < after.transaction.transaction.ephemeral_signer_bumps.len() implies {
        &&& (#[trigger] ephemeral_signer(after.program_id, after.transaction.key, ordinal)) is Some
        &&& ephemeral_signer(after.program_id, after.transaction.key, ordinal).unwrap().1
            == after.transaction.transaction.ephemeral_signer_bumps[ordinal]
    } by {
        if ordinal < state.transaction.transaction.ephemeral_signer_bumps.len() {
            assert(ephemeral_signer(state.program_id, state.transaction.key, ordinal) is Some);
        }
    }
}

/// A multisig that fails its consistency predicate admits no amendment:
/// the amendment is refused, and a refused amendment changes nothing.
pub proof fn lemma_inconsistent_multisig_refuses(
    state: VaultTransactionMultiUploadView,
    args: VaultTransactionMultiUploadArgsView,
)
    requires
        !state.multisig.invariant_holds(),
    ensures
        state.outcome(args) is Err,
        state.validation() is Ok && state.funded(args) && state.signers_available(args) ==> state.outcome(args)
            == Err::<(), MultisigError>(MultisigError::InvariantViolation),
{
}

/// After a successful amendment the storage of the transaction is what the
/// transaction took before, what the new instructions take, and the slack.
/// It depends on the new instructions through their size alone; the stored
/// message has grown by that size, and the transaction by that size and one
/// byte for each new bump.
pub proof fn lemma_storage_sizing(state: VaultTransactionMultiUploadView, args: VaultTransactionMultiUploadArgsView)
    requires
        state.outcome(args) is Ok,
    ensures
        ({
            let before = state.transaction.transaction;
            let after = state.amended(args).transaction;
            &&& after.data_len == before.size() + instructions_size(args.additional_instructions)
                + state.policy.realloc_slack
            &&& state.policy == (UploadPolicy {
                max_message_size: DEFAULT_MAX_MESSAGE_SIZE,
                realloc_slack: DEFAULT_REALLOC_SLACK,
            }) ==> after.data_len == before.size() + instructions_size(args.additional_instructions) + 150
            &&& after.transaction.message.size() == before.message.size() + instructions_size(
                args.additional_instructions,
            )
            &&& after.transaction.size() == before.size() + instructions_size(args.additional_instructions)
                + args.ephemeral_signers
        }),
{
    lemma_instructions_size_concat(
        state.transaction.transaction.message.instructions,
        args.additional_instructions,
    );
}

/// Two amendments of one state whose instructions take the same number of
/// bytes give the transaction the same storage, whatever the instructions
/// hold.
pub proof fn lemma_storage_depends_on_size_alone(
    state: VaultTransactionMultiUploadView,
    first: VaultTransactionMultiUploadArgsView,
    second: VaultTransactionMultiUploadArgsView,
)
    requires
        instructions_size(first.additional_instructions) == instructions_size(second.additional_instructions),
    ensures
        state.amended(first).transaction.data_len == state.amended(second).transaction.data_len,
{
}

} // verus!
