//! The stored vault transaction, its message and how many bytes each takes
//! when it is written out.

use vstd::prelude::*;
use crate::pubkey::Pubkey;

verus! {

/// Bytes taken by the length that precedes every list when it is written out.
pub const LIST_PREFIX_BYTES: usize = 4;

/// Bytes taken by an instruction apart from the contents of its two lists:
/// the program index and two list prefixes.
pub const INSTRUCTION_FIXED_BYTES: usize = 9;

/// Bytes taken by a vault transaction apart from its bumps and its message:
/// two identities, the transaction index, the vault index and the prefix of
/// the bump list.
pub const TRANSACTION_FIXED_BYTES: usize = 77;

/// One compiled instruction of a transaction message.
#[derive(Clone, Debug)]
pub struct MultisigCompiledInstruction {
    /// Which of the message's accounts is the program to call.
    pub program_id_index: u8,
    /// Which of the message's accounts the call is given.
    pub account_indexes: Vec<u8>,
    /// The data handed to the program, opaque to the multisig.
    pub data: Vec<u8>,
}

/// A compiled instruction as a mathematical value.
pub struct MultisigCompiledInstructionView {
    pub program_id_index: u8,
    pub account_indexes: Seq<u8>,
    pub data: Seq<u8>,
}

impl View for MultisigCompiledInstruction {
    type V = MultisigCompiledInstructionView;

    open spec fn view(&self) -> MultisigCompiledInstructionView {
        MultisigCompiledInstructionView {
            program_id_index: self.program_id_index,
            account_indexes: self.account_indexes@,
            data: self.data@,
        }
    }
}

impl MultisigCompiledInstructionView {
    /// Bytes that the instruction takes when written out: one for the
    /// program index, then each list with its length before it.
    pub open spec fn size(self) -> nat {
        INSTRUCTION_FIXED_BYTES as nat + self.account_indexes.len() + self.data.len()
    }
}

/// The instructions as mathematical values, in their order.
pub open spec fn instructions_view(instructions: Seq<MultisigCompiledInstruction>) -> Seq<
    MultisigCompiledInstructionView,
> {
    instructions.map_values(|instruction: MultisigCompiledInstruction| instruction@)
}

/// Bytes that the instructions take together when written out one after
/// the other, without a length before them.
pub open spec fn instructions_size(instructions: Seq<MultisigCompiledInstructionView>) -> nat
    decreases instructions.len(),
{
    if instructions.len() == 0 {
        0
    } else {
        instructions_size(instructions.drop_last()) + instructions.last().size()
    }
}

/// The size of a concatenation is the sum of the sizes of its parts.
pub proof fn lemma_instructions_size_concat(
    first: Seq<MultisigCompiledInstructionView>,
    second: Seq<MultisigCompiledInstructionView>,
)
    ensures
        instructions_size(first + second) == instructions_size(first) + instructions_size(second),
    decreases second.len(),
{
    if second.len() == 0 {
        assert(first + second =~= first);
    } else {
        assert((first + second).drop_last() =~= first + second.drop_last());
        assert((first + second).last() == second.last());
        lemma_instructions_size_concat(first, second.drop_last());
    }
}

/// A leading part of a list of instructions takes no more bytes than the
/// whole list.
pub proof fn lemma_instructions_size_prefix(instructions: Seq<MultisigCompiledInstructionView>, n: int)
    requires
        0 <= n <= instructions.len(),
    ensures
        instructions_size(instructions.take(n)) <= instructions_size(instructions),
{
    assert(instructions.take(n) + instructions.skip(n) =~= instructions);
    lemma_instructions_size_concat(instructions.take(n), instructions.skip(n));
}

impl MultisigCompiledInstruction {
    /// Bytes that this instruction takes when written out, or `None` where
    /// that number does not fit a `usize`.
    pub fn size(&self) -> (size: Option<usize>)
        ensures
            match size {
                Some(n) => n == self@.size(),
                None => self@.size() > usize::MAX,
            },
    {
        match INSTRUCTION_FIXED_BYTES.checked_add(self.account_indexes.len()) {
            Some(with_accounts) => with_accounts.checked_add(self.data.len()),
            None => None,
        }
    }
}

/// Bytes that the instructions take together, or `None` where that number
/// does not fit a `usize`.
pub fn instructions_size_of(instructions: &Vec<MultisigCompiledInstruction>) -> (size: Option<usize>)
    ensures
        match size {
            Some(n) => n == instructions_size(instructions_view(instructions@)),
            None => instructions_size(instructions_view(instructions@)) > usize::MAX,
        },
{
    let ghost all = instructions_view(instructions@);
    let mut total: usize = 0;
    let mut i: usize = 0;
    while i < instructions.len()
        invariant
            i <= instructions.len(),
            all == instructions_view(instructions@),
            total == instructions_size(all.take(i as int)),
        decreases instructions.len() - i,
    {
        proof {
            assert(all.take(i + 1).drop_last() =~= all.take(i as int));
            assert(all.take(i + 1).last() == instructions@[i as int]@);
            lemma_instructions_size_prefix(all, i + 1);
        }
        let next = match instructions[i].size() {
            Some(one) => total.checked_add(one),
            None => None,
        };
        match next {
            Some(sum) => {
                total = sum;
            },
            None => {
                return None;
            },
        }
        i = i + 1;
    }
    proof {
        assert(all.take(all.len() as int) =~= all);
    }
    Some(total)
}

/// The message of a vault transaction: the instructions to run, in order.
#[derive(Clone, Debug)]
pub struct VaultTransactionMessage {
    pub instructions: Vec<MultisigCompiledInstruction>,
}

/// A message as a mathematical value.
pub struct VaultTransactionMessageView {
    pub instructions: Seq<MultisigCompiledInstructionView>,
}

impl View for VaultTransactionMessage {
    type V = VaultTransactionMessageView;

    open spec fn view(&self) -> VaultTransactionMessageView {
        VaultTransactionMessageView { instructions: instructions_view(self.instructions@) }
    }
}

impl VaultTransactionMessageView {
    /// Bytes that the message takes when written out: the length of the
    /// instruction list, then the instructions.
    pub open spec fn size(self) -> nat {
        LIST_PREFIX_BYTES as nat + instructions_size(self.instructions)
    }
}

impl VaultTransactionMessage {
    /// Bytes that the message takes when written out, or `None` where that
    /// number does not fit a `usize`.
    pub fn size(&self) -> (size: Option<usize>)
        ensures
            match size {
                Some(n) => n == self@.size(),
                None => self@.size() > usize::MAX,
            },
    {
        match instructions_size_of(&self.instructions) {
            Some(content) => LIST_PREFIX_BYTES.checked_add(content),
            None => None,
        }
    }
}

/// A vault transaction as it is stored: a proposal that waits for approval
/// and execution.
#[derive(Clone, Debug)]
pub struct VaultTransaction {
    /// The multisig that owns the transaction.
    pub multisig: Pubkey,
    /// The member that proposed it.
    pub creator: Pubkey,
    /// Its index within the multisig, fixed when it was proposed.
    pub transaction_index: u64,
    /// The vault through which it will execute.
    pub vault_index: u8,
    /// The bump of each ephemeral signer, in the order of their ordinals.
    pub ephemeral_signer_bumps: Vec<u8>,
    /// The instructions to execute.
    pub message: VaultTransactionMessage,
}

/// A vault transaction as a mathematical value.
pub struct VaultTransactionView {
    pub multisig: Seq<u8>,
    pub creator: Seq<u8>,
    pub transaction_index: u64,
    pub vault_index: u8,
    pub ephemeral_signer_bumps: Seq<u8>,
    pub message: VaultTransactionMessageView,
}

impl View for VaultTransaction {
    type V = VaultTransactionView;

    open spec fn view(&self) -> VaultTransactionView {
        VaultTransactionView {
            multisig: self.multisig@,
            creator: self.creator@,
            transaction_index: self.transaction_index,
            vault_index: self.vault_index,
            ephemeral_signer_bumps: self.ephemeral_signer_bumps@,
            message: self.message@,
        }
    }
}

impl VaultTransactionView {
    /// Bytes that the transaction takes when written out: its fixed fields,
    /// the bump list with its length before it, then the message.
    pub open spec fn size(self) -> nat {
        TRANSACTION_FIXED_BYTES as nat + self.ephemeral_signer_bumps.len() + self.message.size()
    }
}

impl VaultTransaction {
    /// Bytes that the transaction takes when written out, or `None` where
    /// that number does not fit a `usize`.
    pub fn size(&self) -> (size: Option<usize>)
        ensures
            match size {
                Some(n) => n == self@.size(),
                None => self@.size() > usize::MAX,
            },
    {
        match self.message.size() {
            Some(message) => match TRANSACTION_FIXED_BYTES.checked_add(self.ephemeral_signer_bumps.len()) {
                Some(head) => head.checked_add(message),
                None => None,
            },
            None => None,
        }
    }
}

/// A vault transaction together with the storage that backs it.
#[derive(Clone, Debug)]
pub struct VaultTransactionAccount {
    /// The address of the stored transaction: its identity.
    pub key: Pubkey,
    /// The number of bytes of its backing storage.
    pub data_len: usize,
    /// The transaction held in that storage.
    pub transaction: VaultTransaction,
}

/// A stored vault transaction as a mathematical value.
pub struct VaultTransactionAccountView {
    pub key: Seq<u8>,
    pub data_len: nat,
    pub transaction: VaultTransactionView,
}

impl View for VaultTransactionAccount {
    type V = VaultTransactionAccountView;

    open spec fn view(&self) -> VaultTransactionAccountView {
        VaultTransactionAccountView {
            key: self.key@,
            data_len: self.data_len as nat,
            transaction: self.transaction@,
        }
    }
}

} // verus!
