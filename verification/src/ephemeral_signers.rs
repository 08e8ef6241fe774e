//! Ephemeral signers: addresses derived from a stored transaction and an
//! ordinal, which anyone can derive again from those two alone.

use vstd::prelude::*;
use crate::pubkey::Pubkey;

verus! {

/// The seed that begins every derivation of this program: `multisig`.
pub const SEED_PREFIX: [u8; 8] = [109, 117, 108, 116, 105, 115, 105, 103];

/// The seed that marks an ephemeral signer: `ephemeral_signer`.
pub const SEED_EPHEMERAL_SIGNER: [u8; 16] = [
    101, 112, 104, 101, 109, 101, 114, 97, 108, 95, 115, 105, 103, 110, 101, 114,
];

/// The largest ordinal that the one-byte ordinal seed can hold.
pub const MAX_ORDINAL: usize = 255;

/// The program address that the host platform finds for `seeds` under
/// `program_id`, with its bump seed; `None` where it finds none.
pub uninterp spec fn program_address(seeds: Seq<Seq<u8>>, program_id: Seq<u8>) -> Option<(Seq<u8>, u8)>;

/// The seeds as sequences of bytes.
pub open spec fn seeds_view(seeds: Seq<Vec<u8>>) -> Seq<Seq<u8>> {
    seeds.map_values(|seed: Vec<u8>| seed@)
}

/// Calls `Pubkey::try_find_program_address` of `solana_program`, which
/// `anchor_lang` hands on. It searches the bump seeds from 255 downwards for
/// the first that, hashed with the seeds and the program id, gives an
/// address off the curve, and returns `None` where no bump seed does or the
/// seeds are too many or too long. What it returns depends on the seeds and
/// the program id alone; the contract gives that result its name,
/// [`program_address`], and claims nothing more of it.
#[verifier::external_body]
fn try_find_program_address(seeds: &Vec<Vec<u8>>, program_id: &Pubkey) -> (found: Option<(Pubkey, u8)>)
    ensures
        match found {
            Some((address, bump)) => program_address(seeds_view(seeds@), program_id@) == Some(
                (address@, bump),
            ),
            None => program_address(seeds_view(seeds@), program_id@) is None,
        },
{
    let parts: Vec<&[u8]> = seeds.iter().map(|seed| seed.as_slice()).collect();
    let program = anchor_lang::prelude::Pubkey::new_from_array(program_id.bytes);
    match anchor_lang::prelude::Pubkey::try_find_program_address(&parts, &program) {
        Some((address, bump)) => Some((Pubkey { bytes: address.to_bytes() }, bump)),
        None => None,
    }
}

/// The seeds of the ephemeral signer with the given ordinal of the
/// transaction stored at `transaction_key`.
pub open spec fn ephemeral_signer_seeds(transaction_key: Seq<u8>, ordinal: u8) -> Seq<Seq<u8>> {
    seq![SEED_PREFIX@, transaction_key, SEED_EPHEMERAL_SIGNER@, seq![ordinal]]
}

/// The ephemeral signer with the given ordinal of the transaction stored at
/// `transaction_key`: its address and its bump. There is none where the
/// ordinal does not fit the one-byte seed, or where the platform finds no
/// address for the seeds.
pub open spec fn ephemeral_signer(program_id: Seq<u8>, transaction_key: Seq<u8>, ordinal: int) -> Option<
    (Seq<u8>, u8),
> {
    if 0 <= ordinal <= MAX_ORDINAL {
        program_address(ephemeral_signer_seeds(transaction_key, ordinal as u8), program_id)
    } else {
        None
    }
}

/// Whether each of the `count` ephemeral signers with ordinals from `start`
/// on can be derived.
pub open spec fn ephemeral_signers_available(
    program_id: Seq<u8>,
    transaction_key: Seq<u8>,
    start: int,
    count: int,
) -> bool {
    forall|ordinal: int|
        start <= ordinal < start + count ==> (#[trigger] ephemeral_signer(
            program_id,
            transaction_key,
            ordinal,
        )) is Some
}

/// The bumps of the `count` ephemeral signers with ordinals from `start`
/// on, in the order of their ordinals.
pub open spec fn ephemeral_signer_bumps(
    program_id: Seq<u8>,
    transaction_key: Seq<u8>,
    start: int,
    count: int,
) -> Seq<u8> {
    Seq::new(
        if count >= 0 { count as nat } else { 0 },
        |i: int| ephemeral_signer(program_id, transaction_key, start + i).unwrap().1,
    )
}

/// A copy of the bytes as a vector.
fn seed_bytes<const N: usize>(bytes: &[u8; N]) -> (seed: Vec<u8>)
    ensures
        seed@ == bytes@,
{
    let mut seed: Vec<u8> = Vec::new();
    let mut i: usize = 0;
    while i < N
        invariant
            i <= N,
            seed@ == bytes@.take(i as int),
        decreases N - i,
    {
        seed.push(bytes[i]);
        assert(bytes@.take(i + 1) =~= bytes@.take(i as int).push(bytes@[i as int]));
        i = i + 1;
    }
    assert(bytes@.take(N as int) =~= bytes@);
    seed
}

/// Derives the ephemeral signer with the given ordinal of the transaction
/// stored at `transaction_key`: its address and its bump. The same
/// arguments always give the same signer.
pub fn derive_ephemeral_signer(program_id: &Pubkey, transaction_key: &Pubkey, ordinal: usize) -> (signer: Option<
    (Pubkey, u8),
>)
    ensures
        match signer {
            Some((address, bump)) => ephemeral_signer(program_id@, transaction_key@, ordinal as int)
                == Some((address@, bump)),
            None => ephemeral_signer(program_id@, transaction_key@, ordinal as int) is None,
        },
{
    if ordinal > MAX_ORDINAL {
        return None;
    }
    let ordinal_byte: u8 = ordinal as u8;
    let mut ordinal_seed: Vec<u8> = Vec::new();
    ordinal_seed.push(ordinal_byte);
    let mut seeds: Vec<Vec<u8>> = Vec::new();
    seeds.push(seed_bytes(&SEED_PREFIX));
    seeds.push(seed_bytes(&transaction_key.bytes));
    seeds.push(seed_bytes(&SEED_EPHEMERAL_SIGNER));
    seeds.push(ordinal_seed);
    assert(seeds_view(seeds@) =~= ephemeral_signer_seeds(transaction_key@, ordinal_byte)) by {
        assert(seeds@[3]@ =~= seq![ordinal_byte]);
    }
    try_find_program_address(&seeds, program_id)
}

/// Derives the bumps of the `count` ephemeral signers with ordinals from
/// `start` on, in the order of their ordinals; `None` where one of them
/// cannot be derived.
pub fn derive_ephemeral_signer_bumps(program_id: &Pubkey, transaction_key: &Pubkey, start: usize, count: u8) -> (bumps:
    Option<Vec<u8>>)
    ensures
        match bumps {
            Some(derived) => {
                &&& ephemeral_signers_available(program_id@, transaction_key@, start as int, count as int)
                &&& derived@ == ephemeral_signer_bumps(
                    program_id@,
                    transaction_key@,
                    start as int,
                    count as int,
                )
            },
            None => !ephemeral_signers_available(program_id@, transaction_key@, start as int, count as int),
        },
{
    let mut derived: Vec<u8> = Vec::new();
    let mut i: u8 = 0;
    while i < count
        invariant
            i <= count,
            ephemeral_signers_available(program_id@, transaction_key@, start as int, i as int),
            derived@ == ephemeral_signer_bumps(program_id@, transaction_key@, start as int, i as int),
        decreases count - i,
    {
        if start > MAX_ORDINAL - (i as usize) {
            assert(ephemeral_signer(program_id@, transaction_key@, start + i) is None);
            return None;
        }
        match derive_ephemeral_signer(program_id, transaction_key, start + (i as usize)) {
            Some((_, bump)) => {
                derived.push(bump);
                assert(derived@ =~= ephemeral_signer_bumps(
                    program_id@,
                    transaction_key@,
                    start as int,
                    i + 1,
                ));
            },
            None => {
                assert(ephemeral_signer(program_id@, transaction_key@, start + i) is None);
                return None;
            },
        }
        i = i + 1;
    }
    Some(derived)
}

} // verus!
