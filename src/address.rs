use vstd::prelude::*;

verus! {

/// A 32-byte ledger address: an account, an identity or a program.
#[derive(Clone, Copy, Debug)]
pub struct Address {
    pub bytes: [u8; 32],
}

impl Address {
    pub fn new(bytes: [u8; 32]) -> (r: Address)
        ensures
            r.bytes == bytes,
    {
        Address { bytes }
    }

    /// Byte-wise comparison of two addresses.
    pub fn same_as(&self, other: &Address) -> (r: bool)
        ensures
            r == (*self == *other),
    {
        let mut i: usize = 0;
        while i < 32
            invariant
                0 <= i <= 32,
                forall|j: int| 0 <= j < i ==> self.bytes[j] == other.bytes[j],
            decreases 32 - i,
        {
            if self.bytes[i] != other.bytes[i] {
                return false;
            }
            i = i + 1;
        }
        assert(self.bytes =~= other.bytes);
        true
    }
}

/// The seed from which the vault authority is derived: the ASCII text
/// `escrow-pda-seed`.
pub open spec fn escrow_seed() -> Seq<u8> {
    seq![
        101u8, 115, 99, 114, 111, 119, 45, 112, 100, 97, 45, 115, 101, 101, 100,
    ]
}

/// The seed bytes, as handed to the address derivation.
pub fn escrow_seed_bytes() -> (r: Vec<u8>)
    ensures
        r@ == escrow_seed(),
{
    let r = vec![
        101u8, 115, 99, 114, 111, 119, 45, 112, 100, 97, 45, 115, 101, 101, 100,
    ];
    assert(r@ =~= escrow_seed());
    r
}

/// The program-derived address for one seed under a program id, with its
/// bump seed, or `None` where no bump seed yields an address off the curve.
pub uninterp spec fn program_address_of(seed: Seq<u8>, program_id: [u8; 32]) -> Option<([u8; 32], u8)>;

/// The authority that owns every vault of `program_id`, with its bump seed.
pub open spec fn vault_authority_and_bump(program_id: Address) -> Option<(Address, u8)> {
    match program_address_of(escrow_seed(), program_id.bytes) {
        Some(p) => Some((Address { bytes: p.0 }, p.1)),
        None => None,
    }
}

/// The authority that owns every vault of `program_id`.
pub open spec fn vault_authority_of(program_id: Address) -> Option<Address> {
    match vault_authority_and_bump(program_id) {
        Some(p) => Some(p.0),
        None => None,
    }
}

/// Relies on `Pubkey::try_find_program_address` (solana-address's
/// `Address::try_find_program_address`, re-exported by anchor_lang): a
/// deterministic function of the seeds and the program id (a hash searched over
/// bump seeds, largest first), which returns `None` where no bump seed gives an
/// address off the curve or a seed is longer than 32 bytes. It does not panic.
#[verifier::external_body]
fn find_program_address(seed: &Vec<u8>, program_id: &Address) -> (r: Option<([u8; 32], u8)>)
    ensures
        r == program_address_of(seed@, program_id.bytes),
{
    let program = anchor_lang::prelude::Pubkey::new_from_array(program_id.bytes);
    anchor_lang::prelude::Pubkey::try_find_program_address(&[seed.as_slice()], &program)
        .map(|found| (found.0.to_bytes(), found.1))
}

/// Computes the vault authority of `program_id` and its bump seed.
pub fn find_vault_authority(program_id: &Address) -> (r: Option<(Address, u8)>)
    ensures
        r == vault_authority_and_bump(*program_id),
{
    let seed = escrow_seed_bytes();
    match find_program_address(&seed, program_id) {
        Some(p) => Some((Address { bytes: p.0 }, p.1)),
        None => None,
    }
}

} // verus!
