use vstd::prelude::*;
use crate::constants::{DISCRIMINATOR_SIZE, PUBKEY_SIZE, TREASURER_SEED, U64_SIZE};
use crate::pubkey::{derived_view, spec_try_find_program_address, try_find_program_address, Pubkey};

verus! {

/// The record that binds a pool to the authority holding its tokens in escrow.
#[derive(Clone, Copy, Debug, PartialEq, Eq)]
pub struct Treasurer {
    /// The organizer of the pool.
    pub authority: Pubkey,
    /// The pool this record belongs to.
    pub launch_pool: Pubkey,
    /// The mint of the token on sale.
    pub token_mint: Pubkey,
    /// The token units this record has to release.
    pub amount: u64,
}

impl Treasurer {
    /// Bytes that a stored treasurer takes.
    pub const LEN: usize = DISCRIMINATOR_SIZE + PUBKEY_SIZE + PUBKEY_SIZE + PUBKEY_SIZE + U64_SIZE;

    /// The seeds from which the address of the treasurer of a pool and mint is derived.
    pub open spec fn spec_seeds(launch_pool: Pubkey, token_mint: Pubkey) -> Seq<Seq<u8>> {
        seq![TREASURER_SEED@, launch_pool@, token_mint@]
    }

    /// Binds the record to its organizer, pool and mint; it answers for no tokens yet.
    pub fn initialize(&mut self, authority: Pubkey, launch_pool: Pubkey, token_mint: Pubkey)
        ensures
            *final(self) == (Treasurer { authority, launch_pool, token_mint, amount: 0 }),
    {
        self.authority = authority;
        self.launch_pool = launch_pool;
        self.token_mint = token_mint;
        self.amount = 0;
    }

    /// The address of the treasurer of the given pool and mint under the given program, with
    /// its bump seed; `None` where no address can be derived.
    pub fn find_address(launch_pool: &Pubkey, token_mint: &Pubkey, program_id: &Pubkey) -> (found: Option<(Pubkey, u8)>)
        ensures
            derived_view(found) == spec_try_find_program_address(
                Self::spec_seeds(*launch_pool, *token_mint),
                program_id@,
            ),
    {
        let pool_bytes = launch_pool.to_bytes();
        let mint_bytes = token_mint.to_bytes();
        let tag = TREASURER_SEED.as_slice();
        let pool = pool_bytes.as_slice();
        let mint = mint_bytes.as_slice();
        let seeds: [&[u8]; 3] = [tag, pool, mint];
        let seeds = seeds.as_slice();
        proof {
            assert(tag.deep_view() =~= TREASURER_SEED@);
            assert(pool.deep_view() =~= launch_pool@);
            assert(mint.deep_view() =~= token_mint@);
            assert(seeds.deep_view() =~= Self::spec_seeds(*launch_pool, *token_mint));
        }
        try_find_program_address(seeds, program_id)
    }
}

} // verus!
