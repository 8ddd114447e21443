use vstd::prelude::*;
use vstd::std_specs::cmp::PartialEqSpecImpl;

verus! {

/// The address of an account: thirty-two bytes.
#[derive(Clone, Copy, Debug)]
pub struct Pubkey {
    bytes: [u8; 32],
}

impl View for Pubkey {
    type V = Seq<u8>;

    open spec fn view(&self) -> Seq<u8> {
        self.to_bytes()@
    }
}

impl Pubkey {
    /// The bytes of the address.
    pub closed spec fn spec_to_bytes(&self) -> [u8; 32] {
        self.bytes
    }

    /// The address made of the given bytes.
    pub fn new_from_array(bytes: [u8; 32]) -> (key: Pubkey)
        ensures
            key.to_bytes() == bytes,
    {
        Pubkey { bytes }
    }

    /// The bytes of the address.
    #[verifier::when_used_as_spec(spec_to_bytes)]
    pub fn to_bytes(&self) -> (bytes: [u8; 32])
        ensures
            bytes == self.to_bytes(),
    {
        self.bytes
    }

    /// Two addresses with the same bytes are the same address.
    pub proof fn lemma_view_injective(a: Pubkey, b: Pubkey)
        ensures
            (a@ == b@) <==> (a == b),
    {
        if a@ == b@ {
            assert forall|i: int| 0 <= i < 32 implies a.bytes[i] == b.bytes[i] by {
                assert(a.bytes@[i] == b.bytes@[i]);
            }
            assert(a.bytes =~= b.bytes);
        }
    }
}

/// What `Pubkey::try_find_program_address` of the `solana_pubkey` library returns for the
/// given seeds and program id: the program-derived address with the bump seed that was found
/// for it, or `None` where it finds none. The search hashes its arguments and tests the
/// hashes; it reads nothing else.
pub uninterp spec fn spec_try_find_program_address(seeds: Seq<Seq<u8>>, program_id: Seq<u8>) -> Option<(Seq<u8>, u8)>;

/// A derived address and its bump seed, the address as its bytes.
pub open spec fn derived_view(found: Option<(Pubkey, u8)>) -> Option<(Seq<u8>, u8)> {
    match found {
        Some((address, bump)) => Some((address@, bump)),
        None => None,
    }
}

/// Calls `Pubkey::try_find_program_address` of the `solana_pubkey` library, which
/// `anchor_lang` hands on in its prelude. Not proved but trusted: the call returns what
/// `spec_try_find_program_address` names for the same seeds and program id, the addresses
/// taken as their bytes. The call does not panic: where it can derive no address it returns
/// `None`.
#[verifier::external_body]
pub(crate) fn try_find_program_address(seeds: &[&[u8]], program_id: &Pubkey) -> (found: Option<(Pubkey, u8)>)
    ensures
        derived_view(found) == spec_try_find_program_address(seeds.deep_view(), program_id@),
{
    let id = anchor_lang::prelude::Pubkey::new_from_array(program_id.bytes);
    match anchor_lang::prelude::Pubkey::try_find_program_address(seeds, &id) {
        Some((address, bump)) => Some((Pubkey { bytes: address.to_bytes() }, bump)),
        None => None,
    }
}

impl PartialEq for Pubkey {
    /// Whether the two addresses have the same bytes.
    fn eq(&self, other: &Pubkey) -> (r: bool) {
        let mut i: usize = 0;
        while i < 32
            invariant
                i <= 32,
                forall|j: int| 0 <= j < i ==> self.bytes[j] == other.bytes[j],
            decreases 32 - i,
        {
            if self.bytes[i] != other.bytes[i] {
                return false;
            }
            i += 1;
        }
        assert(self.bytes =~= other.bytes);
        true
    }
}

impl Eq for Pubkey {

}

impl PartialEqSpecImpl for Pubkey {
    open spec fn obeys_eq_spec() -> bool {
        true
    }

    open spec fn eq_spec(&self, other: &Pubkey) -> bool {
        *self == *other
    }
}

} // verus!
