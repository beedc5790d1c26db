use anchor_lang::prelude::Pubkey;
use vstd::prelude::*;
use vstd::std_specs::cmp::PartialEqSpecImpl;

verus! {

/// The most bytes that one seed may have.
pub const MAX_SEED_LEN: usize = 32;

/// The most seeds that one derivation may take, the bump seed included.
pub const MAX_SEEDS: usize = 16;

/// The address of an account: thirty-two bytes.
#[derive(Clone, Copy, Debug, Eq)]
pub struct Address {
    pub bytes: [u8; 32],
}

impl View for Address {
    type V = Seq<u8>;

    open spec fn view(&self) -> Seq<u8> {
        self.bytes@
    }
}

impl Address {
    /// The bytes of the address, as a seed for a derivation.
    pub fn to_vec(&self) -> (bytes: Vec<u8>)
        ensures
            bytes@ == self@,
    {
        let mut bytes: Vec<u8> = Vec::new();
        let mut i: usize = 0;
        while i < 32
            invariant
                i <= 32,
                bytes@.len() == i,
                forall|j: int| 0 <= j < i ==> bytes@[j] == self.bytes@[j],
            decreases 32 - i,
        {
            bytes.push(self.bytes[i]);
            i += 1;
        }
        assert(bytes@ =~= self.bytes@);
        bytes
    }
}

impl PartialEq for Address {
    fn eq(&self, other: &Address) -> (r: bool) {
        let mut i: usize = 0;
        while i < 32
            invariant
                i <= 32,
                forall|j: int| 0 <= j < i ==> self.bytes@[j] == other.bytes@[j],
            decreases 32 - i,
        {
            if self.bytes[i] != other.bytes[i] {
                return false;
            }
            i += 1;
        }
        assert(self.bytes@ =~= other.bytes@);
        true
    }
}

impl PartialEqSpecImpl for Address {
    open spec fn obeys_eq_spec() -> bool {
        true
    }

    open spec fn eq_spec(&self, other: &Address) -> bool {
        self@ == other@
    }
}

/// The address under which the gateway is deployed.
pub open spec fn gateway_address() -> Address {
    Address {
        bytes: [
            197u8, 185u8, 173u8, 0u8, 223u8, 178u8, 207u8, 235u8, 241u8, 174u8, 48u8, 18u8, 124u8, 166u8, 13u8,
            8u8, 254u8, 191u8, 168u8, 136u8, 185u8, 200u8, 161u8, 171u8, 1u8, 67u8, 79u8, 225u8, 47u8, 117u8,
            104u8, 66u8,
        ],
    }
}

/// The address under which the gateway is deployed.
pub fn program_id() -> (id: Address)
    ensures
        id == gateway_address(),
{
    Address {
        bytes: [
            197u8, 185u8, 173u8, 0u8, 223u8, 178u8, 207u8, 235u8, 241u8, 174u8, 48u8, 18u8, 124u8, 166u8, 13u8,
            8u8, 254u8, 191u8, 168u8, 136u8, 185u8, 200u8, 161u8, 171u8, 1u8, 67u8, 79u8, 225u8, 47u8, 117u8,
            104u8, 66u8,
        ],
    }
}

/// An account that a transaction names as one of its signers.
#[derive(Clone, Copy, Debug, PartialEq, Eq)]
pub struct Signer {
    pub key: Address,
    /// Whether the account did sign the transaction.
    pub signed: bool,
}

/// The seeds as sequences of bytes.
pub open spec fn seed_bytes(seeds: &Vec<Vec<u8>>) -> Seq<Seq<u8>> {
    Seq::new(seeds@.len(), |i: int| seeds@[i]@)
}

/// Whether a derivation takes these seeds: at most `MAX_SEEDS` of them, each
/// of at most `MAX_SEED_LEN` bytes.
pub open spec fn seeds_fit(seeds: Seq<Seq<u8>>) -> bool {
    &&& seeds.len() <= MAX_SEEDS
    &&& forall|i: int| 0 <= i < seeds.len() ==> (#[trigger] seeds[i]).len() <= MAX_SEED_LEN
}

/// The seeds followed by a bump seed of one byte.
pub open spec fn with_bump(seeds: Seq<Seq<u8>>, bump: u8) -> Seq<Seq<u8>> {
    seeds.push(seq![bump])
}

/// What `Pubkey::create_program_address` derives from seeds that fit: the
/// address, or `None` where the digest of the seeds and the program's
/// address is a point of the curve and so may be some key pair's address.
pub uninterp spec fn program_address(seeds: Seq<Seq<u8>>, program_id: Seq<u8>) -> Option<Seq<u8>>;

/// The address that the seeds and a given bump derive, if they derive one.
pub open spec fn bumped_address(seeds: Seq<Seq<u8>>, bump: u8, program_id: Seq<u8>) -> Option<Seq<u8>> {
    if seeds_fit(with_bump(seeds, bump)) {
        program_address(with_bump(seeds, bump), program_id)
    } else {
        None
    }
}

/// Whether `bump` is the canonical bump of the seeds: the greatest from 255
/// down to 1 with which they derive an address.
pub open spec fn canonical_bump(seeds: Seq<Seq<u8>>, bump: u8, program_id: Seq<u8>) -> bool {
    &&& bump >= 1
    &&& bumped_address(seeds, bump, program_id) is Some
    &&& forall|other: u8| other > bump ==> #[trigger] bumped_address(seeds, other, program_id) is None
}

/// The address that the seeds derive with their canonical bump, and that
/// bump; `None` where the seeds do not fit or no bump derives an address.
pub open spec fn derived_address(seeds: Seq<Seq<u8>>, program_id: Seq<u8>) -> Option<(Seq<u8>, u8)> {
    if exists|bump: u8| canonical_bump(seeds, bump, program_id) {
        let bump = choose|bump: u8| canonical_bump(seeds, bump, program_id);
        Some((bumped_address(seeds, bump, program_id)->0, bump))
    } else {
        None
    }
}

/// Calls `Pubkey::create_program_address` on the seeds as they stand, the
/// bump seed among them. The contract claims that the call refuses seeds
/// that do not fit, and on seeds that fit returns what `program_address`
/// names, with both of its errors turned into `None`.
#[verifier::external_body]
pub(crate) fn create_program_address(seeds: &Vec<Vec<u8>>, program_id: &Address) -> (r: Option<Address>)
    ensures
        match r {
            Some(address) => seeds_fit(seed_bytes(seeds)) && program_address(
                seed_bytes(seeds),
                program_id@,
            ) == Some(address@),
            None => !seeds_fit(seed_bytes(seeds)) || program_address(seed_bytes(seeds), program_id@) is None,
        },
{
    let parts: Vec<&[u8]> = seeds.iter().map(|seed| seed.as_slice()).collect();
    let id = Pubkey::new_from_array(program_id.bytes);
    Pubkey::create_program_address(&parts, &id).ok().map(|key| Address { bytes: key.to_bytes() })
}

/// Calls `Pubkey::try_find_program_address`. The contract claims that the
/// call tries the bumps from 255 down to 1, each appended to the seeds as a
/// seed of one byte, and returns the first address that
/// `Pubkey::create_program_address` derives with the bump that gave it, and
/// `None` where the seeds do not fit or no bump derives an address.
#[verifier::external_body]
pub(crate) fn try_find_program_address(seeds: &Vec<Vec<u8>>, program_id: &Address) -> (r: Option<(Address, u8)>)
    ensures
        match r {
            Some((address, bump)) => derived_address(seed_bytes(seeds), program_id@) == Some((address@, bump)),
            None => derived_address(seed_bytes(seeds), program_id@) is None,
        },
{
    let parts: Vec<&[u8]> = seeds.iter().map(|seed| seed.as_slice()).collect();
    let id = Pubkey::new_from_array(program_id.bytes);
    Pubkey::try_find_program_address(&parts, &id).map(|(key, bump)| (Address { bytes: key.to_bytes() }, bump))
}

/// The bump that a derivation returns leads back to the address it
/// returns: the seeds derive that address again with that bump, which is
/// their only canonical bump. Where a derivation returns nothing the seeds
/// have no canonical bump.
pub proof fn lemma_derived_address_bumped(seeds: Seq<Seq<u8>>, program_id: Seq<u8>)
    ensures
        match derived_address(seeds, program_id) {
            Some((address, bump)) => {
                &&& canonical_bump(seeds, bump, program_id)
                &&& bumped_address(seeds, bump, program_id) == Some(address)
                &&& forall|other: u8| canonical_bump(seeds, other, program_id) ==> other == bump
            },
            None => forall|bump: u8| !canonical_bump(seeds, bump, program_id),
        },
{
    if let Some((address, bump)) = derived_address(seeds, program_id) {
        assert forall|other: u8| canonical_bump(seeds, other, program_id) implies other == bump by {
            if other < bump {
                assert(bumped_address(seeds, bump, program_id) is None);
            }
            if bump < other {
                assert(bumped_address(seeds, other, program_id) is None);
            }
        }
    }
}

/// The address that the seeds derive with `bump`, `None` where they derive
/// none.
pub fn address_with_bump(seeds: &Vec<Vec<u8>>, bump: u8, program_id: &Address) -> (r: Option<Address>)
    ensures
        match r {
            Some(address) => bumped_address(seed_bytes(seeds), bump, program_id@) == Some(address@),
            None => bumped_address(seed_bytes(seeds), bump, program_id@) is None,
        },
{
    let mut all: Vec<Vec<u8>> = seeds.clone();
    let mut last: Vec<u8> = Vec::new();
    last.push(bump);
    all.push(last);
    proof {
        assert(last@ =~= seq![bump]);
        assert(seed_bytes(&all) =~= with_bump(seed_bytes(seeds), bump));
    }
    create_program_address(&all, program_id)
}

} // verus!
