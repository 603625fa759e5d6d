use anchor_lang::prelude::Pubkey;
use vstd::prelude::*;

verus! {

/// Number of bytes in an address.
pub const ADDRESS_LEN: usize = 32;

/// Longest seed, in bytes, that an address can be derived from.
pub const MAX_SEED_LEN: usize = 32;

/// Largest number of seeds, bump included, that an address can be derived from.
pub const MAX_SEEDS: usize = 16;

/// The address of an account on the ledger.
#[derive(Clone, Copy, Debug, Eq)]
pub struct Address {
    pub bytes: [u8; 32],
}

impl View for Address {
    type V = Seq<u8>;

    open spec fn view(&self) -> Seq<u8> {
        self.bytes@
    }
}

impl PartialEq for Address {
    fn eq(&self, other: &Address) -> (r: bool) {
        let mut i: usize = 0;
        while i < ADDRESS_LEN
            invariant
                i <= ADDRESS_LEN,
                forall|j: int| 0 <= j < i ==> self.bytes[j] == other.bytes[j],
            decreases ADDRESS_LEN - i,
        {
            if self.bytes[i] != other.bytes[i] {
                return false;
            }
            i += 1;
        }
        proof {
            assert(self.bytes =~= other.bytes);
        }
        true
    }
}

impl vstd::std_specs::cmp::PartialEqSpecImpl for Address {
    open spec fn obeys_eq_spec() -> bool {
        true
    }

    open spec fn eq_spec(&self, other: &Address) -> bool {
        *self == *other
    }
}

/// The identity of this program: the address under which it is deployed
/// and under which every address of its own is derived.
pub const PROGRAM_ID: [u8; 32] = [
    253, 238, 215, 9, 152, 67, 16, 101, 178, 104, 51, 156, 166, 183, 83, 209,
    187, 181, 244, 243, 15, 247, 229, 249, 184, 36, 95, 214, 145, 167, 20, 214,
];

/// The identity of the ledger service that keeps balances and supply.
pub const TOKEN_PROGRAM_ID: [u8; 32] = [
    6, 221, 246, 225, 215, 101, 161, 147, 217, 203, 225, 70, 206, 235, 121, 172,
    28, 180, 133, 237, 95, 91, 55, 145, 58, 140, 245, 133, 126, 255, 0, 169,
];

/// The identity of the service that creates associated balance accounts;
/// their addresses are derived under it.
pub const ASSOCIATED_TOKEN_PROGRAM_ID: [u8; 32] = [
    140, 151, 37, 143, 78, 36, 137, 241, 187, 61, 16, 41, 20, 142, 13, 131,
    11, 90, 19, 153, 218, 255, 16, 132, 4, 142, 123, 216, 219, 233, 248, 89,
];

/// The identity of the service that allocates accounts.
pub const SYSTEM_PROGRAM_ID: [u8; 32] = [
    0, 0, 0, 0, 0, 0, 0, 0, 0, 0, 0, 0, 0, 0, 0, 0,
    0, 0, 0, 0, 0, 0, 0, 0, 0, 0, 0, 0, 0, 0, 0, 0,
];

/// The address of this program.
pub fn program_id() -> (r: Address)
    ensures
        r == (Address { bytes: PROGRAM_ID }),
{
    Address { bytes: PROGRAM_ID }
}

/// The address of the ledger service.
pub fn token_program_id() -> (r: Address)
    ensures
        r == (Address { bytes: TOKEN_PROGRAM_ID }),
{
    Address { bytes: TOKEN_PROGRAM_ID }
}

/// The address of the service that creates associated balance accounts.
pub fn associated_token_program_id() -> (r: Address)
    ensures
        r == (Address { bytes: ASSOCIATED_TOKEN_PROGRAM_ID }),
{
    Address { bytes: ASSOCIATED_TOKEN_PROGRAM_ID }
}

/// The address of the service that allocates accounts.
pub fn system_program_id() -> (r: Address)
    ensures
        r == (Address { bytes: SYSTEM_PROGRAM_ID }),
{
    Address { bytes: SYSTEM_PROGRAM_ID }
}

/// What `Pubkey::create_program_address` yields for the given seeds under
/// the given program: the derived address, or `None` where the seeds admit
/// no address (they exceed a limit, or they hash onto the curve).
pub uninterp spec fn program_address(seeds: Seq<Seq<u8>>, program: Seq<u8>) -> Option<Seq<u8>>;

/// The byte strings that a list of seeds holds.
pub open spec fn seed_bytes(seeds: Seq<Vec<u8>>) -> Seq<Seq<u8>> {
    Seq::new(seeds.len(), |i: int| seeds[i]@)
}

/// The seeds are few and short enough for an address to be derived from them.
pub open spec fn seeds_within_limits(seeds: Seq<Seq<u8>>) -> bool {
    &&& seeds.len() <= MAX_SEEDS
    &&& forall|i: int| 0 <= i < seeds.len() ==> (#[trigger] seeds[i]).len() <= MAX_SEED_LEN
}

/// The seeds followed by the one-byte seed that holds the bump.
pub open spec fn with_bump(seeds: Seq<Seq<u8>>, bump: u8) -> Seq<Seq<u8>> {
    seeds.push(seq![bump])
}

/// The seeds leave room for a bump: with one more one-byte seed they are
/// still within the limits.
pub open spec fn room_for_bump(seeds: Seq<Seq<u8>>) -> bool {
    &&& seeds.len() < MAX_SEEDS
    &&& forall|i: int| 0 <= i < seeds.len() ==> (#[trigger] seeds[i]).len() <= MAX_SEED_LEN
}

/// `address` is the address derived from the seeds and `bump` is their
/// canonical bump: the highest bump, from 255 down to 1, with which the
/// seeds admit an address.
pub open spec fn derives_to(
    seeds: Seq<Seq<u8>>,
    program: Seq<u8>,
    address: Seq<u8>,
    bump: u8,
) -> bool {
    &&& 1 <= bump
    &&& program_address(with_bump(seeds, bump), program) == Some(address)
    &&& forall|b: u8|
        bump < b ==> (#[trigger] program_address(with_bump(seeds, b), program)) is None
}

/// No bump from 255 down to 1 makes the seeds admit an address.
pub open spec fn underivable(seeds: Seq<Seq<u8>>, program: Seq<u8>) -> bool {
    forall|b: u8| 1 <= b ==> (#[trigger] program_address(with_bump(seeds, b), program)) is None
}

/// What a derivation from the seeds yields: the derived address with its
/// canonical bump, or nothing where the seeds leave no room for a bump or
/// admit no address with any bump.
pub open spec fn derivation(
    seeds: Seq<Seq<u8>>,
    program: Seq<u8>,
    outcome: Option<(Seq<u8>, u8)>,
) -> bool {
    match outcome {
        Some((address, bump)) => room_for_bump(seeds) && derives_to(seeds, program, address, bump),
        None => !room_for_bump(seeds) || underivable(seeds, program),
    }
}

/// `address` is the address that a derivation from the seeds yields.
pub open spec fn is_derived(seeds: Seq<Seq<u8>>, program: Seq<u8>, address: Seq<u8>) -> bool {
    exists|bump: u8| derivation(seeds, program, Some((address, bump)))
}

/// The seeds from which the balance account of an owner for an asset is
/// derived: the owner, the ledger service, the asset.
pub open spec fn associated_seeds(owner: Seq<u8>, asset: Seq<u8>) -> Seq<Seq<u8>> {
    seq![owner, TOKEN_PROGRAM_ID@, asset]
}

/// `address` is the address of the balance account of `owner` for `asset`.
pub open spec fn is_associated(owner: Seq<u8>, asset: Seq<u8>, address: Seq<u8>) -> bool {
    is_derived(associated_seeds(owner, asset), ASSOCIATED_TOKEN_PROGRAM_ID@, address)
}

/// Calls `Pubkey::create_program_address`, of the `Pubkey` that
/// `anchor_lang::prelude` hands on from `solana_program`.
///
/// Trusted: the outcome is a function of the seeds and the program alone,
/// named `program_address`, and seeds beyond the limits (more than
/// `MAX_SEEDS` of them, or one longer than `MAX_SEED_LEN`) admit no address.
#[verifier::external_body]
fn create_program_address(seeds: &Vec<Vec<u8>>, program: &Address) -> (r: Option<Address>)
    ensures
        match r {
            Some(address) => program_address(seed_bytes(seeds@), program@) == Some(address@),
            None => program_address(seed_bytes(seeds@), program@) is None,
        },
        !seeds_within_limits(seed_bytes(seeds@)) ==> r is None,
{
    let parts: Vec<&[u8]> = seeds.iter().map(|seed| seed.as_slice()).collect();
    match Pubkey::create_program_address(&parts, &Pubkey::new_from_array(program.bytes)) {
        Ok(key) => Some(Address { bytes: key.to_bytes() }),
        Err(_) => None,
    }
}

/// Calls `Pubkey::try_find_program_address`, of the `Pubkey` that
/// `anchor_lang::prelude` hands on from `solana_program`.
///
/// Trusted: it tries the bumps from 255 down to 1, each as one more seed of
/// one byte, and returns the first address that
/// `Pubkey::create_program_address` yields, with that bump; it returns
/// `None` where none of them yields an address.
#[verifier::external_body]
fn try_find_program_address(seeds: &Vec<Vec<u8>>, program: &Address) -> (r: Option<(Address, u8)>)
    ensures
        match r {
            Some((address, bump)) => derives_to(seed_bytes(seeds@), program@, address@, bump),
            None => underivable(seed_bytes(seeds@), program@),
        },
{
    let parts: Vec<&[u8]> = seeds.iter().map(|seed| seed.as_slice()).collect();
    match Pubkey::try_find_program_address(&parts, &Pubkey::new_from_array(program.bytes)) {
        Some((key, bump)) => Some((Address { bytes: key.to_bytes() }, bump)),
        None => None,
    }
}

/// Whether the seeds leave room for a bump.
pub fn seeds_have_room(seeds: &Vec<Vec<u8>>) -> (r: bool)
    ensures
        r == room_for_bump(seed_bytes(seeds@)),
{
    if seeds.len() >= MAX_SEEDS {
        return false;
    }
    let mut i: usize = 0;
    while i < seeds.len()
        invariant
            i <= seeds.len(),
            forall|j: int| 0 <= j < i ==> (#[trigger] seed_bytes(seeds@)[j]).len() <= MAX_SEED_LEN,
        decreases seeds.len() - i,
    {
        if seeds[i].len() > MAX_SEED_LEN {
            assert(seed_bytes(seeds@)[i as int].len() > MAX_SEED_LEN);
            return false;
        }
        i += 1;
    }
    true
}

/// Derives an address from the seeds under the given program, with its
/// canonical bump.
pub fn derive_under(seeds: &Vec<Vec<u8>>, program: &Address) -> (r: Option<(Address, u8)>)
    ensures
        derivation(
            seed_bytes(seeds@),
            program@,
            match r {
                Some((address, bump)) => Some((address@, bump)),
                None => None,
            },
        ),
{
    if !seeds_have_room(seeds) {
        return None;
    }
    try_find_program_address(seeds, program)
}

/// Derives an address of this program from the seeds, with its canonical
/// bump.
pub fn derive(seeds: &Vec<Vec<u8>>) -> (r: Option<(Address, u8)>)
    ensures
        derivation(
            seed_bytes(seeds@),
            PROGRAM_ID@,
            match r {
                Some((address, bump)) => Some((address@, bump)),
                None => None,
            },
        ),
{
    derive_under(seeds, &Address { bytes: PROGRAM_ID })
}

/// The address that the seeds derive with the given bump, without a search:
/// `None` where they admit no address with that bump.
pub fn derive_with_bump(seeds: &Vec<Vec<u8>>, bump: u8) -> (r: Option<Address>)
    ensures
        match r {
            Some(address) => program_address(with_bump(seed_bytes(seeds@), bump), PROGRAM_ID@)
                == Some(address@),
            None => program_address(with_bump(seed_bytes(seeds@), bump), PROGRAM_ID@) is None,
        },
        !room_for_bump(seed_bytes(seeds@)) ==> r is None,
{
    let mut all: Vec<Vec<u8>> = Vec::new();
    let mut i: usize = 0;
    while i < seeds.len()
        invariant
            i <= seeds.len(),
            all@.len() == i,
            forall|j: int| 0 <= j < i ==> (#[trigger] all@[j])@ == seeds@[j]@,
        decreases seeds.len() - i,
    {
        all.push(copy_bytes(&seeds[i]));
        i += 1;
    }
    let mut last: Vec<u8> = Vec::new();
    last.push(bump);
    all.push(last);
    proof {
        assert(seed_bytes(all@) =~= with_bump(seed_bytes(seeds@), bump)) by {
            assert(last@ =~= seq![bump]);
        }
        if !room_for_bump(seed_bytes(seeds@)) {
            let s = seed_bytes(seeds@);
            if s.len() < MAX_SEEDS {
                let j = choose|j: int| 0 <= j < s.len() && !((#[trigger] s[j]).len() <= MAX_SEED_LEN);
                assert(seed_bytes(all@)[j] == s[j]);
            }
            assert(!seeds_within_limits(seed_bytes(all@)));
        }
    }
    create_program_address(&all, &Address { bytes: PROGRAM_ID })
}

/// A copy of the bytes.
fn copy_bytes(bytes: &Vec<u8>) -> (r: Vec<u8>)
    ensures
        r@ == bytes@,
{
    let mut out: Vec<u8> = Vec::new();
    let mut i: usize = 0;
    while i < bytes.len()
        invariant
            i <= bytes.len(),
            out@ == bytes@.take(i as int),
        decreases bytes.len() - i,
    {
        out.push(bytes[i]);
        proof {
            assert(bytes@.take(i as int).push(bytes@[i as int]) =~= bytes@.take(i + 1));
        }
        i += 1;
    }
    proof {
        assert(bytes@.take(bytes@.len() as int) =~= bytes@);
    }
    out
}

/// Derives the address of the balance account of `owner` for `asset`.
pub fn derive_associated(owner: &Address, asset: &Address) -> (r: Option<Address>)
    ensures
        match r {
            Some(address) => is_associated(owner@, asset@, address@),
            None => forall|a: Seq<u8>| !is_associated(owner@, asset@, a),
        },
{
    let mut seeds: Vec<Vec<u8>> = Vec::new();
    seeds.push(owner.to_vec());
    seeds.push(Address { bytes: TOKEN_PROGRAM_ID }.to_vec());
    seeds.push(asset.to_vec());
    proof {
        assert(seed_bytes(seeds@) =~= associated_seeds(owner@, asset@));
    }
    match derive_under(&seeds, &Address { bytes: ASSOCIATED_TOKEN_PROGRAM_ID }) {
        Some((address, bump)) => Some(address),
        None => {
            proof {
                lemma_derivation_unique_none(
                    associated_seeds(owner@, asset@),
                    ASSOCIATED_TOKEN_PROGRAM_ID@,
                );
            }
            None
        },
    }
}

/// Whether a derived address, if there is one, is the expected address.
pub fn is_same_address(derived: Option<Address>, expected: &Address) -> (r: bool)
    ensures
        r == (derived == Some(*expected)),
{
    match derived {
        Some(address) => address == *expected,
        None => false,
    }
}

/// Any two outcomes of a derivation from the same seeds under the same
/// program are the same outcome: the same address with the same bump, or
/// nothing both times.
pub proof fn lemma_derivation_unique(
    seeds: Seq<Seq<u8>>,
    program: Seq<u8>,
    first: Option<(Seq<u8>, u8)>,
    second: Option<(Seq<u8>, u8)>,
)
    requires
        derivation(seeds, program, first),
        derivation(seeds, program, second),
    ensures
        first == second,
{
    match (first, second) {
        (Some((a1, b1)), Some((a2, b2))) => {
            if b1 < b2 {
                assert(program_address(with_bump(seeds, b2), program) is None);
            } else if b2 < b1 {
                assert(program_address(with_bump(seeds, b1), program) is None);
            }
        },
        (Some((a1, b1)), None) => {
            assert(program_address(with_bump(seeds, b1), program) is None);
        },
        (None, Some((a2, b2))) => {
            assert(program_address(with_bump(seeds, b2), program) is None);
        },
        (None, None) => {},
    }
}

/// Where a derivation yields nothing, no address is derived from the seeds.
pub proof fn lemma_derivation_unique_none(seeds: Seq<Seq<u8>>, program: Seq<u8>)
    requires
        derivation(seeds, program, None),
    ensures
        forall|a: Seq<u8>| !is_derived(seeds, program, a),
{
    assert forall|a: Seq<u8>| !is_derived(seeds, program, a) by {
        if is_derived(seeds, program, a) {
            let bump = choose|bump: u8| derivation(seeds, program, Some((a, bump)));
            lemma_derivation_unique(seeds, program, None, Some((a, bump)));
        }
    }
}

impl Address {
    /// The address made of the given bytes.
    pub fn new(bytes: [u8; 32]) -> (r: Address)
        ensures
            r.bytes == bytes,
    {
        Address { bytes }
    }

    /// The bytes of the address.
    pub fn to_bytes(&self) -> (r: [u8; 32])
        ensures
            r == self.bytes,
    {
        self.bytes
    }

    /// The bytes of the address, as a byte string.
    pub fn to_vec(&self) -> (r: Vec<u8>)
        ensures
            r@ == self@,
    {
        let mut out: Vec<u8> = Vec::new();
        let mut i: usize = 0;
        while i < ADDRESS_LEN
            invariant
                i <= ADDRESS_LEN,
                out@ == self@.take(i as int),
            decreases ADDRESS_LEN - i,
        {
            out.push(self.bytes[i]);
            proof {
                assert(self@.take(i as int).push(self@[i as int]) =~= self@.take(i + 1));
            }
            i += 1;
        }
        proof {
            assert(self@.take(32) =~= self@);
        }
        out
    }

    /// Two addresses are the same address exactly when their bytes agree.
    pub proof fn lemma_same_bytes(self, other: Address)
        ensures
            (self@ == other@) == (self == other),
    {
        if self@ == other@ {
            assert(self.bytes =~= other.bytes);
        }
    }
}

} // verus!
