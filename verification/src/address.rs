//! Addresses of callers, programs and storage slots, and the derivation of a
//! slot's address under a program's authority.

use solana_program::pubkey::Pubkey;
use vstd::prelude::*;

verus! {

/// A 32-byte address: the identity of a caller, of a program or of a storage slot.
#[derive(Clone, Copy, Debug, PartialEq, Eq)]
pub struct Address {
    pub bytes: [u8; 32],
}

impl View for Address {
    type V = Seq<u8>;

    open spec fn view(&self) -> Seq<u8> {
        self.bytes@
    }
}

impl Address {
    pub fn new(bytes: [u8; 32]) -> (address: Address)
        ensures
            address.bytes == bytes,
    {
        Address { bytes }
    }

    /// Whether two addresses hold the same 32 bytes.
    pub fn same_as(&self, other: &Address) -> (same: bool)
        ensures
            same == (self@ == other@),
    {
        let mut i: usize = 0;
        while i < 32
            invariant
                i <= 32,
                forall|j: int| 0 <= j < i ==> self.bytes[j] == other.bytes[j],
            decreases 32 - i,
        {
            if self.bytes[i] != other.bytes[i] {
                assert(self@[i as int] != other@[i as int]);
                return false;
            }
            i += 1;
        }
        assert(self@ =~= other@);
        true
    }
}

/// What a derived address is for. The tag is the first seed of the derivation,
/// so that records of different kinds are derived from different seeds.
#[derive(Clone, Copy, Debug, PartialEq, Eq)]
pub enum Namespace {
    Reporter,
    Case,
}

impl Namespace {
    /// The seed bytes of the namespace: the ASCII text `reporter` or `case`.
    pub open spec fn tag(self) -> Seq<u8> {
        match self {
            Namespace::Reporter => seq![114u8, 101u8, 112u8, 111u8, 114u8, 116u8, 101u8, 114u8],
            Namespace::Case => seq![99u8, 97u8, 115u8, 101u8],
        }
    }

    pub fn tag_bytes(&self) -> (bytes: Vec<u8>)
        ensures
            bytes@ == self.tag(),
    {
        match self {
            Namespace::Reporter => vec![114u8, 101u8, 112u8, 111u8, 114u8, 116u8, 101u8, 114u8],
            Namespace::Case => vec![99u8, 97u8, 115u8, 101u8],
        }
    }
}

/// A derived address together with the bump seed that proves the derivation:
/// the witness under which the program may write to the address.
#[derive(Clone, Copy, Debug, PartialEq, Eq)]
pub struct DerivedAddress {
    pub address: Address,
    pub bump: u8,
}

/// The address and bump seed that the host derives for `seeds` under
/// `program_id`, or `None` where it finds none.
pub uninterp spec fn program_address(seeds: Seq<Seq<u8>>, program_id: Seq<u8>) -> Option<
    (Seq<u8>, u8),
>;

/// Calls `Pubkey::try_find_program_address` with the three seeds `tag`,
/// `parent`, `seed`. The outcome depends on the seeds and the program id
/// alone; it is `None` where no bump seed gives an address off the curve.
/// Nothing is proved of the hash behind it.
#[verifier::external_body]
fn find_program_address(tag: &[u8], parent: &[u8; 32], seed: &[u8], program_id: &[u8; 32]) -> (found:
    Option<([u8; 32], u8)>)
    ensures
        program_address(seq![tag@, parent@, seed@], program_id@) == match found {
            Some(pair) => Some((pair.0@, pair.1)),
            None => None,
        },
{
    let program = Pubkey::new_from_array(*program_id);
    Pubkey::try_find_program_address(&[tag, parent, seed], &program).map(
        |(address, bump)| (address.to_bytes(), bump),
    )
}

/// The seeds of a derivation: the namespace tag, the parent's address and the
/// seed of the record itself.
pub open spec fn derivation_seeds(namespace: Namespace, parent: Seq<u8>, seed: Seq<u8>) -> Seq<
    Seq<u8>,
> {
    seq![namespace.tag(), parent, seed]
}

/// The address of the record `seed` of kind `namespace` under `parent`, as
/// `program_id` derives it, with its bump seed.
pub open spec fn derived_address(
    namespace: Namespace,
    parent: Seq<u8>,
    seed: Seq<u8>,
    program_id: Seq<u8>,
) -> Option<(Seq<u8>, u8)> {
    program_address(derivation_seeds(namespace, parent, seed), program_id)
}

/// Derives the address of a record from its namespace, its parent and its own
/// seed. The same inputs always give the same address and bump seed.
pub fn derive_address(
    namespace: Namespace,
    parent: &Address,
    seed: &[u8],
    program_id: &Address,
) -> (derived: Option<DerivedAddress>)
    ensures
        derived_address(namespace, parent@, seed@, program_id@) == match derived {
            Some(d) => Some((d.address@, d.bump)),
            None => None,
        },
{
    let tag = namespace.tag_bytes();
    match find_program_address(tag.as_slice(), &parent.bytes, seed, &program_id.bytes) {
        Some((bytes, bump)) => Some(DerivedAddress { address: Address { bytes }, bump }),
        None => None,
    }
}

} // verus!
