use vstd::prelude::*;
use anchor_lang::prelude::Pubkey;

verus! {

/// A 32-byte ledger address: a wallet, a mint, a program or a derived account.
#[derive(Clone, Copy, Debug)]
pub struct Address {
    pub bytes: [u8; 32],
}

/// Purpose tag of the derived address that holds the escrow record: `state` in ASCII.
pub open spec fn state_tag() -> Seq<u8> {
    seq![115u8, 116u8, 97u8, 116u8, 101u8]
}

/// Purpose tag of the derived address that holds the custody holding: `vault` in ASCII.
pub open spec fn vault_tag() -> Seq<u8> {
    seq![118u8, 97u8, 117u8, 108u8, 116u8]
}

/// The program-derived address for seeds `[tag, owner]` under `program`,
/// with the bump that made it valid, or `None` when no bump does.
pub uninterp spec fn program_address_of(tag: Seq<u8>, owner: Seq<u8>, program: Seq<u8>) -> Option<(Seq<u8>, u8)>;

/// A derivation result with its address seen as bytes.
pub open spec fn derived_view(d: Option<(Address, u8)>) -> Option<(Seq<u8>, u8)> {
    match d {
        Some((a, bump)) => Some((a.bytes@, bump)),
        None => None,
    }
}

/// The seed bytes of the record's derived address.
pub fn state_seed() -> (r: [u8; 5])
    ensures
        r@ == state_tag(),
{
    let r: [u8; 5] = [115, 116, 97, 116, 101];
    assert(r@ =~= state_tag());
    r
}

/// The seed bytes of the custody holding's derived address.
pub fn vault_seed() -> (r: [u8; 5])
    ensures
        r@ == vault_tag(),
{
    let r: [u8; 5] = [118, 97, 117, 108, 116];
    assert(r@ =~= vault_tag());
    r
}

/// Derives the address for seeds `[tag, owner]` under `program`.
pub fn find_program_address(tag: &[u8; 5], owner: &Address, program: &Address) -> (r: Option<(Address, u8)>)
    ensures
        derived_view(r) == program_address_of(tag@, owner.bytes@, program.bytes@),
{
    try_find_program_address(tag, owner, program)
}

impl Address {
    pub fn new(bytes: [u8; 32]) -> (r: Address)
        ensures
            r.bytes == bytes,
    {
        Address { bytes }
    }

    /// Byte-wise equality of two addresses.
    pub fn same(&self, other: &Address) -> (r: bool)
        ensures
            r == (*self == *other),
            r == (self.bytes@ == other.bytes@),
    {
        broadcast use vstd::array::group_array_axioms;
        let mut i: usize = 0;
        while i < 32
            invariant
                0 <= i <= 32,
                forall|j: int| 0 <= j < i ==> self.bytes[j] == other.bytes[j],
            decreases 32 - i,
        {
            if self.bytes[i] != other.bytes[i] {
                assert(self.bytes@[i as int] != other.bytes@[i as int]);
                return false;
            }
            i = i + 1;
        }
        assert(self.bytes =~= other.bytes);
        assert(self.bytes@ =~= other.bytes@);
        true
    }
}

/// Relies on `Pubkey::try_find_program_address`: the derived address and bump
/// for seeds `[tag, owner]` under `program`, or `None` when no bump gives an
/// address off the curve. The result depends on the seeds and program alone.
#[verifier::external_body]
fn try_find_program_address(tag: &[u8; 5], owner: &Address, program: &Address) -> (r: Option<(Address, u8)>)
    ensures
        derived_view(r) == program_address_of(tag@, owner.bytes@, program.bytes@),
{
    let program_key = Pubkey::new_from_array(program.bytes);
    match Pubkey::try_find_program_address(&[&tag[..], &owner.bytes[..]], &program_key) {
        Some((key, bump)) => Some((Address { bytes: key.to_bytes() }, bump)),
        None => None,
    }
}

} // verus!
