//! Account identities.

use vstd::prelude::*;

verus! {

broadcast use vstd::array::group_array_axioms;

/// A 32-byte account identity.
#[derive(Debug, Clone, Copy)]
pub struct Pubkey {
    pub bytes: [u8; 32],
}

impl Pubkey {
    pub fn new(bytes: [u8; 32]) -> (r: Pubkey)
        ensures
            r.bytes == bytes,
    {
        Pubkey { bytes }
    }

    /// The bytes of the wrapped native asset's identity.
    pub open spec fn native_mint_bytes() -> Seq<u8> {
        seq![
            6u8, 155, 136, 87, 254, 171, 129, 132, 251, 104, 127, 99, 70, 24, 192, 53, 218, 196,
            57, 220, 26, 235, 59, 85, 152, 160, 240, 0, 0, 0, 0, 1,
        ]
    }

    /// The identity of the wrapped native asset.
    pub fn native_mint() -> (r: Pubkey)
        ensures
            r.bytes@ == Self::native_mint_bytes(),
    {
        Pubkey { bytes: native_mint_id() }
    }
}

/// Relies on `spl_token::native_mint::id()`, which spl-token declares as
/// `So11111111111111111111111111111111111111112`: its 32 bytes.
#[verifier::external_body]
fn native_mint_id() -> (r: [u8; 32])
    ensures
        r@ == Pubkey::native_mint_bytes(),
{
    anchor_spl::token::spl_token::native_mint::id().to_bytes()
}

impl PartialEq for Pubkey {
    fn eq(&self, other: &Pubkey) -> (r: bool) {
        let mut i: usize = 0;
        while i < 32
            invariant
                i <= 32,
                forall|j: int| 0 <= j < i ==> self.bytes@[j] == other.bytes@[j],
            decreases 32 - i,
        {
            if self.bytes[i] != other.bytes[i] {
                proof {
                    assert(self.bytes@[i as int] != other.bytes@[i as int]);
                }
                return false;
            }
            i = i + 1;
        }
        proof {
            assert(self.bytes =~= other.bytes);
            assert(*self == *other);
        }
        true
    }
}

impl vstd::std_specs::cmp::PartialEqSpecImpl for Pubkey {
    open spec fn obeys_eq_spec() -> bool {
        true
    }

    open spec fn eq_spec(&self, other: &Pubkey) -> bool {
        *self == *other
    }
}

} // verus!
