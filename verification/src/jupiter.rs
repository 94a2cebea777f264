//! The swap venue: where it lives, and the data of a call to it.

use crate::pubkey::Pubkey;
use vstd::prelude::*;

verus! {

/// The bytes of the address of the swap venue's program.
pub const JUPITER_V6_ID: [u8; 32] = [
    4, 121, 213, 91, 242, 49, 192, 110, 238, 116, 197, 110, 206, 104, 21, 7,
    253, 177, 178, 222, 163, 244, 142, 81, 2, 177, 205, 162, 86, 188, 19, 143,
];

/// The address of the swap venue's program.
pub fn jupiter_v6_id() -> (id: Pubkey)
    ensures
        id.bytes == JUPITER_V6_ID,
{
    Pubkey { bytes: JUPITER_V6_ID }
}

/// The tag with which the data of a route-swap call begins.
pub const ROUTE_SWAP_TAG: u8 = 4;

/// What a route-swap call tells the venue.
#[derive(Clone, Copy, Debug)]
pub struct RouteSwapParams {
    /// The quantity to sell.
    pub in_amount: u64,
    /// The quote to execute.
    pub quote_id: [u8; 32],
    /// The slippage the caller tolerates, in basis points.
    pub slippage_bps: u16,
}

/// The `width` low bytes of a number, lowest first.
pub open spec fn le_bytes(value: nat, width: nat) -> Seq<u8>
    decreases width,
{
    if width == 0 {
        Seq::empty()
    } else {
        seq![(value % 256) as u8] + le_bytes(value / 256, (width - 1) as nat)
    }
}

/// The data of a call: the tag, the quantity in eight bytes, the quote, and
/// the slippage in two bytes, numbers lowest byte first.
pub open spec fn call_data(tag: u8, in_amount: u64, quote_id: Seq<u8>, slippage_bps: u16) -> Seq<
    u8,
> {
    seq![tag] + le_bytes(in_amount as nat, 8) + quote_id + le_bytes(slippage_bps as nat, 2)
}

/// Calls `AnchorSerialize::try_to_vec` of `anchor_lang`, which is borsh's
/// `BorshSerialize::try_to_vec`, on the tag and the three fields as a tuple.
/// Borsh writes a tuple as its members in turn, a `u8` as itself, a `u64`
/// and a `u16` as their bytes lowest first, and an array of bytes as it
/// stands; the contract says that and no more.  Writing into a vector does
/// not fail, so the bytes are always there.
#[verifier::external_body]
fn borsh_call_data(tag: u8, in_amount: u64, quote_id: &[u8; 32], slippage_bps: u16) -> (data:
    Option<Vec<u8>>)
    ensures
        data is Some,
        data->0@ == call_data(tag, in_amount, quote_id@, slippage_bps),
{
    anchor_lang::AnchorSerialize::try_to_vec(&(tag, (in_amount, *quote_id, slippage_bps))).ok()
}

impl RouteSwapParams {
    /// The data of the call that carries these parameters.
    pub open spec fn spec_instruction_data(self) -> Seq<u8> {
        call_data(ROUTE_SWAP_TAG, self.in_amount, self.quote_id@, self.slippage_bps)
    }

    /// The data of the call that carries these parameters: 43 bytes.
    pub fn instruction_data(&self) -> (data: Vec<u8>)
        ensures
            data@ == self.spec_instruction_data(),
            data@.len() == 43,
            data@[0] == ROUTE_SWAP_TAG,
    {
        let data = borsh_call_data(
            ROUTE_SWAP_TAG,
            self.in_amount,
            &self.quote_id,
            self.slippage_bps,
        ).unwrap();
        proof {
            lemma_le_bytes_len(self.in_amount as nat, 8);
            lemma_le_bytes_len(self.slippage_bps as nat, 2);
        }
        data
    }
}

/// `le_bytes` gives as many bytes as it is asked for.
pub proof fn lemma_le_bytes_len(value: nat, width: nat)
    ensures
        le_bytes(value, width).len() == width,
    decreases width,
{
    if width > 0 {
        lemma_le_bytes_len(value / 256, (width - 1) as nat);
    }
}

} // verus!
