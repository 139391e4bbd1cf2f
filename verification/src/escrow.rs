//! Movements of funds between the three balances of a campaign.
//!
//! The engine never moves funds itself. It decides which movement an
//! operation calls for and hands it to the host ledger as a [`Transfer`].

use crate::identity::Identity;
use vstd::prelude::*;

verus! {

/// The tag under which the ledger derives the address of a campaign's
/// escrow balance from the campaign's identifier: the ASCII text `escrow`.
pub const ESCROW_SEED: [u8; 6] = [0x65, 0x73, 0x63, 0x72, 0x6f, 0x77];

/// One of the three balances that the funds of a campaign can sit in.
#[derive(Clone, Copy, Debug, PartialEq, Eq, Hash)]
pub enum Party {
    /// The balance of the brand that funds the campaign.
    Brand,
    /// The custody balance that belongs to the campaign itself.
    Escrow,
    /// The balance of the creator who is paid for engagement.
    Creator,
}

/// An instruction to the ledger to move `amount` units from one balance to
/// another on the authority of `authority`.
#[derive(Clone, Copy, Debug, PartialEq, Eq, Hash)]
pub struct Transfer {
    pub from: Party,
    pub to: Party,
    pub authority: Party,
    pub amount: u64,
}

impl Transfer {
    /// The deposit of a new campaign's budget: brand to escrow, signed by
    /// the brand.
    pub open spec fn deposit(amount: u64) -> Transfer {
        Transfer { from: Party::Brand, to: Party::Escrow, authority: Party::Brand, amount }
    }

    /// A payout: escrow to creator, on the escrow's own authority.
    pub open spec fn payout(amount: u64) -> Transfer {
        Transfer { from: Party::Escrow, to: Party::Creator, authority: Party::Escrow, amount }
    }

    /// A refund: escrow to brand, on the escrow's own authority.
    pub open spec fn refund(amount: u64) -> Transfer {
        Transfer { from: Party::Escrow, to: Party::Brand, authority: Party::Escrow, amount }
    }
}

/// The bytes of `bytes` as a vector.
fn to_vec<const N: usize>(bytes: &[u8; N]) -> (copied: Vec<u8>)
    ensures
        copied@ == bytes@,
{
    let mut copied: Vec<u8> = Vec::new();
    let mut i: usize = 0;
    while i < N
        invariant
            i <= N,
            copied@ == bytes@.take(i as int),
        decreases N - i,
    {
        copied.push(bytes[i]);
        assert(bytes@.take(i + 1) == bytes@.take(i as int).push(bytes@[i as int]));
        i += 1;
    }
    copied
}

/// The seeds with which the escrow balance of campaign `campaign_id` signs
/// for its own transfers: the escrow tag, the campaign's identifier and the
/// bump that the ledger found for the two.
pub fn escrow_signer_seeds(campaign_id: &Identity, bump: u8) -> (seeds: Vec<Vec<u8>>)
    ensures
        seeds@.len() == 3,
        seeds@[0]@ == ESCROW_SEED@,
        seeds@[1]@ == campaign_id@,
        seeds@[2]@ == seq![bump],
{
    let mut seeds: Vec<Vec<u8>> = Vec::new();
    seeds.push(to_vec(&ESCROW_SEED));
    seeds.push(to_vec(&campaign_id.bytes));
    let mut last: Vec<u8> = Vec::new();
    last.push(bump);
    seeds.push(last);
    seeds
}

} // verus!
