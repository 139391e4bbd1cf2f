//! The life of a campaign as a sequence of operations, and what holds of
//! every such life.

use crate::campaign::{lemma_fresh_is_well_formed, lemma_total_due_monotonic, Campaign};
use crate::engine::{
    accept_campaign, close_campaign, settle_payout, update_metrics, AcceptCampaign, CloseCampaign,
    SettlePayout, UpdateMetrics,
};
use crate::error::ErrorCode;
use crate::escrow::{Party, Transfer};
use crate::identity::Identity;
use vstd::prelude::*;

verus! {

/// One operation on an existing campaign, with what the ledger supplies
/// for it: the authenticated caller, or the reading of its clock.
#[derive(Clone, Copy, Debug, PartialEq, Eq)]
pub enum Operation {
    /// `caller` accepts the campaign.
    Accept { caller: Identity },
    /// `oracle` reports the cumulative views and likes; `authority` is the
    /// reporter that is designated for the system.
    UpdateMetrics { oracle: Identity, authority: Identity, new_views: u64, new_likes: u64 },
    /// Someone asks for a settlement; the ledger's clock reads `now`.
    SettlePayout { now: i64 },
    /// `caller` closes the campaign.
    Close { caller: Identity },
}

/// What `transfer` adds to the balance of `party`.
pub open spec fn received(transfer: Option<Transfer>, party: Party) -> int {
    match transfer {
        Some(t) => if t.to == party {
            t.amount as int
        } else {
            0
        },
        None => 0,
    }
}

impl Campaign {
    /// Why `op` is refused on this record, if it is.
    pub open spec fn step_error(self, op: Operation) -> Option<ErrorCode> {
        match op {
            Operation::Accept { caller } => self.accept_error(caller),
            Operation::UpdateMetrics { oracle, authority, new_views, new_likes } => {
                self.update_error(oracle, authority, new_views, new_likes)
            },
            Operation::SettlePayout { now } => self.settle_error(),
            Operation::Close { caller } => self.close_error(caller),
        }
    }

    /// The record after `op`: changed as the operation says, or not at all
    /// where the operation is refused.
    pub open spec fn step(self, op: Operation) -> Campaign {
        if self.step_error(op) is Some {
            self
        } else {
            match op {
                Operation::Accept { caller } => self.accepted(),
                Operation::UpdateMetrics { oracle, authority, new_views, new_likes } => {
                    self.updated(new_views, new_likes)
                },
                Operation::SettlePayout { now } => self.settled(now),
                Operation::Close { caller } => self.closed(),
            }
        }
    }

    /// The movement of funds that `op` asks the ledger for; none where the
    /// operation is refused.
    pub open spec fn step_transfer(self, op: Operation) -> Option<Transfer> {
        if self.step_error(op) is Some {
            None
        } else {
            match op {
                Operation::Accept { caller } => None,
                Operation::UpdateMetrics { oracle, authority, new_views, new_likes } => None,
                Operation::SettlePayout { now } => self.settle_transfer(),
                Operation::Close { caller } => self.close_transfer(),
            }
        }
    }

    /// The record after the operations `ops`, applied in order.
    pub open spec fn after(self, ops: Seq<Operation>) -> Campaign
        decreases ops.len(),
    {
        if ops.len() == 0 {
            self
        } else {
            self.after(ops.drop_last()).step(ops.last())
        }
    }

    /// The sum of what the operations `ops`, applied in order, move to the
    /// balance of `party`.
    pub open spec fn moved_to(self, ops: Seq<Operation>, party: Party) -> int
        decreases ops.len(),
    {
        if ops.len() == 0 {
            0
        } else {
            self.moved_to(ops.drop_last(), party) + received(
                self.after(ops.drop_last()).step_transfer(ops.last()),
                party,
            )
        }
    }

    /// The sum of the payouts that `ops` release to the creator.
    pub open spec fn paid_out(self, ops: Seq<Operation>) -> int {
        self.moved_to(ops, Party::Creator)
    }

    /// The sum of the refunds that `ops` hand back to the brand.
    pub open spec fn refunded(self, ops: Seq<Operation>) -> int {
        self.moved_to(ops, Party::Brand)
    }
}

/// Applies one operation to the record.
///
/// Returns the movement of funds to carry out, if the operation calls for
/// one. A refused operation returns its error and leaves the record as it
/// was.
pub fn apply(
    campaign: &mut Campaign,
    op: Operation,
) -> (result: Result<Option<Transfer>, ErrorCode>)
    ensures
        match result {
            Ok(transfer) => {
                &&& old(campaign).step_error(op) is None
                &&& transfer == old(campaign).step_transfer(op)
            },
            Err(e) => old(campaign).step_error(op) == Some(e),
        },
        *final(campaign) == old(campaign).step(op),
        old(campaign).well_formed() ==> final(campaign).well_formed(),
{
    match op {
        Operation::Accept { caller } => {
            let mut ctx = AcceptCampaign { campaign: *campaign, creator: caller };
            let outcome = accept_campaign(&mut ctx);
            *campaign = ctx.campaign;
            match outcome {
                Ok(()) => Ok(None),
                Err(e) => Err(e),
            }
        },
        Operation::UpdateMetrics { oracle, authority, new_views, new_likes } => {
            let mut ctx = UpdateMetrics { campaign: *campaign, oracle, authority };
            let outcome = update_metrics(&mut ctx, new_views, new_likes);
            *campaign = ctx.campaign;
            match outcome {
                Ok(()) => Ok(None),
                Err(e) => Err(e),
            }
        },
        Operation::SettlePayout { now } => {
            let mut ctx = SettlePayout { campaign: *campaign, now };
            let outcome = settle_payout(&mut ctx);
            *campaign = ctx.campaign;
            outcome
        },
        Operation::Close { caller } => {
            let mut ctx = CloseCampaign { campaign: *campaign, brand: caller };
            let outcome = close_campaign(&mut ctx);
            *campaign = ctx.campaign;
            outcome
        },
    }
}

/// One operation keeps the terms, lowers no counter and no total paid,
/// raises no escrow, keeps a well-formed record well-formed, and moves out
/// of the escrow exactly what it hands to the creator or to the brand.
pub proof fn lemma_step(campaign: Campaign, op: Operation)
    ensures
        campaign.step(op).same_terms(campaign),
        campaign.step(op).views >= campaign.views,
        campaign.step(op).likes >= campaign.likes,
        campaign.step(op).total_paid >= campaign.total_paid,
        campaign.step(op).escrow_balance <= campaign.escrow_balance,
        campaign.well_formed() ==> campaign.step(op).well_formed(),
        received(campaign.step_transfer(op), Party::Escrow) == 0,
        campaign.step(op).total_paid == campaign.total_paid + received(
            campaign.step_transfer(op),
            Party::Creator,
        ),
        campaign.step(op).escrow_balance + received(campaign.step_transfer(op), Party::Creator)
            + received(campaign.step_transfer(op), Party::Brand) == campaign.escrow_balance,
{
    match op {
        Operation::UpdateMetrics { oracle, authority, new_views, new_likes } => {
            if campaign.step_error(op) is None {
                lemma_total_due_monotonic(campaign, campaign.updated(new_views, new_likes));
            }
        },
        _ => {},
    }
}

/// Funds are conserved over the whole life of a campaign: after any
/// operations on a campaign as creation left it, what the escrow holds, what
/// was paid to the creator and what was refunded to the brand add up to the
/// budget deposited at creation. The total paid on record is the sum of the
/// payouts released.
pub proof fn lemma_funds_conserved(created: Campaign, ops: Seq<Operation>)
    requires
        created.fresh(),
    ensures
        created.after(ops).escrow_balance + created.after(ops).total_paid + created.refunded(ops)
            == created.max_budget,
        created.after(ops).total_paid == created.paid_out(ops),
        created.after(ops).max_budget == created.max_budget,
{
    lemma_escrow_accounted_for(created, ops);
    lemma_history_monotonic(created, ops);
}

/// The creator is never overpaid: after any operations on a campaign as
/// creation left it, the total paid exceeds neither the budget nor what the
/// engagement on record is worth.
pub proof fn lemma_never_overpaid(created: Campaign, ops: Seq<Operation>)
    requires
        created.valid_terms(),
        created.fresh(),
    ensures
        created.after(ops).total_paid <= created.max_budget,
        created.after(ops).total_paid <= created.after(ops).total_due(),
{
    lemma_fresh_is_well_formed(created);
    lemma_history_well_formed(created, ops);
}

/// From any record on, what leaves the escrow is what the operations hand to
/// the creator and to the brand, and the total paid grows by the payouts.
pub proof fn lemma_escrow_accounted_for(campaign: Campaign, ops: Seq<Operation>)
    ensures
        campaign.after(ops).escrow_balance + campaign.paid_out(ops) + campaign.refunded(ops)
            == campaign.escrow_balance,
        campaign.after(ops).total_paid == campaign.total_paid + campaign.paid_out(ops),
        campaign.paid_out(ops) >= 0,
        campaign.refunded(ops) >= 0,
    decreases ops.len(),
{
    if ops.len() > 0 {
        lemma_escrow_accounted_for(campaign, ops.drop_last());
        lemma_step(campaign.after(ops.drop_last()), ops.last());
    }
}

/// Over any sequence of operations the terms of the campaign stay what they
/// were, views, likes and the total paid never decrease, and the escrow
/// never grows.
pub proof fn lemma_history_monotonic(campaign: Campaign, ops: Seq<Operation>)
    ensures
        campaign.after(ops).same_terms(campaign),
        campaign.after(ops).views >= campaign.views,
        campaign.after(ops).likes >= campaign.likes,
        campaign.after(ops).total_paid >= campaign.total_paid,
        campaign.after(ops).escrow_balance <= campaign.escrow_balance,
    decreases ops.len(),
{
    if ops.len() > 0 {
        lemma_history_monotonic(campaign, ops.drop_last());
        lemma_step(campaign.after(ops.drop_last()), ops.last());
    }
}

/// A well-formed record stays well-formed over any sequence of operations.
/// So the total paid never exceeds the budget, and never exceeds what the
/// engagement on record is worth.
pub proof fn lemma_history_well_formed(campaign: Campaign, ops: Seq<Operation>)
    requires
        campaign.well_formed(),
    ensures
        campaign.after(ops).well_formed(),
        campaign.after(ops).total_paid <= campaign.max_budget,
        campaign.after(ops).total_paid <= campaign.after(ops).total_due(),
    decreases ops.len(),
{
    if ops.len() > 0 {
        lemma_history_well_formed(campaign, ops.drop_last());
        lemma_step(campaign.after(ops.drop_last()), ops.last());
    }
    lemma_history_monotonic(campaign, ops);
}

/// Only the designated oracle moves the counters: over any operations among
/// which there is no report by the reporter that is designated, views and
/// likes stay what they were.
pub proof fn lemma_counters_move_only_by_oracle(campaign: Campaign, ops: Seq<Operation>)
    requires
        forall|i: int|
            0 <= i < ops.len() ==> (#[trigger] ops[i] matches Operation::UpdateMetrics {
                oracle,
                authority,
                ..
            } ==> oracle != authority),
    ensures
        campaign.after(ops).views == campaign.views,
        campaign.after(ops).likes == campaign.likes,
    decreases ops.len(),
{
    if ops.len() > 0 {
        lemma_counters_move_only_by_oracle(campaign, ops.drop_last());
        assert(ops.last() == ops[ops.len() - 1]);
    }
}

/// A campaign is not active before its creator has accepted it: a record
/// that is not active stays so over any operations among which there is no
/// acceptance by the creator.
pub proof fn lemma_inactive_until_accepted(campaign: Campaign, ops: Seq<Operation>)
    requires
        !campaign.is_active,
        forall|i: int|
            0 <= i < ops.len() ==> ops[i] != (Operation::Accept { caller: campaign.creator }),
    ensures
        !campaign.after(ops).is_active,
    decreases ops.len(),
{
    if ops.len() > 0 {
        lemma_inactive_until_accepted(campaign, ops.drop_last());
        lemma_history_monotonic(campaign, ops.drop_last());
    }
}

/// A close is final and refunds once: whatever operations follow a close
/// that was not refused, the campaign is never active again, its escrow
/// stays empty, and nothing more is paid out or refunded.
pub proof fn lemma_closed_for_good(campaign: Campaign, ops: Seq<Operation>)
    ensures
        !campaign.closed().after(ops).is_active,
        campaign.closed().after(ops).escrow_balance == 0,
        campaign.closed().after(ops).total_paid == campaign.total_paid,
        campaign.closed().paid_out(ops) == 0,
        campaign.closed().refunded(ops) == 0,
    decreases ops.len(),
{
    lemma_escrow_accounted_for(campaign.closed(), ops);
    if ops.len() > 0 {
        lemma_closed_for_good(campaign, ops.drop_last());
    }
}

/// A settlement leaves nothing for the next one: after a settlement that was
/// not refused, and with no report in between, nothing is due. A second
/// settlement, at whatever time, moves no funds and changes nothing.
pub proof fn lemma_second_settlement_pays_nothing(campaign: Campaign, first: i64, second: i64)
    requires
        campaign.settle_error() is None,
    ensures
        campaign.settle_transfer() is Some <==> campaign.outstanding() > 0
            && campaign.escrow_balance > 0,
        campaign.settle_transfer() matches Some(t) ==> t.amount > 0,
        campaign.settled(first).payout_due() == 0,
        campaign.settled(first).step_transfer(Operation::SettlePayout { now: second }) is None,
        campaign.settled(first).step(Operation::SettlePayout { now: second })
            == campaign.settled(first),
{
}

} // verus!
