//! The campaign record and the quantities that settlement is computed from.

use crate::identity::Identity;
use vstd::prelude::*;

verus! {

/// The persistent record of one campaign: its terms, the engagement reported
/// so far and the state of its funds.
#[derive(Clone, Copy, Debug, PartialEq, Eq)]
pub struct Campaign {
    /// Identifier chosen by the brand; never changes.
    pub campaign_id: Identity,
    /// The party that funds the campaign; never changes.
    pub brand: Identity,
    /// The party that is paid; never changes.
    pub creator: Identity,
    /// Payout per 1,000 effective views.
    pub cpm: u64,
    /// How many views one like counts for.
    pub like_weight: u64,
    /// The amount deposited at creation.
    pub max_budget: u64,
    /// The amount still held in escrow.
    pub escrow_balance: u64,
    /// Cumulative views reported.
    pub views: u64,
    /// Cumulative likes reported.
    pub likes: u64,
    /// Start of the validity window.
    pub start_time: i64,
    /// End of the validity window.
    pub end_time: i64,
    /// Whether the campaign has been accepted and has not ended.
    pub is_active: bool,
    /// Cumulative amount released to the creator.
    pub total_paid: u64,
}

impl Campaign {
    /// Views plus likes weighted by `like_weight`.
    pub open spec fn effective_views(self) -> int {
        self.views + self.likes * self.like_weight
    }

    /// What the engagement on record is worth in total: `cpm` for every
    /// full thousand of effective views.
    pub open spec fn total_due(self) -> int {
        (self.effective_views() / 1000) * self.cpm
    }

    /// The part of `total_due` that has not been paid yet; never negative.
    pub open spec fn outstanding(self) -> int {
        if self.total_due() > self.total_paid {
            self.total_due() - self.total_paid
        } else {
            0
        }
    }

    /// What a settlement would release now: the outstanding amount, capped
    /// by what the escrow still holds.
    pub open spec fn payout_due(self) -> int {
        if self.outstanding() < self.escrow_balance {
            self.outstanding()
        } else {
            self.escrow_balance as int
        }
    }

    /// The terms and the parties of the campaign, which no operation changes.
    pub open spec fn same_terms(self, other: Campaign) -> bool {
        &&& self.campaign_id == other.campaign_id
        &&& self.brand == other.brand
        &&& self.creator == other.creator
        &&& self.cpm == other.cpm
        &&& self.like_weight == other.like_weight
        &&& self.max_budget == other.max_budget
        &&& self.start_time == other.start_time
        &&& self.end_time == other.end_time
    }

    /// The terms that a campaign can be created with: a rate, a like weight
    /// and a budget above zero, and a window that ends after it starts.
    pub open spec fn valid_terms(self) -> bool {
        &&& self.cpm > 0
        &&& self.like_weight > 0
        &&& self.max_budget > 0
        &&& self.end_time > self.start_time
    }

    /// The state in which creation leaves a campaign: the whole budget in
    /// escrow, nothing reported, nothing paid, not yet accepted.
    pub open spec fn fresh(self) -> bool {
        &&& self.escrow_balance == self.max_budget
        &&& self.views == 0
        &&& self.likes == 0
        &&& self.total_paid == 0
        &&& !self.is_active
    }

    /// What holds of the record of every campaign at every moment of its
    /// life: the terms are valid, escrow and payouts stay within the budget,
    /// nothing was paid that the engagement on record does not cover, and a
    /// campaign that is active holds funds.
    pub open spec fn well_formed(self) -> bool {
        &&& self.valid_terms()
        &&& self.escrow_balance + self.total_paid <= self.max_budget
        &&& self.total_paid <= self.total_due()
        &&& self.is_active ==> self.escrow_balance > 0
    }

    /// The effective views, where they fit in 64 bits.
    pub fn checked_effective_views(&self) -> (effective: Option<u64>)
        ensures
            self.effective_views() <= u64::MAX ==> effective == Some(
                self.effective_views() as u64,
            ),
            self.effective_views() > u64::MAX ==> effective is None,
    {
        match self.likes.checked_mul(self.like_weight) {
            Some(weighted) => self.views.checked_add(weighted),
            None => None,
        }
    }

    /// The total due, where it and the effective views fit in 64 bits.
    pub fn checked_total_due(&self) -> (due: Option<u64>)
        ensures
            self.effective_views() <= u64::MAX && self.total_due() <= u64::MAX ==> due == Some(
                self.total_due() as u64,
            ),
            self.effective_views() > u64::MAX || self.total_due() > u64::MAX ==> due is None,
    {
        match self.checked_effective_views() {
            Some(effective) => (effective / 1000).checked_mul(self.cpm),
            None => None,
        }
    }
}

/// With no views and no likes on record nothing is due.
pub proof fn lemma_nothing_due_without_engagement(campaign: Campaign)
    requires
        campaign.views == 0,
        campaign.likes == 0,
    ensures
        campaign.effective_views() == 0,
        campaign.total_due() == 0,
{
    let w = campaign.like_weight as int;
    let r = campaign.cpm as int;
    assert(0 * w == 0) by (nonlinear_arith);
    assert(0 * r == 0) by (nonlinear_arith);
}

/// A campaign as creation leaves it, with valid terms, is well-formed.
pub proof fn lemma_fresh_is_well_formed(campaign: Campaign)
    requires
        campaign.valid_terms(),
        campaign.fresh(),
    ensures
        campaign.well_formed(),
{
    lemma_nothing_due_without_engagement(campaign);
}

/// More engagement is never worth less: the total due grows with views and
/// with likes, the terms staying the same.
pub proof fn lemma_total_due_monotonic(before: Campaign, after: Campaign)
    requires
        before.same_terms(after),
        before.views <= after.views,
        before.likes <= after.likes,
    ensures
        before.effective_views() <= after.effective_views(),
        before.total_due() <= after.total_due(),
{
    let w = before.like_weight as int;
    let r = before.cpm as int;
    let (l1, l2) = (before.likes as int, after.likes as int);
    assert(l1 * w <= l2 * w) by (nonlinear_arith)
        requires
            l1 <= l2,
            0 <= w,
    ;
    let (q1, q2) = (before.effective_views() / 1000, after.effective_views() / 1000);
    assert(q1 <= q2);
    assert(q1 * r <= q2 * r) by (nonlinear_arith)
        requires
            q1 <= q2,
            0 <= r,
    ;
}

} // verus!
