//! The five operations on a campaign.
//!
//! Each operation takes the record, and what the ledger has established about
//! the caller, in a context of its own. It returns the movement of funds that
//! the ledger has to carry out for the operation to take effect. On an error
//! the context is left exactly as it was.

use crate::campaign::{lemma_fresh_is_well_formed, lemma_total_due_monotonic, Campaign};
use crate::error::ErrorCode;
use crate::escrow::{Party, Transfer};
use crate::identity::Identity;
use vstd::prelude::*;

verus! {

/// Context of a creation: the brand that signs for the deposit.
#[derive(Clone, Copy, Debug, PartialEq, Eq)]
pub struct CreateCampaign {
    pub brand: Identity,
}

/// Context of an acceptance: the record, and the identity that the ledger
/// has authenticated as the caller in the role of the creator.
#[derive(Clone, Copy, Debug, PartialEq, Eq)]
pub struct AcceptCampaign {
    pub campaign: Campaign,
    pub creator: Identity,
}

/// Context of a metrics report: the record, the identity that the ledger has
/// authenticated as the caller in the role of the oracle, and the one
/// reporter that is designated for the whole system. Only a report by the
/// designated reporter is taken.
#[derive(Clone, Copy, Debug, PartialEq, Eq)]
pub struct UpdateMetrics {
    pub campaign: Campaign,
    pub oracle: Identity,
    pub authority: Identity,
}

/// Context of a settlement: the record, and the reading of the ledger's
/// clock under which the operation commits. Anyone may ask for a settlement.
#[derive(Clone, Copy, Debug, PartialEq, Eq)]
pub struct SettlePayout {
    pub campaign: Campaign,
    pub now: i64,
}

/// Context of a close: the record, and the identity that the ledger has
/// authenticated as the caller in the role of the brand.
#[derive(Clone, Copy, Debug, PartialEq, Eq)]
pub struct CloseCampaign {
    pub campaign: Campaign,
    pub brand: Identity,
}

/// Why a campaign with these terms cannot be created, if it cannot: the
/// first of rate, budget, window and like weight that is not valid.
pub open spec fn create_error(
    cpm: u64,
    like_weight: u64,
    max_budget: u64,
    start_time: i64,
    end_time: i64,
) -> Option<ErrorCode> {
    if cpm == 0 {
        Some(ErrorCode::InvalidCPM)
    } else if max_budget == 0 {
        Some(ErrorCode::InvalidBudget)
    } else if end_time <= start_time {
        Some(ErrorCode::InvalidTimeRange)
    } else if like_weight == 0 {
        Some(ErrorCode::InvalidLikeWeight)
    } else {
        None
    }
}

impl Campaign {
    /// The record of a campaign that has just been created: the terms as
    /// given, the whole budget in escrow, and nothing else yet.
    pub open spec fn created(
        campaign_id: Identity,
        brand: Identity,
        creator: Identity,
        cpm: u64,
        like_weight: u64,
        max_budget: u64,
        start_time: i64,
        end_time: i64,
    ) -> Campaign {
        Campaign {
            campaign_id,
            brand,
            creator,
            cpm,
            like_weight,
            max_budget,
            escrow_balance: max_budget,
            views: 0,
            likes: 0,
            start_time,
            end_time,
            is_active: false,
            total_paid: 0,
        }
    }

    /// Why `caller` cannot accept the campaign, if they cannot.
    pub open spec fn accept_error(self, caller: Identity) -> Option<ErrorCode> {
        if self.creator != caller {
            Some(ErrorCode::UnauthorizedCreator)
        } else if self.is_active {
            Some(ErrorCode::CampaignAlreadyActive)
        } else if self.escrow_balance == 0 {
            Some(ErrorCode::NoFundsInEscrow)
        } else {
            None
        }
    }

    /// The record after its acceptance.
    pub open spec fn accepted(self) -> Campaign {
        Campaign { is_active: true, ..self }
    }

    /// Why a report of `new_views` and `new_likes` by `caller` is refused, if
    /// it is, where `authority` is the designated reporter.
    pub open spec fn update_error(
        self,
        caller: Identity,
        authority: Identity,
        new_views: u64,
        new_likes: u64,
    ) -> Option<ErrorCode> {
        if caller != authority {
            Some(ErrorCode::UnauthorizedOracle)
        } else if !self.is_active {
            Some(ErrorCode::CampaignNotActive)
        } else if new_views < self.views || new_likes < self.likes {
            Some(ErrorCode::MetricsCannotDecrease)
        } else {
            None
        }
    }

    /// The record with the reported totals in place of the old ones.
    pub open spec fn updated(self, new_views: u64, new_likes: u64) -> Campaign {
        Campaign { views: new_views, likes: new_likes, ..self }
    }

    /// Why a settlement is refused, if it is: the campaign is not active, or
    /// what is due cannot be computed in 64 bits.
    pub open spec fn settle_error(self) -> Option<ErrorCode> {
        if !self.is_active {
            Some(ErrorCode::CampaignNotActive)
        } else if self.effective_views() > u64::MAX || self.total_due() > u64::MAX {
            Some(ErrorCode::ArithmeticOverflow)
        } else {
            None
        }
    }

    /// The record after a settlement at time `now`. With nothing to pay the
    /// record stays as it is. Otherwise the payout moves from the escrow to
    /// the total paid, and the campaign ends if that empties the escrow or
    /// if its window has passed.
    pub open spec fn settled(self, now: i64) -> Campaign {
        if self.payout_due() == 0 {
            self
        } else {
            Campaign {
                escrow_balance: (self.escrow_balance - self.payout_due()) as u64,
                total_paid: (self.total_paid + self.payout_due()) as u64,
                is_active: self.is_active && self.escrow_balance > self.payout_due() && now
                    <= self.end_time,
                ..self
            }
        }
    }

    /// The payout that a settlement asks the ledger for, if any.
    pub open spec fn settle_transfer(self) -> Option<Transfer> {
        if self.payout_due() == 0 {
            None
        } else {
            Some(Transfer::payout(self.payout_due() as u64))
        }
    }

    /// Why `caller` cannot close the campaign, if they cannot.
    pub open spec fn close_error(self, caller: Identity) -> Option<ErrorCode> {
        if self.brand != caller {
            Some(ErrorCode::UnauthorizedBrand)
        } else {
            None
        }
    }

    /// The record after a close: the escrow empty, the campaign ended.
    pub open spec fn closed(self) -> Campaign {
        Campaign { escrow_balance: 0, is_active: false, ..self }
    }

    /// The refund that a close asks the ledger for, if the escrow holds
    /// anything.
    pub open spec fn close_transfer(self) -> Option<Transfer> {
        if self.escrow_balance == 0 {
            None
        } else {
            Some(Transfer::refund(self.escrow_balance))
        }
    }
}

/// Creates a campaign on behalf of the brand in `ctx`.
///
/// Returns the new record and the deposit of the whole budget that the
/// ledger has to carry out together with storing the record. With invalid
/// terms there is no record and no deposit.
pub fn create_campaign(
    ctx: &CreateCampaign,
    campaign_id: Identity,
    cpm: u64,
    like_weight: u64,
    max_budget: u64,
    creator: Identity,
    start_time: i64,
    end_time: i64,
) -> (result: Result<(Campaign, Transfer), ErrorCode>)
    ensures
        match result {
            Ok((campaign, deposit)) => {
                &&& create_error(cpm, like_weight, max_budget, start_time, end_time) is None
                &&& campaign == Campaign::created(
                    campaign_id,
                    ctx.brand,
                    creator,
                    cpm,
                    like_weight,
                    max_budget,
                    start_time,
                    end_time,
                )
                &&& deposit == Transfer::deposit(max_budget)
                &&& campaign.fresh()
                &&& campaign.well_formed()
            },
            Err(e) => create_error(cpm, like_weight, max_budget, start_time, end_time) == Some(e),
        },
        result is Err <==> cpm == 0 || max_budget == 0 || like_weight == 0 || end_time
            <= start_time,
{
    if cpm == 0 {
        return Err(ErrorCode::InvalidCPM);
    }
    if max_budget == 0 {
        return Err(ErrorCode::InvalidBudget);
    }
    if end_time <= start_time {
        return Err(ErrorCode::InvalidTimeRange);
    }
    if like_weight == 0 {
        return Err(ErrorCode::InvalidLikeWeight);
    }
    let campaign = Campaign {
        campaign_id,
        brand: ctx.brand,
        creator,
        cpm,
        like_weight,
        max_budget,
        escrow_balance: max_budget,
        views: 0,
        likes: 0,
        start_time,
        end_time,
        is_active: false,
        total_paid: 0,
    };
    let deposit = Transfer {
        from: Party::Brand,
        to: Party::Escrow,
        authority: Party::Brand,
        amount: max_budget,
    };
    proof {
        lemma_fresh_is_well_formed(campaign);
    }
    Ok((campaign, deposit))
}

/// Activates the campaign for the creator it was made for. Only a campaign
/// that is not active and holds funds can be accepted.
pub fn accept_campaign(ctx: &mut AcceptCampaign) -> (result: Result<(), ErrorCode>)
    ensures
        match result {
            Ok(()) => {
                &&& old(ctx).campaign.accept_error(old(ctx).creator) is None
                &&& final(ctx).campaign == old(ctx).campaign.accepted()
            },
            Err(e) => {
                &&& old(ctx).campaign.accept_error(old(ctx).creator) == Some(e)
                &&& final(ctx).campaign == old(ctx).campaign
            },
        },
        final(ctx).creator == old(ctx).creator,
        old(ctx).creator != old(ctx).campaign.creator ==> result == Err::<(), ErrorCode>(
            ErrorCode::UnauthorizedCreator,
        ),
        old(ctx).campaign.well_formed() ==> final(ctx).campaign.well_formed(),
{
    if !ctx.campaign.creator.same_as(&ctx.creator) {
        return Err(ErrorCode::UnauthorizedCreator);
    }
    if ctx.campaign.is_active {
        return Err(ErrorCode::CampaignAlreadyActive);
    }
    if ctx.campaign.escrow_balance == 0 {
        return Err(ErrorCode::NoFundsInEscrow);
    }
    ctx.campaign.is_active = true;
    Ok(())
}

/// Records the cumulative views and likes that the designated oracle
/// reports. The totals replace those on record; neither may fall below what
/// is there. A report by anyone else is refused.
pub fn update_metrics(
    ctx: &mut UpdateMetrics,
    new_views: u64,
    new_likes: u64,
) -> (result: Result<(), ErrorCode>)
    ensures
        match result {
            Ok(()) => {
                &&& old(ctx).campaign.update_error(
                    old(ctx).oracle,
                    old(ctx).authority,
                    new_views,
                    new_likes,
                ) is None
                &&& final(ctx).campaign == old(ctx).campaign.updated(new_views, new_likes)
            },
            Err(e) => {
                &&& old(ctx).campaign.update_error(
                    old(ctx).oracle,
                    old(ctx).authority,
                    new_views,
                    new_likes,
                ) == Some(e)
                &&& final(ctx).campaign == old(ctx).campaign
            },
        },
        final(ctx).oracle == old(ctx).oracle,
        final(ctx).authority == old(ctx).authority,
        old(ctx).oracle != old(ctx).authority ==> result == Err::<(), ErrorCode>(
            ErrorCode::UnauthorizedOracle,
        ),
        new_views < old(ctx).campaign.views || new_likes < old(ctx).campaign.likes ==> result is Err,
        final(ctx).campaign.views >= old(ctx).campaign.views,
        final(ctx).campaign.likes >= old(ctx).campaign.likes,
        old(ctx).campaign.well_formed() ==> final(ctx).campaign.well_formed(),
{
    if !ctx.oracle.same_as(&ctx.authority) {
        return Err(ErrorCode::UnauthorizedOracle);
    }
    if !ctx.campaign.is_active {
        return Err(ErrorCode::CampaignNotActive);
    }
    if new_views < ctx.campaign.views {
        return Err(ErrorCode::MetricsCannotDecrease);
    }
    if new_likes < ctx.campaign.likes {
        return Err(ErrorCode::MetricsCannotDecrease);
    }
    proof {
        lemma_total_due_monotonic(ctx.campaign, ctx.campaign.updated(new_views, new_likes));
    }
    ctx.campaign.views = new_views;
    ctx.campaign.likes = new_likes;
    Ok(())
}

/// What a settlement of `campaign` would release now, whatever the time:
/// what the engagement on record has earned and has not been paid yet, as
/// far as the escrow covers it. It is refused where a settlement is.
pub fn pending_payout(campaign: &Campaign) -> (result: Result<u64, ErrorCode>)
    ensures
        match result {
            Ok(amount) => {
                &&& campaign.settle_error() is None
                &&& amount == campaign.payout_due()
            },
            Err(e) => campaign.settle_error() == Some(e),
        },
{
    if !campaign.is_active {
        return Err(ErrorCode::CampaignNotActive);
    }
    let total_due: u64 = match campaign.checked_total_due() {
        Some(due) => due,
        None => {
            return Err(ErrorCode::ArithmeticOverflow);
        },
    };
    let payout_amount: u64 = total_due.saturating_sub(campaign.total_paid);
    if payout_amount < campaign.escrow_balance {
        Ok(payout_amount)
    } else {
        Ok(campaign.escrow_balance)
    }
}

/// Releases to the creator what the engagement on record has earned and has
/// not been paid yet, as far as the escrow covers it.
///
/// Returns the payout to carry out, or `None` where nothing is due. The
/// campaign ends with a payout that empties the escrow or that comes after
/// the end of its window.
pub fn settle_payout(ctx: &mut SettlePayout) -> (result: Result<Option<Transfer>, ErrorCode>)
    ensures
        match result {
            Ok(transfer) => {
                &&& old(ctx).campaign.settle_error() is None
                &&& final(ctx).campaign == old(ctx).campaign.settled(old(ctx).now)
                &&& transfer == old(ctx).campaign.settle_transfer()
            },
            Err(e) => {
                &&& old(ctx).campaign.settle_error() == Some(e)
                &&& final(ctx).campaign == old(ctx).campaign
            },
        },
        final(ctx).now == old(ctx).now,
        old(ctx).campaign.well_formed() ==> final(ctx).campaign.well_formed(),
{
    let actual_payout: u64 = match pending_payout(&ctx.campaign) {
        Ok(amount) => amount,
        Err(e) => {
            return Err(e);
        },
    };
    if actual_payout == 0 {
        return Ok(None);
    }
    // The payout is at most the escrow, and with it the total paid is at
    // most the total due: neither line can leave the range of 64 bits.
    ctx.campaign.escrow_balance = ctx.campaign.escrow_balance - actual_payout;
    ctx.campaign.total_paid = ctx.campaign.total_paid + actual_payout;
    if ctx.campaign.escrow_balance == 0 || ctx.now > ctx.campaign.end_time {
        ctx.campaign.is_active = false;
    }
    Ok(
        Some(
            Transfer {
                from: Party::Escrow,
                to: Party::Creator,
                authority: Party::Escrow,
                amount: actual_payout,
            },
        ),
    )
}

/// Closes the campaign for the brand and hands back what the escrow still
/// holds. The brand may close at any time, accepted or not, active or not.
///
/// Returns the refund to carry out, or `None` where the escrow is empty.
pub fn close_campaign(ctx: &mut CloseCampaign) -> (result: Result<Option<Transfer>, ErrorCode>)
    ensures
        match result {
            Ok(transfer) => {
                &&& old(ctx).campaign.close_error(old(ctx).brand) is None
                &&& final(ctx).campaign == old(ctx).campaign.closed()
                &&& transfer == old(ctx).campaign.close_transfer()
            },
            Err(e) => {
                &&& old(ctx).campaign.close_error(old(ctx).brand) == Some(e)
                &&& final(ctx).campaign == old(ctx).campaign
            },
        },
        final(ctx).brand == old(ctx).brand,
        old(ctx).campaign.well_formed() ==> final(ctx).campaign.well_formed(),
{
    if !ctx.campaign.brand.same_as(&ctx.brand) {
        return Err(ErrorCode::UnauthorizedBrand);
    }
    let remaining_balance: u64 = ctx.campaign.escrow_balance;
    ctx.campaign.escrow_balance = 0;
    ctx.campaign.is_active = false;
    if remaining_balance > 0 {
        Ok(
            Some(
                Transfer {
                    from: Party::Escrow,
                    to: Party::Brand,
                    authority: Party::Escrow,
                    amount: remaining_balance,
                },
            ),
        )
    } else {
        Ok(None)
    }
}

} // verus!
