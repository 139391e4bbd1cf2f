//! Escrow and settlement engine for pay-per-engagement advertising campaigns.
//!
//! A brand funds a campaign, a creator accepts it, an oracle reports
//! cumulative views and likes, and the engine decides how much of the escrowed
//! budget is released to the creator and how much goes back to the brand.
//! Every operation is a total, verified transition over one campaign record:
//! it either yields the new record together with the movement of funds that
//! the host ledger has to carry out, or it yields an error and leaves the
//! record as it was.

pub mod campaign;
pub mod engine;
pub mod error;
pub mod escrow;
pub mod history;
pub mod identity;

pub use campaign::Campaign;
pub use engine::{
    accept_campaign, close_campaign, create_campaign, pending_payout, settle_payout, update_metrics,
};
pub use engine::{AcceptCampaign, CloseCampaign, CreateCampaign, SettlePayout, UpdateMetrics};
pub use error::ErrorCode;
pub use escrow::{escrow_signer_seeds, Party, Transfer, ESCROW_SEED};
pub use history::{apply, Operation};
pub use identity::Identity;
