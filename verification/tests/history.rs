use reachpay::{
    apply, create_campaign, escrow_signer_seeds, Campaign, CreateCampaign, ErrorCode, Identity,
    Operation, Party, Transfer, ESCROW_SEED,
};

fn party_key(tag: u8) -> Identity {
    Identity::new([tag; 32])
}

fn fresh_campaign() -> Campaign {
    let ctx = CreateCampaign { brand: party_key(1) };
    create_campaign(&ctx, party_key(9), 5, 2, 10_000, party_key(2), 1_000, 2_000).unwrap().0
}

/// A report by the designated oracle.
fn metrics(new_views: u64, new_likes: u64) -> Operation {
    metrics_by(party_key(3), new_views, new_likes)
}

/// A report by `oracle`, where the designated oracle is the party with key 3.
fn metrics_by(oracle: Identity, new_views: u64, new_likes: u64) -> Operation {
    Operation::UpdateMetrics { oracle, authority: party_key(3), new_views, new_likes }
}

/// Applies `ops` in order and returns what went to the creator and what
/// went back to the brand.
fn replay(campaign: &mut Campaign, ops: &[Operation]) -> (u64, u64) {
    let mut paid = 0;
    let mut refunded = 0;
    for op in ops {
        if let Ok(Some(t)) = apply(campaign, *op) {
            assert_eq!(t.from, Party::Escrow);
            assert_eq!(t.authority, Party::Escrow);
            match t.to {
                Party::Creator => paid += t.amount,
                Party::Brand => refunded += t.amount,
                Party::Escrow => panic!("nothing is paid into the escrow after creation"),
            }
        }
    }
    (paid, refunded)
}

fn a_busy_life() -> Vec<Operation> {
    vec![
        Operation::SettlePayout { now: 1_100 },
        Operation::Accept { caller: party_key(7) },
        Operation::Accept { caller: party_key(2) },
        metrics(100_000, 1_000),
        Operation::SettlePayout { now: 1_200 },
        Operation::SettlePayout { now: 1_201 },
        metrics(90_000, 1_000),
        metrics(250_500, 1_200),
        Operation::Close { caller: party_key(2) },
        Operation::SettlePayout { now: 1_300 },
        Operation::Close { caller: party_key(1) },
        Operation::Accept { caller: party_key(2) },
        Operation::SettlePayout { now: 1_400 },
        Operation::Close { caller: party_key(1) },
    ]
}

#[test]
fn apply_follows_the_single_operations() {
    let mut campaign = fresh_campaign();
    assert_eq!(apply(&mut campaign, Operation::Accept { caller: party_key(2) }), Ok(None));
    assert!(campaign.is_active);
    assert_eq!(
        apply(
            &mut campaign,
            metrics(100_000, 1_000)
        ),
        Ok(None)
    );
    assert_eq!((campaign.views, campaign.likes), (100_000, 1_000));
    assert_eq!(
        apply(&mut campaign, Operation::SettlePayout { now: 1_500 }),
        Ok(Some(Transfer {
            from: Party::Escrow,
            to: Party::Creator,
            authority: Party::Escrow,
            amount: 510,
        }))
    );
    assert_eq!((campaign.escrow_balance, campaign.total_paid), (9_490, 510));
    assert_eq!(
        apply(&mut campaign, Operation::Close { caller: party_key(1) }),
        Ok(Some(Transfer {
            from: Party::Escrow,
            to: Party::Brand,
            authority: Party::Escrow,
            amount: 9_490,
        }))
    );
    assert_eq!((campaign.escrow_balance, campaign.total_paid), (0, 510));
    assert!(!campaign.is_active);
}

#[test]
fn apply_leaves_the_record_alone_when_it_refuses() {
    let mut campaign = fresh_campaign();
    let before = campaign;
    assert_eq!(
        apply(&mut campaign, Operation::Accept { caller: party_key(1) }),
        Err(ErrorCode::UnauthorizedCreator)
    );
    assert_eq!(
        apply(
            &mut campaign,
            metrics(1, 1)
        ),
        Err(ErrorCode::CampaignNotActive)
    );
    assert_eq!(
        apply(&mut campaign, Operation::SettlePayout { now: 1_500 }),
        Err(ErrorCode::CampaignNotActive)
    );
    assert_eq!(
        apply(&mut campaign, Operation::Close { caller: party_key(2) }),
        Err(ErrorCode::UnauthorizedBrand)
    );
    assert_eq!(campaign, before);
}

#[test]
fn funds_add_up_to_the_budget_at_every_step() {
    let ops = a_busy_life();
    for n in 0..=ops.len() {
        let mut campaign = fresh_campaign();
        let (paid, refunded) = replay(&mut campaign, &ops[..n]);
        assert_eq!(campaign.escrow_balance + campaign.total_paid + refunded, 10_000);
        assert_eq!(campaign.total_paid, paid);
        assert_eq!(campaign.max_budget, 10_000);
    }
    let mut campaign = fresh_campaign();
    assert_eq!(replay(&mut campaign, &ops), (1_260, 8_740));
}

#[test]
fn counters_and_total_paid_never_decrease() {
    let ops = a_busy_life();
    let mut campaign = fresh_campaign();
    for op in &ops {
        let before = campaign;
        let _ = apply(&mut campaign, *op);
        assert!(campaign.views >= before.views);
        assert!(campaign.likes >= before.likes);
        assert!(campaign.total_paid >= before.total_paid);
        assert!(campaign.escrow_balance <= before.escrow_balance);
        assert_eq!(
            (campaign.campaign_id, campaign.brand, campaign.creator),
            (before.campaign_id, before.brand, before.creator)
        );
        assert_eq!(
            (campaign.cpm, campaign.like_weight, campaign.max_budget),
            (before.cpm, before.like_weight, before.max_budget)
        );
        assert_eq!((campaign.start_time, campaign.end_time), (before.start_time, before.end_time));
    }
}

#[test]
fn total_paid_stays_within_budget_and_within_what_is_due() {
    let ops = vec![
        Operation::Accept { caller: party_key(2) },
        metrics(1_500_000, 0),
        Operation::SettlePayout { now: 1_100 },
        metrics(5_000_000, 70_000),
        Operation::SettlePayout { now: 1_200 },
        Operation::SettlePayout { now: 1_300 },
    ];
    let mut campaign = fresh_campaign();
    for op in &ops {
        let _ = apply(&mut campaign, *op);
        assert!(campaign.total_paid <= campaign.max_budget);
        assert!(campaign.total_paid <= campaign.checked_total_due().unwrap());
        assert!(!campaign.is_active || campaign.escrow_balance > 0);
    }
    assert_eq!(campaign.total_paid, 10_000);
    assert_eq!(campaign.escrow_balance, 0);
    assert!(!campaign.is_active);
}

#[test]
fn only_the_designated_oracle_moves_the_counters() {
    let mut campaign = fresh_campaign();
    apply(&mut campaign, Operation::Accept { caller: party_key(2) }).unwrap();
    let ops = vec![
        metrics_by(party_key(1), 50_000, 10),
        Operation::SettlePayout { now: 1_100 },
        metrics_by(party_key(2), 90_000, 20),
        Operation::SettlePayout { now: 1_200 },
    ];
    assert_eq!(
        apply(&mut campaign, ops[0]),
        Err(ErrorCode::UnauthorizedOracle)
    );
    assert_eq!(replay(&mut campaign, &ops), (0, 0));
    assert_eq!((campaign.views, campaign.likes), (0, 0));
    assert_eq!(campaign.total_paid, 0);
    assert_eq!(
        apply(
            &mut campaign,
            metrics(50_000, 10)
        ),
        Ok(None)
    );
    assert_eq!((campaign.views, campaign.likes), (50_000, 10));
}

#[test]
fn a_second_settlement_moves_nothing() {
    let mut campaign = fresh_campaign();
    apply(&mut campaign, Operation::Accept { caller: party_key(2) }).unwrap();
    apply(
        &mut campaign,
        metrics(40_000, 0),
    )
    .unwrap();
    let first = apply(&mut campaign, Operation::SettlePayout { now: 1_100 }).unwrap();
    assert_eq!(first.map(|t| t.amount), Some(200));
    let settled = campaign;
    assert_eq!(apply(&mut campaign, Operation::SettlePayout { now: 9_999 }), Ok(None));
    assert_eq!(campaign, settled);
}

#[test]
fn a_settlement_after_the_last_one_is_refused_and_moves_nothing() {
    let mut campaign = fresh_campaign();
    apply(&mut campaign, Operation::Accept { caller: party_key(2) }).unwrap();
    apply(
        &mut campaign,
        metrics(40_000, 0),
    )
    .unwrap();
    let first = apply(&mut campaign, Operation::SettlePayout { now: 2_500 }).unwrap();
    assert_eq!(first.map(|t| t.amount), Some(200));
    let settled = campaign;
    assert!(!settled.is_active);
    assert_eq!(
        apply(&mut campaign, Operation::SettlePayout { now: 2_501 }),
        Err(ErrorCode::CampaignNotActive)
    );
    assert_eq!(campaign, settled);
}

#[test]
fn identities_compare_by_their_bytes() {
    let mut bytes = [0u8; 32];
    bytes[17] = 200;
    let a = Identity::new(bytes);
    assert_eq!(a.to_bytes(), bytes);
    assert!(a.same_as(&Identity::new(bytes)));
    assert!(!a.same_as(&Identity::new([0u8; 32])));
    bytes[31] = 1;
    assert!(!a.same_as(&Identity::new(bytes)));
}

#[test]
fn escrow_signs_with_tag_identifier_and_bump() {
    let mut id = [0u8; 32];
    for (i, b) in id.iter_mut().enumerate() {
        *b = i as u8;
    }
    let seeds = escrow_signer_seeds(&Identity::new(id), 254);
    assert_eq!(seeds, vec![b"escrow".to_vec(), id.to_vec(), vec![254u8]]);
    assert_eq!(&ESCROW_SEED, b"escrow");
}

#[test]
fn a_campaign_is_inactive_until_its_creator_accepts() {
    let ops = vec![
        Operation::Accept { caller: party_key(1) },
        metrics(5_000, 5),
        Operation::SettlePayout { now: 1_100 },
        Operation::Accept { caller: party_key(3) },
    ];
    let mut campaign = fresh_campaign();
    for op in &ops {
        assert!(apply(&mut campaign, *op).is_err());
        assert!(!campaign.is_active);
    }
    assert_eq!(campaign, fresh_campaign());
    assert_eq!(apply(&mut campaign, Operation::Accept { caller: party_key(2) }), Ok(None));
    assert!(campaign.is_active);
}

#[test]
fn nothing_moves_after_a_close() {
    let mut campaign = fresh_campaign();
    apply(&mut campaign, Operation::Accept { caller: party_key(2) }).unwrap();
    apply(
        &mut campaign,
        metrics(600_000, 0),
    )
    .unwrap();
    let refund = apply(&mut campaign, Operation::Close { caller: party_key(1) }).unwrap();
    assert_eq!(refund.map(|t| (t.to, t.amount)), Some((Party::Brand, 10_000)));
    let closed = campaign;
    let later = vec![
        Operation::Accept { caller: party_key(2) },
        metrics(900_000, 10),
        Operation::SettlePayout { now: 1_100 },
        Operation::Close { caller: party_key(1) },
        Operation::SettlePayout { now: 3_000 },
    ];
    assert_eq!(replay(&mut campaign, &later), (0, 0));
    assert_eq!(campaign, closed);
    assert_eq!(campaign.escrow_balance, 0);
    assert!(!campaign.is_active);
}

#[test]
fn the_escrow_runs_dry_and_the_campaign_ends() {
    let mut campaign = fresh_campaign();
    apply(&mut campaign, Operation::Accept { caller: party_key(2) }).unwrap();
    apply(
        &mut campaign,
        metrics(1_997_000, 1_000),
    )
    .unwrap();
    let first = apply(&mut campaign, Operation::SettlePayout { now: 1_100 }).unwrap();
    assert_eq!(first.map(|t| t.amount), Some(9_995));
    assert_eq!((campaign.escrow_balance, campaign.total_paid), (5, 9_995));
    assert!(campaign.is_active);
    apply(
        &mut campaign,
        metrics(2_057_000, 1_000),
    )
    .unwrap();
    assert_eq!(campaign.checked_total_due(), Some(10_295));
    let last = apply(&mut campaign, Operation::SettlePayout { now: 1_200 }).unwrap();
    assert_eq!(last.map(|t| t.amount), Some(5));
    assert_eq!((campaign.escrow_balance, campaign.total_paid), (0, 10_000));
    assert!(!campaign.is_active);
}
