use onchain_core::fili8::{
    Affiliate, Campaign, CloseCampaign, CreateAffiliate, CreateCampaign, CreateMerchant, Error,
    InitializeConfig, JoinCampaign, ReportConversion, UpdateCampaign, UpdateConfig,
    UpdateMerchant, WithdrawFees,
};
use onchain_core::keys::Address;

fn addr(n: u64) -> Address {
    Address { w0: n, w1: 0, w2: 0, w3: 0 }
}

fn good_name() -> String {
    String::from("widget merchant")
}

fn good_desc() -> String {
    String::from("sells widgets")
}

fn config(creation_fee: u16, commission_fee: u16) -> onchain_core::fili8::Config {
    InitializeConfig { signer: addr(1), bump: 254, treasury_bump: 253 }
        .initialize_config(creation_fee, commission_fee)
}

fn merchant() -> onchain_core::fili8::Merchant {
    CreateMerchant { signer: addr(2), bump: 250 }
        .create_merchant(good_name(), good_desc())
        .unwrap()
}

fn affiliate() -> Affiliate {
    CreateAffiliate { signer: addr(3), bump: 249 }
        .create_affiliate(String::from("widget affiliate"), good_desc(), addr(77))
        .unwrap()
}

fn create_campaign_ctx(creation_fee: u16, signer_lamports: u64) -> CreateCampaign {
    CreateCampaign {
        signer: addr(2),
        signer_lamports,
        config: config(creation_fee, 500),
        treasury_lamports: 0,
        merchant: merchant(),
        merchant_addr: addr(20),
        escrow_lamports: 0,
        campaign_bump: 248,
        escrow_bump: 247,
        now: 1_000,
    }
}

fn campaign(budget: u64, commission: u64, creation_fee: u16) -> (Campaign, u64, u64) {
    let mut ctx = create_campaign_ctx(creation_fee, budget * 2);
    let c = ctx
        .create_campaign(
            5,
            String::from("spring sale"),
            good_desc(),
            String::from("https://example.com/product"),
            budget,
            commission,
            None,
        )
        .unwrap();
    (c, ctx.escrow_lamports, ctx.treasury_lamports)
}

#[test]
fn fili8_initialize_config_sets_admin_and_fees() {
    let c = config(100, 500);
    assert_eq!(c.admin, addr(1));
    assert_eq!(c.campaign_creation_fee, 100);
    assert_eq!(c.commission_fee, 500);
    assert_eq!(c.bump, 254);
    assert_eq!(c.treasury_bump, 253);
}

#[test]
fn fili8_create_merchant_validates_lengths() {
    let ctx = CreateMerchant { signer: addr(2), bump: 250 };
    assert!(matches!(
        ctx.create_merchant(String::from("short"), good_desc()),
        Err(Error::NameTooShort)
    ));
    assert!(matches!(
        ctx.create_merchant("x".repeat(51), good_desc()),
        Err(Error::NameTooLong)
    ));
    assert!(matches!(
        ctx.create_merchant(good_name(), "y".repeat(101)),
        Err(Error::DescriptionTooLong)
    ));
    let m = ctx.create_merchant(good_name(), good_desc()).unwrap();
    assert_eq!(m.total_campaigns, 0);
    assert_eq!(m.total_spent, 0);
    assert_eq!(m.bump, 250);
}

#[test]
fn fili8_create_affiliate_rejects_zero_payout() {
    let ctx = CreateAffiliate { signer: addr(3), bump: 249 };
    assert!(matches!(
        ctx.create_affiliate(String::from("widget affiliate"), good_desc(), Address::zero()),
        Err(Error::InvalidPayoutAddress)
    ));
    let a = ctx
        .create_affiliate(String::from("widget affiliate"), good_desc(), addr(77))
        .unwrap();
    assert_eq!(a.payout_address, addr(77));
    assert_eq!(a.total_earned, 0);
}

#[test]
fn fili8_update_merchant_is_atomic() {
    let mut ctx = UpdateMerchant { signer: addr(2), merchant: merchant() };
    // An invalid description rejects the whole update, the valid name too.
    assert!(matches!(
        ctx.update_merchant(Some(String::from("another merchant")), Some("y".repeat(101))),
        Err(Error::DescriptionTooLong)
    ));
    assert_eq!(ctx.merchant.name, good_name());
    ctx.update_merchant(Some(String::from("another merchant")), None).unwrap();
    assert_eq!(ctx.merchant.name, "another merchant");
    assert_eq!(ctx.merchant.description, good_desc());
}

#[test]
fn fili8_create_campaign_funds_escrow_and_charges_fee() {
    // Scenario: creation fee 100 bps on a 10_000_000 budget = 100_000.
    let mut ctx = create_campaign_ctx(100, 20_000_000);
    let c = ctx
        .create_campaign(
            5,
            String::from("spring sale"),
            good_desc(),
            String::from("https://example.com/product"),
            10_000_000,
            1_000_000,
            None,
        )
        .unwrap();
    assert_eq!(c.total_budget, 10_000_000);
    assert_eq!(c.available_budget, 10_000_000);
    assert_eq!(c.commission_per_referral, 1_000_000);
    assert_eq!(c.successful_referrals, 0);
    assert_eq!(c.total_affiliates, 0);
    assert_eq!(c.created_at, 1_000);
    assert!(!c.is_paused);
    assert!(!c.is_closed);
    assert_eq!(c.campaign_bump, 248);
    assert_eq!(c.escrow_bump, 247);
    assert_eq!(ctx.escrow_lamports, 10_000_000);
    assert_eq!(ctx.treasury_lamports, 100_000);
    assert_eq!(ctx.signer_lamports, 20_000_000 - 10_000_000 - 100_000);
    assert_eq!(ctx.merchant.total_campaigns, 1);
    assert_eq!(ctx.merchant.total_spent, 100_000);
}

#[test]
fn fili8_create_campaign_rejects_bad_uri() {
    let mut ctx = create_campaign_ctx(100, 20_000_000);
    let r = ctx.create_campaign(
        5,
        String::from("spring sale"),
        good_desc(),
        String::from("not a url"),
        10_000_000,
        1_000_000,
        None,
    );
    assert!(matches!(r, Err(Error::InvalidProductURI)));
    assert_eq!(ctx.escrow_lamports, 0);
    assert_eq!(ctx.merchant.total_campaigns, 0);
}

#[test]
fn fili8_join_campaign_checks_state() {
    let (c, _, _) = campaign(10_000_000, 1_000_000, 100);
    let mut join = JoinCampaign {
        signer: addr(3),
        campaign: c,
        campaign_addr: addr(60),
        affiliate: affiliate(),
        affiliate_addr: addr(61),
        ca_bump: 246,
        now: 2_000,
    };
    let ca = join.join_campaign().unwrap();
    assert_eq!(ca.campaign, addr(60));
    assert_eq!(ca.affiliate, addr(61));
    assert_eq!(ca.successful_referrals, 0);
    assert_eq!(ca.bump, 246);
    assert_eq!(join.campaign.total_affiliates, 1);
    assert_eq!(join.affiliate.total_campaigns, 1);
    join.campaign.is_paused = true;
    assert!(matches!(join.join_campaign(), Err(Error::CampaignPaused)));
    join.campaign.is_paused = false;
    join.campaign.is_closed = true;
    assert!(matches!(join.join_campaign(), Err(Error::CampaignClosed)));
    join.campaign.is_closed = false;
    join.campaign.ends_at = Some(1_500);
    assert!(matches!(join.join_campaign(), Err(Error::CampaignExpired)));
    join.campaign.ends_at = Some(9_000);
    join.join_campaign().unwrap();
    assert_eq!(join.campaign.total_affiliates, 2);
}

fn report_ctx(budget: u64, commission: u64) -> ReportConversion {
    let (c, escrow, treasury) = campaign(budget, commission, 100);
    let mut join = JoinCampaign {
        signer: addr(3),
        campaign: c,
        campaign_addr: addr(60),
        affiliate: affiliate(),
        affiliate_addr: addr(61),
        ca_bump: 246,
        now: 2_000,
    };
    let ca = join.join_campaign().unwrap();
    ReportConversion {
        signer: addr(2),
        config: config(100, 500),
        treasury_lamports: treasury,
        merchant: merchant(),
        merchant_addr: addr(20),
        campaign: join.campaign,
        escrow_lamports: escrow,
        affiliate: join.affiliate,
        campaign_affiliate: ca,
        payout_address: addr(77),
        payout_lamports: 0,
    }
}

#[test]
fn fili8_report_conversion_pays_commission_minus_fee() {
    // Scenario: commission 1_000_000 at a 500 bps commission fee: 50_000 to
    // the treasury, 950_000 to the affiliate's payout address.
    let mut r = report_ctx(10_000_000, 1_000_000);
    let treasury_before = r.treasury_lamports;
    r.report_conversion().unwrap();
    assert_eq!(r.treasury_lamports, treasury_before + 50_000);
    assert_eq!(r.payout_lamports, 950_000);
    assert_eq!(r.campaign.available_budget, 9_000_000);
    assert_eq!(r.escrow_lamports, 9_000_000);
    assert_eq!(r.campaign.successful_referrals, 1);
    assert!(!r.campaign.is_paused);
    assert_eq!(r.merchant.total_spent, 1_000_000);
    assert_eq!(r.affiliate.total_earned, 1_000_000);
    assert_eq!(r.campaign_affiliate.successful_referrals, 1);
    assert_eq!(r.campaign_affiliate.total_earned, 1_000_000);
}

#[test]
fn fili8_report_conversion_auto_pauses_and_then_fails() {
    // Scenario: budget 1_500_000, commission 1_000_000. After one report the
    // remaining 500_000 cannot cover another commission: the campaign
    // pauses itself and a second report fails.
    let mut r = report_ctx(1_500_000, 1_000_000);
    r.report_conversion().unwrap();
    assert_eq!(r.campaign.available_budget, 500_000);
    assert!(r.campaign.is_paused);
    let budget_before = r.campaign.available_budget;
    assert!(matches!(r.report_conversion(), Err(Error::CampaignPaused)));
    assert_eq!(r.campaign.available_budget, budget_before);
    assert_eq!(r.campaign.successful_referrals, 1);
}

#[test]
fn fili8_report_conversion_rejects_wrong_owner_and_payout() {
    let mut r = report_ctx(10_000_000, 1_000_000);
    r.merchant_addr = addr(99);
    assert!(matches!(r.report_conversion(), Err(Error::InvalidCampaignOwner)));
    let mut r = report_ctx(10_000_000, 1_000_000);
    r.payout_address = addr(78);
    assert!(matches!(r.report_conversion(), Err(Error::InvalidPayoutAddress)));
}

#[test]
fn fili8_close_campaign_drains_escrow() {
    let (c, escrow, _) = campaign(10_000_000, 1_000_000, 100);
    let mut close = CloseCampaign {
        signer: addr(2),
        merchant_addr: addr(20),
        campaign: c,
        escrow_lamports: escrow,
        withdraw_lamports: 0,
    };
    close.close_campaign().unwrap();
    assert_eq!(close.escrow_lamports, 0);
    assert_eq!(close.campaign.available_budget, 0);
    assert!(close.campaign.is_closed);
    assert_eq!(close.withdraw_lamports, 10_000_000);
    assert!(matches!(close.close_campaign(), Err(Error::CampaignClosed)));
}

#[test]
fn fili8_update_campaign_budget_top_up_unpauses() {
    let mut r = report_ctx(1_500_000, 1_000_000);
    r.report_conversion().unwrap();
    assert!(r.campaign.is_paused);
    let mut up = UpdateCampaign {
        signer: addr(2),
        signer_lamports: 5_000_000,
        config: config(100, 500),
        treasury_lamports: 0,
        merchant_addr: addr(20),
        campaign: r.campaign,
        escrow_lamports: r.escrow_lamports,
        now: 3_000,
    };
    up.update_campaign(None, None, None, None, None, Some(1_000_000)).unwrap();
    assert_eq!(up.campaign.available_budget, 1_500_000);
    assert_eq!(up.campaign.total_budget, 2_500_000);
    assert_eq!(up.escrow_lamports, 1_500_000);
    assert_eq!(up.treasury_lamports, 10_000);
    assert!(!up.campaign.is_paused);
}

#[test]
fn fili8_update_campaign_rejects_past_end_time() {
    let (c, escrow, _) = campaign(10_000_000, 1_000_000, 100);
    let mut up = UpdateCampaign {
        signer: addr(2),
        signer_lamports: 5_000_000,
        config: config(100, 500),
        treasury_lamports: 0,
        merchant_addr: addr(20),
        campaign: c,
        escrow_lamports: escrow,
        now: 3_000,
    };
    assert!(matches!(
        up.update_campaign(None, None, None, None, Some(3_000), None),
        Err(Error::InvalidCampaignPeriod)
    ));
    up.update_campaign(None, None, None, None, Some(4_000), None).unwrap();
    assert_eq!(up.campaign.ends_at, Some(4_000));
}

#[test]
fn fili8_update_config_requires_admin() {
    let mut ctx = UpdateConfig { signer: addr(9), config: config(100, 500) };
    assert!(matches!(ctx.update_config(Some(200), None), Err(Error::InvalidAdmin)));
    assert_eq!(ctx.config.campaign_creation_fee, 100);
    let mut ctx = UpdateConfig { signer: addr(1), config: config(100, 500) };
    ctx.update_config(Some(200), Some(600)).unwrap();
    assert_eq!(ctx.config.campaign_creation_fee, 200);
    assert_eq!(ctx.config.commission_fee, 600);
}

#[test]
fn fili8_withdraw_fees_sweeps_treasury() {
    let mut ctx = WithdrawFees {
        signer: addr(1),
        config: config(100, 500),
        treasury_lamports: 123_456,
        withdraw_lamports: 10,
    };
    ctx.withdraw_fees().unwrap();
    assert_eq!(ctx.treasury_lamports, 0);
    assert_eq!(ctx.withdraw_lamports, 123_466);
    let mut bad = WithdrawFees {
        signer: addr(9),
        config: config(100, 500),
        treasury_lamports: 5,
        withdraw_lamports: 0,
    };
    assert!(matches!(bad.withdraw_fees(), Err(Error::InvalidAdmin)));
    assert_eq!(bad.treasury_lamports, 5);
}

#[test]
fn fili8_create_campaign_rejects_insufficient_balance_and_counter_overflow() {
    let mut ctx = create_campaign_ctx(100, 1_000);
    let r = ctx.create_campaign(
        5,
        String::from("spring sale"),
        good_desc(),
        String::from("https://example.com/product"),
        10_000_000,
        1_000_000,
        None,
    );
    assert!(matches!(r, Err(Error::InsufficientBalance)));
    assert_eq!(ctx.signer_lamports, 1_000);
    let mut ctx = create_campaign_ctx(100, 20_000_000);
    ctx.merchant.total_campaigns = u32::MAX;
    let r = ctx.create_campaign(
        5,
        String::from("spring sale"),
        good_desc(),
        String::from("https://example.com/product"),
        10_000_000,
        1_000_000,
        None,
    );
    assert!(matches!(r, Err(Error::Overflow)));
    assert_eq!(ctx.escrow_lamports, 0);
    assert_eq!(ctx.treasury_lamports, 0);
}

#[test]
fn fili8_report_conversion_underflows_on_exhausted_budget() {
    let mut r = report_ctx(10_000_000, 1_000_000);
    r.campaign.available_budget = 0;
    r.escrow_lamports = 0;
    assert!(matches!(r.report_conversion(), Err(Error::Underflow)));
    assert_eq!(r.payout_lamports, 0);
    assert_eq!(r.campaign.successful_referrals, 0);
}
