use onchain_core::keys::Address;
use onchain_core::layout::{decode_record, encode_record};
use onchain_core::store::Record;

fn addr(n: u64) -> Address {
    Address { w0: n, w1: n + 1, w2: n + 2, w3: n + 3 }
}

fn round_trip(r: Record) -> Record {
    let bytes = encode_record(&r);
    decode_record(bytes.as_slice()).expect("round trip")
}

#[test]
fn layout_amm_config_round_trip() {
    let c = onchain_core::amm::Config {
        seed: 7,
        authority: Some(addr(5)),
        mint_x: addr(10),
        mint_y: addr(11),
        fee: 30,
        config_bump: 254,
        lp_bump: 253,
        locked: false,
    };
    match round_trip(Record::AmmConfig(c)) {
        Record::AmmConfig(d) => assert_eq!(c, d),
        _ => panic!("wrong kind"),
    }
    let c2 = onchain_core::amm::Config { authority: None, locked: true, ..c };
    match round_trip(Record::AmmConfig(c2)) {
        Record::AmmConfig(d) => assert_eq!(c2, d),
        _ => panic!("wrong kind"),
    }
}

#[test]
fn layout_escrow_state_round_trip() {
    let s = onchain_core::escrow::EscrowState {
        seed: 1,
        maker: addr(9),
        mint_a: addr(10),
        mint_b: addr(11),
        receive_amount: 100,
        bump: 251,
    };
    match round_trip(Record::EscrowState(s)) {
        Record::EscrowState(d) => assert_eq!(s, d),
        _ => panic!("wrong kind"),
    }
}

#[test]
fn layout_marketplace_and_listing_round_trip() {
    let m = onchain_core::marketplace::Marketplace {
        admin: addr(1),
        fee: 500,
        bump: 254,
        treasury_bump: 253,
        rewards_bump: 252,
        name: String::from("marché"),
    };
    match round_trip(Record::Marketplace(m)) {
        Record::Marketplace(d) => {
            assert_eq!(d.admin, addr(1));
            assert_eq!(d.fee, 500);
            assert_eq!(d.bump, 254);
            assert_eq!(d.treasury_bump, 253);
            assert_eq!(d.rewards_bump, 252);
            assert_eq!(d.name, "marché");
        },
        _ => panic!("wrong kind"),
    }
    let l = onchain_core::marketplace::Listing { maker: addr(2), price: 1_000_000, bump: 251 };
    match round_trip(Record::Listing(l)) {
        Record::Listing(d) => assert_eq!(l, d),
        _ => panic!("wrong kind"),
    }
}

#[test]
fn layout_staking_records_round_trip() {
    let c = onchain_core::staking::StakeConfig {
        points_per_stake: 10,
        max_stake: 3,
        freeze_period: 7,
        rewards_bump: 253,
        bump: 254,
    };
    match round_trip(Record::StakeConfig(c)) {
        Record::StakeConfig(d) => assert_eq!(c, d),
        _ => panic!("wrong kind"),
    }
    let u = onchain_core::staking::UserAccount { amount_staked: 2, points: 70, bump: 250 };
    match round_trip(Record::UserAccount(u)) {
        Record::UserAccount(d) => assert_eq!(u, d),
        _ => panic!("wrong kind"),
    }
    let s = onchain_core::staking::StakeAccount {
        owner: addr(2),
        mint: addr(30),
        staked_at: -1,
        bump: 249,
    };
    match round_trip(Record::StakeAccount(s)) {
        Record::StakeAccount(d) => assert_eq!(s, d),
        _ => panic!("wrong kind"),
    }
}

#[test]
fn layout_vault_state_round_trip() {
    let v = onchain_core::vault::VaultState { vault_bump: 1, state_bump: 2 };
    match round_trip(Record::VaultState(v)) {
        Record::VaultState(d) => assert_eq!(v, d),
        _ => panic!("wrong kind"),
    }
}

#[test]
fn layout_fili8_records_round_trip() {
    let c = onchain_core::fili8::Config {
        admin: addr(1),
        campaign_creation_fee: 100,
        commission_fee: 500,
        bump: 254,
        treasury_bump: 253,
    };
    match round_trip(Record::FiliConfig(c)) {
        Record::FiliConfig(d) => assert_eq!(c, d),
        _ => panic!("wrong kind"),
    }
    let m = onchain_core::fili8::Merchant {
        name: String::from("widget merchant"),
        description: String::from("sells widgets"),
        total_campaigns: 3,
        total_spent: 500,
        bump: 250,
    };
    match round_trip(Record::Merchant(m)) {
        Record::Merchant(d) => {
            assert_eq!(d.name, "widget merchant");
            assert_eq!(d.description, "sells widgets");
            assert_eq!(d.total_campaigns, 3);
            assert_eq!(d.total_spent, 500);
            assert_eq!(d.bump, 250);
        },
        _ => panic!("wrong kind"),
    }
    let a = onchain_core::fili8::Affiliate {
        name: String::from("widget affiliate"),
        description: String::new(),
        payout_address: addr(77),
        total_campaigns: 1,
        total_earned: 950_000,
        bump: 249,
    };
    match round_trip(Record::Affiliate(a)) {
        Record::Affiliate(d) => {
            assert_eq!(d.name, "widget affiliate");
            assert_eq!(d.description, "");
            assert_eq!(d.payout_address, addr(77));
            assert_eq!(d.total_earned, 950_000);
        },
        _ => panic!("wrong kind"),
    }
    let ca = onchain_core::fili8::CampaignAffiliate {
        campaign: addr(60),
        affiliate: addr(61),
        successful_referrals: 2,
        total_earned: 2_000_000,
        bump: 246,
    };
    match round_trip(Record::CampaignAffiliate(ca)) {
        Record::CampaignAffiliate(d) => assert_eq!(ca, d),
        _ => panic!("wrong kind"),
    }
}

#[test]
fn layout_campaign_round_trip() {
    let c = onchain_core::fili8::Campaign {
        seed: 5,
        owner: addr(20),
        name: String::from("spring sale"),
        description: String::from("sells widgets"),
        product_uri: String::from("https://example.com/product"),
        total_budget: 10_000_000,
        available_budget: 9_000_000,
        commission_per_referral: 1_000_000,
        successful_referrals: 1,
        created_at: 1_000,
        ends_at: Some(5_000),
        is_paused: false,
        is_closed: false,
        total_affiliates: 1,
        campaign_bump: 248,
        escrow_bump: 247,
    };
    let bytes = encode_record(&Record::Campaign(c));
    match decode_record(bytes.as_slice()).expect("round trip") {
        Record::Campaign(d) => {
            assert_eq!(d.seed, 5);
            assert_eq!(d.owner, addr(20));
            assert_eq!(d.name, "spring sale");
            assert_eq!(d.product_uri, "https://example.com/product");
            assert_eq!(d.total_budget, 10_000_000);
            assert_eq!(d.available_budget, 9_000_000);
            assert_eq!(d.commission_per_referral, 1_000_000);
            assert_eq!(d.successful_referrals, 1);
            assert_eq!(d.created_at, 1_000);
            assert_eq!(d.ends_at, Some(5_000));
            assert!(!d.is_paused);
            assert!(!d.is_closed);
            assert_eq!(d.total_affiliates, 1);
            assert_eq!(d.campaign_bump, 248);
            assert_eq!(d.escrow_bump, 247);
        },
        _ => panic!("wrong kind"),
    }
}

#[test]
fn layout_rejects_malformed_input() {
    let v = onchain_core::vault::VaultState { vault_bump: 1, state_bump: 2 };
    let bytes = encode_record(&Record::VaultState(v));
    // Truncated input.
    assert!(decode_record(&bytes[..bytes.len() - 1]).is_none());
    assert!(decode_record(&bytes[..4]).is_none());
    // Trailing bytes.
    let mut long = bytes.clone();
    long.push(0);
    assert!(decode_record(long.as_slice()).is_none());
    // Unknown discriminant.
    let mut wrong_tag = bytes.clone();
    wrong_tag[0] = 200;
    assert!(decode_record(wrong_tag.as_slice()).is_none());
    // A boolean field must be 0 or 1.
    let c = onchain_core::amm::Config {
        seed: 7,
        authority: None,
        mint_x: addr(10),
        mint_y: addr(11),
        fee: 30,
        config_bump: 254,
        lp_bump: 253,
        locked: false,
    };
    let mut cb = encode_record(&Record::AmmConfig(c));
    let last = cb.len() - 1;
    cb[last] = 7;
    assert!(decode_record(cb.as_slice()).is_none());
    // A string field must be valid UTF-8.
    let m = onchain_core::fili8::Merchant {
        name: String::from("widget merchant"),
        description: String::new(),
        total_campaigns: 0,
        total_spent: 0,
        bump: 250,
    };
    let mut mb = encode_record(&Record::Merchant(m));
    // The first string's bytes start after the discriminant and length.
    mb[12] = 0xff;
    assert!(decode_record(mb.as_slice()).is_none());
}
