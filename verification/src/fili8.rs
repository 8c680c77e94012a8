//! Affiliate-marketing campaign ledger.
//!
//! Merchants fund budgeted campaigns whose budget sits in a per-campaign
//! native escrow; affiliates enroll and are paid a per-referral commission,
//! minus a protocol fee, out of that escrow when the merchant reports a
//! conversion. A campaign whose remaining budget can no longer cover one
//! commission pauses itself; closing a campaign drains its escrow.

use vstd::prelude::*;

use crate::keys::Address;
use crate::math::{mul_div_floor, spec_mul_div_floor};
use crate::token::native_transfer;

verus! {

/// Errors of the campaign-ledger program.
#[derive(Clone, Copy, PartialEq, Eq, Structural, Debug)]
pub enum Error {
    NameTooLong,
    NameTooShort,
    DescriptionTooLong,
    InvalidProductURI,
    InvalidCampaignOwner,
    InvalidPayoutAddress,
    InvalidCampaignPeriod,
    CampaignPaused,
    CampaignExpired,
    CampaignClosed,
    InvalidAdmin,
    Overflow,
    Underflow,
    InsufficientBalance,
}

/// Whether `url::Url::parse` accepts the string; determined by the string
/// alone.
pub uninterp spec fn url_accepted(s: Seq<char>) -> bool;

/// Relies on url::Url::parse: acceptance of an input string is a function
/// of the string alone.
#[verifier::external_body]
fn parse_url_ok(s: &str) -> (r: bool)
    ensures
        r == url_accepted(s@),
{
    url::Url::parse(s).is_ok()
}

/// Byte length of a string, as `str::len` reports it.
pub open spec fn spec_blen(s: Seq<char>) -> int {
    (vstd::utf8::encode_utf8(s).len() as usize) as int
}

/// Validation of a merchant/affiliate/campaign name: between 10 and 50
/// bytes.
pub open spec fn spec_name_err(name: Seq<char>) -> Option<Error> {
    if spec_blen(name) > 50 {
        Some(Error::NameTooLong)
    } else if spec_blen(name) < 10 {
        Some(Error::NameTooShort)
    } else {
        None
    }
}

fn check_name(name: &String) -> (r: Option<Error>)
    ensures
        r == spec_name_err(name@),
{
    let n: usize = name.as_str().len();
    if n > 50 {
        Some(Error::NameTooLong)
    } else if n < 10 {
        Some(Error::NameTooShort)
    } else {
        None
    }
}

/// Validation of a description: at most 100 bytes.
pub open spec fn spec_description_err(description: Seq<char>) -> Option<Error> {
    if spec_blen(description) > 100 {
        Some(Error::DescriptionTooLong)
    } else {
        None
    }
}

fn check_description(description: &String) -> (r: Option<Error>)
    ensures
        r == spec_description_err(description@),
{
    let n: usize = description.as_str().len();
    if n > 100 {
        Some(Error::DescriptionTooLong)
    } else {
        None
    }
}

/// The protocol fee on `amount` at `bps` basis points, `⌊amount·bps/10⁴⌋`.
pub open spec fn spec_fee(amount: u64, bps: u16) -> int {
    spec_mul_div_floor(amount as int, bps as int, 10000)
}

/// The program's configuration record.
#[derive(Clone, Copy, PartialEq, Eq, Structural, Debug)]
pub struct Config {
    pub admin: Address,
    pub campaign_creation_fee: u16,
    pub commission_fee: u16,
    pub bump: u8,
    pub treasury_bump: u8,
}

/// A merchant's record.
pub struct Merchant {
    pub name: String,
    pub description: String,
    pub total_campaigns: u32,
    pub total_spent: u64,
    pub bump: u8,
}

/// An affiliate's record.
pub struct Affiliate {
    pub name: String,
    pub description: String,
    pub payout_address: Address,
    pub total_campaigns: u32,
    pub total_earned: u64,
    pub bump: u8,
}

/// A campaign's record.
pub struct Campaign {
    pub seed: u64,
    pub owner: Address,
    pub name: String,
    pub description: String,
    pub product_uri: String,
    pub total_budget: u64,
    pub available_budget: u64,
    pub commission_per_referral: u64,
    pub successful_referrals: u32,
    pub created_at: i64,
    pub ends_at: Option<i64>,
    pub is_paused: bool,
    pub is_closed: bool,
    pub total_affiliates: u32,
    pub campaign_bump: u8,
    pub escrow_bump: u8,
}

/// Per-enrollment counters of an affiliate in a campaign.
#[derive(Clone, Copy, PartialEq, Eq, Structural, Debug)]
pub struct CampaignAffiliate {
    pub campaign: Address,
    pub affiliate: Address,
    pub successful_referrals: u32,
    pub total_earned: u64,
    pub bump: u8,
}

/// Accounts of the configuration-creation instruction.
pub struct InitializeConfig {
    pub signer: Address,
    pub bump: u8,
    pub treasury_bump: u8,
}

impl InitializeConfig {
    /// Create the configuration record; the signer becomes the admin.
    pub fn initialize_config(&self, campaign_creation_fee: u16, commission_fee: u16) -> (r: Config)
        ensures
            r == (Config {
                admin: self.signer,
                campaign_creation_fee,
                commission_fee,
                bump: self.bump,
                treasury_bump: self.treasury_bump,
            }),
    {
        Config {
            admin: self.signer,
            campaign_creation_fee,
            commission_fee,
            bump: self.bump,
            treasury_bump: self.treasury_bump,
        }
    }
}

/// Accounts of the merchant-creation instruction.
pub struct CreateMerchant {
    pub signer: Address,
    pub bump: u8,
}

impl CreateMerchant {
    /// The error `create_merchant` reports, if any, in check order.
    pub open spec fn spec_create_merchant_err(name: Seq<char>, description: Seq<char>) -> Option<
        Error,
    > {
        if spec_name_err(name) is Some {
            spec_name_err(name)
        } else if spec_description_err(description) is Some {
            spec_description_err(description)
        } else {
            None
        }
    }

    /// Create the merchant record with zeroed counters after validating the
    /// name and description lengths.
    pub fn create_merchant(&self, name: String, description: String) -> (r: Result<
        Merchant,
        Error,
    >)
        ensures
            match r {
                Ok(m) => Self::spec_create_merchant_err(name@, description@) is None && m.name
                    == name && m.description == description && m.total_campaigns == 0
                    && m.total_spent == 0 && m.bump == self.bump,
                Err(e) => Self::spec_create_merchant_err(name@, description@) == Some(e),
            },
    {
        if let Some(e) = check_name(&name) {
            return Err(e);
        }
        if let Some(e) = check_description(&description) {
            return Err(e);
        }
        Ok(Merchant { name, description, total_campaigns: 0, total_spent: 0, bump: self.bump })
    }
}

/// Accounts of the merchant-update instruction.
pub struct UpdateMerchant {
    pub signer: Address,
    pub merchant: Merchant,
}

impl UpdateMerchant {
    /// The error `update_merchant` reports, if any, in check order.
    pub open spec fn spec_update_merchant_err(
        name: Option<String>,
        description: Option<String>,
    ) -> Option<Error> {
        let name_e = match name {
            Some(n) => spec_name_err(n@),
            None => None,
        };
        let desc_e = match description {
            Some(d) => spec_description_err(d@),
            None => None,
        };
        if name_e is Some {
            name_e
        } else if desc_e is Some {
            desc_e
        } else {
            None
        }
    }

    /// Update the supplied fields, with the same length bounds as creation;
    /// absent fields keep their value. Either every supplied field is
    /// applied or none is.
    pub fn update_merchant(&mut self, name: Option<String>, description: Option<String>) -> (r:
        Result<(), Error>)
        ensures
            match r {
                Ok(_) => Self::spec_update_merchant_err(name, description) is None && final(self).signer == old(self).signer && final(self).merchant == (Merchant {
                    name: (match name {
                        Some(n) => n,
                        None => old(self).merchant.name,
                    }),
                    description: (match description {
                        Some(d) => d,
                        None => old(self).merchant.description,
                    }),
                    ..old(self).merchant
                }),
                Err(e) => Self::spec_update_merchant_err(name, description) == Some(e) && *final(self) == *old(self),
            },
    {
        if let Some(n) = &name {
            if let Some(e) = check_name(n) {
                return Err(e);
            }
        }
        if let Some(d) = &description {
            if let Some(e) = check_description(d) {
                return Err(e);
            }
        }
        if let Some(n) = name {
            self.merchant.name = n;
        }
        if let Some(d) = description {
            self.merchant.description = d;
        }
        Ok(())
    }
}

/// Accounts of the affiliate-creation instruction.
pub struct CreateAffiliate {
    pub signer: Address,
    pub bump: u8,
}

impl CreateAffiliate {
    /// The error `create_affiliate` reports, if any, in check order.
    pub open spec fn spec_create_affiliate_err(
        name: Seq<char>,
        description: Seq<char>,
        payout_address: Address,
    ) -> Option<Error> {
        if spec_name_err(name) is Some {
            spec_name_err(name)
        } else if spec_description_err(description) is Some {
            spec_description_err(description)
        } else if payout_address.spec_is_zero() {
            Some(Error::InvalidPayoutAddress)
        } else {
            None
        }
    }

    /// Create the affiliate record with zeroed counters after validating
    /// the name and description lengths and that the payout address is not
    /// the zero address.
    pub fn create_affiliate(&self, name: String, description: String, payout_address: Address) -> (r:
        Result<Affiliate, Error>)
        ensures
            match r {
                Ok(a) => Self::spec_create_affiliate_err(name@, description@, payout_address)
                    is None && a.name == name && a.description == description && a.payout_address
                    == payout_address && a.total_campaigns == 0 && a.total_earned == 0 && a.bump
                    == self.bump,
                Err(e) => Self::spec_create_affiliate_err(name@, description@, payout_address)
                    == Some(e),
            },
    {
        if let Some(e) = check_name(&name) {
            return Err(e);
        }
        if let Some(e) = check_description(&description) {
            return Err(e);
        }
        if payout_address.is_zero() {
            return Err(Error::InvalidPayoutAddress);
        }
        Ok(
            Affiliate {
                name,
                description,
                payout_address,
                total_campaigns: 0,
                total_earned: 0,
                bump: self.bump,
            },
        )
    }
}

/// Accounts of the affiliate-update instruction.
pub struct UpdateAffiliate {
    pub signer: Address,
    pub affiliate: Affiliate,
}

impl UpdateAffiliate {
    /// The error `update_affiliate` reports, if any, in check order.
    pub open spec fn spec_update_affiliate_err(
        name: Option<String>,
        description: Option<String>,
        payout_address: Option<Address>,
    ) -> Option<Error> {
        let name_e = match name {
            Some(n) => spec_name_err(n@),
            None => None,
        };
        let desc_e = match description {
            Some(d) => spec_description_err(d@),
            None => None,
        };
        if name_e is Some {
            name_e
        } else if desc_e is Some {
            desc_e
        } else if payout_address matches Some(p) && p.spec_is_zero() {
            Some(Error::InvalidPayoutAddress)
        } else {
            None
        }
    }

    /// Update the supplied fields; a supplied payout address must not be
    /// the zero address. Either every supplied field is applied or none is.
    pub fn update_affiliate(
        &mut self,
        name: Option<String>,
        description: Option<String>,
        payout_address: Option<Address>,
    ) -> (r: Result<(), Error>)
        ensures
            match r {
                Ok(_) => Self::spec_update_affiliate_err(name, description, payout_address)
                    is None && final(self).signer == old(self).signer && final(self).affiliate
                    == (Affiliate {
                    name: (match name {
                        Some(n) => n,
                        None => old(self).affiliate.name,
                    }),
                    description: (match description {
                        Some(d) => d,
                        None => old(self).affiliate.description,
                    }),
                    payout_address: (match payout_address {
                        Some(p) => p,
                        None => old(self).affiliate.payout_address,
                    }),
                    ..old(self).affiliate
                }),
                Err(e) => Self::spec_update_affiliate_err(name, description, payout_address)
                    == Some(e) && *final(self) == *old(self),
            },
    {
        if let Some(n) = &name {
            if let Some(e) = check_name(n) {
                return Err(e);
            }
        }
        if let Some(d) = &description {
            if let Some(e) = check_description(d) {
                return Err(e);
            }
        }
        if let Some(p) = &payout_address {
            if p.is_zero() {
                return Err(Error::InvalidPayoutAddress);
            }
        }
        if let Some(n) = name {
            self.affiliate.name = n;
        }
        if let Some(d) = description {
            self.affiliate.description = d;
        }
        if let Some(p) = payout_address {
            self.affiliate.payout_address = p;
        }
        Ok(())
    }
}

/// Accounts of the campaign-creation instruction.
pub struct CreateCampaign {
    pub signer: Address,
    pub signer_lamports: u64,
    pub config: Config,
    pub treasury_lamports: u64,
    pub merchant: Merchant,
    pub merchant_addr: Address,
    pub escrow_lamports: u64,
    pub campaign_bump: u8,
    pub escrow_bump: u8,
    pub now: i64,
}

impl CreateCampaign {
    /// The error `create_campaign` reports, if any, in check order.
    pub open spec fn spec_create_campaign_err(
        self,
        name: Seq<char>,
        description: Seq<char>,
        product_uri: Seq<char>,
        budget: u64,
    ) -> Option<Error> {
        let fee = spec_fee(budget, self.config.campaign_creation_fee);
        if spec_name_err(name) is Some {
            spec_name_err(name)
        } else if spec_description_err(description) is Some {
            spec_description_err(description)
        } else if !url_accepted(product_uri) {
            Some(Error::InvalidProductURI)
        } else if fee > u64::MAX {
            Some(Error::Overflow)
        } else if self.signer_lamports < budget {
            Some(Error::InsufficientBalance)
        } else if self.escrow_lamports + budget > u64::MAX {
            Some(Error::Overflow)
        } else if self.signer_lamports - budget < fee {
            Some(Error::InsufficientBalance)
        } else if self.treasury_lamports + fee > u64::MAX {
            Some(Error::Overflow)
        } else if self.merchant.total_campaigns + 1 > u32::MAX {
            Some(Error::Overflow)
        } else if self.merchant.total_spent + fee > u64::MAX {
            Some(Error::Overflow)
        } else {
            None
        }
    }

    /// Create a campaign: validate the name, description and product URI,
    /// fund the campaign's escrow with the whole budget, pay the creation
    /// fee `⌊budget·creation_fee_bps/10⁴⌋` to the treasury, and count the
    /// campaign and the fee against the merchant.
    pub fn create_campaign(
        &mut self,
        seed: u64,
        name: String,
        description: String,
        product_uri: String,
        budget: u64,
        commission_per_referral: u64,
        ends_at: Option<i64>,
    ) -> (r: Result<Campaign, Error>)
        ensures
            match r {
                Ok(c) => old(self).spec_create_campaign_err(name@, description@, product_uri@, budget)
                    is None && ({
                    let fee = spec_fee(budget, old(self).config.campaign_creation_fee);
                    &&& c.seed == seed
                    &&& c.owner == old(self).merchant_addr
                    &&& c.name == name
                    &&& c.description == description
                    &&& c.product_uri == product_uri
                    &&& c.total_budget == budget
                    &&& c.available_budget == budget
                    &&& c.commission_per_referral == commission_per_referral
                    &&& c.successful_referrals == 0
                    &&& c.created_at == old(self).now
                    &&& c.ends_at == ends_at
                    &&& !c.is_paused
                    &&& !c.is_closed
                    &&& c.total_affiliates == 0
                    &&& c.campaign_bump == old(self).campaign_bump
                    &&& c.escrow_bump == old(self).escrow_bump
                    &&& *final(self) == (CreateCampaign {
                        signer_lamports: (old(self).signer_lamports - budget - fee) as u64,
                        escrow_lamports: (old(self).escrow_lamports + budget) as u64,
                        treasury_lamports: (old(self).treasury_lamports + fee) as u64,
                        merchant: Merchant {
                            total_campaigns: (old(self).merchant.total_campaigns + 1) as u32,
                            total_spent: (old(self).merchant.total_spent + fee) as u64,
                            ..old(self).merchant
                        },
                        ..*old(self)
                    })
                }),
                Err(e) => old(self).spec_create_campaign_err(name@, description@, product_uri@, budget)
                    == Some(e) && *final(self) == *old(self),
            },
    {
        if let Some(e) = check_name(&name) {
            return Err(e);
        }
        if let Some(e) = check_description(&description) {
            return Err(e);
        }
        if !parse_url_ok(product_uri.as_str()) {
            return Err(Error::InvalidProductURI);
        }
        let fee: u64 = match mul_div_floor(budget, self.config.campaign_creation_fee as u64, 10000)
            {
            Ok(v) => v,
            Err(_) => return Err(Error::Overflow),
        };
        if self.signer_lamports < budget {
            return Err(Error::InsufficientBalance);
        }
        if budget > u64::MAX - self.escrow_lamports {
            return Err(Error::Overflow);
        }
        if self.signer_lamports - budget < fee {
            return Err(Error::InsufficientBalance);
        }
        if fee > u64::MAX - self.treasury_lamports {
            return Err(Error::Overflow);
        }
        if self.merchant.total_campaigns > u32::MAX - 1 {
            return Err(Error::Overflow);
        }
        if fee > u64::MAX - self.merchant.total_spent {
            return Err(Error::Overflow);
        }
        if let Err(_) = native_transfer(&mut self.signer_lamports, &mut self.escrow_lamports, budget) {
            return Err(Error::Overflow);
        }
        if let Err(_) = native_transfer(&mut self.signer_lamports, &mut self.treasury_lamports, fee) {
            return Err(Error::Overflow);
        }
        self.merchant.total_campaigns = self.merchant.total_campaigns + 1;
        self.merchant.total_spent = self.merchant.total_spent + fee;
        Ok(
            Campaign {
                seed,
                owner: self.merchant_addr,
                name,
                description,
                product_uri,
                total_budget: budget,
                available_budget: budget,
                commission_per_referral,
                successful_referrals: 0,
                created_at: self.now,
                ends_at,
                is_paused: false,
                is_closed: false,
                total_affiliates: 0,
                campaign_bump: self.campaign_bump,
                escrow_bump: self.escrow_bump,
            },
        )
    }
}

/// Accounts of the campaign-enrollment instruction.
pub struct JoinCampaign {
    pub signer: Address,
    pub campaign: Campaign,
    pub campaign_addr: Address,
    pub affiliate: Affiliate,
    pub affiliate_addr: Address,
    pub ca_bump: u8,
    pub now: i64,
}

impl JoinCampaign {
    /// The error `join_campaign` reports, if any, in check order.
    pub open spec fn spec_join_err(self) -> Option<Error> {
        if self.campaign.is_closed {
            Some(Error::CampaignClosed)
        } else if self.campaign.is_paused {
            Some(Error::CampaignPaused)
        } else if self.campaign.ends_at matches Some(t) && t <= self.now {
            Some(Error::CampaignExpired)
        } else if self.campaign.total_affiliates + 1 > u32::MAX {
            Some(Error::Overflow)
        } else if self.affiliate.total_campaigns + 1 > u32::MAX {
            Some(Error::Overflow)
        } else {
            None
        }
    }

    /// Enroll the affiliate in an open, unpaused, unexpired campaign:
    /// create the per-enrollment record with zeroed counters and count the
    /// enrollment on both sides.
    pub fn join_campaign(&mut self) -> (r: Result<CampaignAffiliate, Error>)
        ensures
            match r {
                Ok(ca) => old(self).spec_join_err() is None && ca == (CampaignAffiliate {
                    campaign: old(self).campaign_addr,
                    affiliate: old(self).affiliate_addr,
                    successful_referrals: 0,
                    total_earned: 0,
                    bump: old(self).ca_bump,
                }) && *final(self) == (JoinCampaign {
                    campaign: Campaign {
                        total_affiliates: (old(self).campaign.total_affiliates + 1) as u32,
                        ..old(self).campaign
                    },
                    affiliate: Affiliate {
                        total_campaigns: (old(self).affiliate.total_campaigns + 1) as u32,
                        ..old(self).affiliate
                    },
                    ..*old(self)
                }),
                Err(e) => old(self).spec_join_err() == Some(e) && *final(self) == *old(self),
            },
    {
        if self.campaign.is_closed {
            return Err(Error::CampaignClosed);
        }
        if self.campaign.is_paused {
            return Err(Error::CampaignPaused);
        }
        let expired: bool = match self.campaign.ends_at {
            Some(t) => t <= self.now,
            None => false,
        };
        if expired {
            return Err(Error::CampaignExpired);
        }
        if self.campaign.total_affiliates > u32::MAX - 1 {
            return Err(Error::Overflow);
        }
        if self.affiliate.total_campaigns > u32::MAX - 1 {
            return Err(Error::Overflow);
        }
        self.campaign.total_affiliates = self.campaign.total_affiliates + 1;
        self.affiliate.total_campaigns = self.affiliate.total_campaigns + 1;
        Ok(
            CampaignAffiliate {
                campaign: self.campaign_addr,
                affiliate: self.affiliate_addr,
                successful_referrals: 0,
                total_earned: 0,
                bump: self.ca_bump,
            },
        )
    }
}

/// Accounts of the conversion-report instruction.
pub struct ReportConversion {
    pub signer: Address,
    pub config: Config,
    pub treasury_lamports: u64,
    pub merchant: Merchant,
    pub merchant_addr: Address,
    pub campaign: Campaign,
    pub escrow_lamports: u64,
    pub affiliate: Affiliate,
    pub campaign_affiliate: CampaignAffiliate,
    pub payout_address: Address,
    pub payout_lamports: u64,
}

impl ReportConversion {
    /// An open campaign's escrow holds exactly its available budget.
    pub open spec fn wf(self) -> bool {
        !self.campaign.is_closed ==> self.escrow_lamports == self.campaign.available_budget
    }

    /// The error `report_conversion` reports, if any, in check order.
    pub open spec fn spec_report_err(self) -> Option<Error> {
        let c = self.campaign.commission_per_referral;
        let fee = spec_fee(c, self.config.commission_fee);
        if self.campaign.owner != self.merchant_addr {
            Some(Error::InvalidCampaignOwner)
        } else if self.affiliate.payout_address != self.payout_address {
            Some(Error::InvalidPayoutAddress)
        } else if self.campaign.is_paused {
            Some(Error::CampaignPaused)
        } else if fee > u64::MAX {
            Some(Error::Overflow)
        } else if fee > c {
            Some(Error::Underflow)
        } else if self.campaign.available_budget < c {
            Some(Error::Underflow)
        } else if self.treasury_lamports + fee > u64::MAX {
            Some(Error::Overflow)
        } else if self.payout_lamports + (c - fee) > u64::MAX {
            Some(Error::Overflow)
        } else if self.campaign.successful_referrals + 1 > u32::MAX {
            Some(Error::Overflow)
        } else if self.merchant.total_spent + c > u64::MAX {
            Some(Error::Overflow)
        } else if self.affiliate.total_earned + c > u64::MAX {
            Some(Error::Overflow)
        } else if self.campaign_affiliate.successful_referrals + 1 > u32::MAX {
            Some(Error::Overflow)
        } else if self.campaign_affiliate.total_earned + c > u64::MAX {
            Some(Error::Overflow)
        } else if self.escrow_lamports < c {
            Some(Error::InsufficientBalance)
        } else {
            None
        }
    }

    /// Report a conversion: pay the commission out of the campaign escrow —
    /// the protocol fee `⌊c·commission_fee_bps/10⁴⌋` to the treasury, the
    /// rest to the affiliate's payout address — and update every counter.
    /// If the remaining budget can no longer cover one commission the
    /// campaign pauses itself; a report on a paused campaign fails.
    pub fn report_conversion(&mut self) -> (r: Result<(), Error>)
        requires
            old(self).wf(),
        ensures
            final(self).wf(),
            match r {
                Ok(_) => old(self).spec_report_err() is None && ({
                    let c = old(self).campaign.commission_per_referral;
                    let fee = spec_fee(c, old(self).config.commission_fee);
                    *final(self) == (ReportConversion {
                        treasury_lamports: (old(self).treasury_lamports + fee) as u64,
                        escrow_lamports: (old(self).escrow_lamports - c) as u64,
                        payout_lamports: (old(self).payout_lamports + (c - fee)) as u64,
                        campaign: Campaign {
                            available_budget: (old(self).campaign.available_budget - c) as u64,
                            successful_referrals: (old(self).campaign.successful_referrals
                                + 1) as u32,
                            is_paused: old(self).campaign.available_budget - c < c,
                            ..old(self).campaign
                        },
                        merchant: Merchant {
                            total_spent: (old(self).merchant.total_spent + c) as u64,
                            ..old(self).merchant
                        },
                        affiliate: Affiliate {
                            total_earned: (old(self).affiliate.total_earned + c) as u64,
                            ..old(self).affiliate
                        },
                        campaign_affiliate: CampaignAffiliate {
                            successful_referrals: (old(self).campaign_affiliate.successful_referrals
                                + 1) as u32,
                            total_earned: (old(self).campaign_affiliate.total_earned + c) as u64,
                            ..old(self).campaign_affiliate
                        },
                        ..*old(self)
                    })
                }),
                Err(e) => old(self).spec_report_err() == Some(e) && *final(self) == *old(self),
            },
    {
        if self.campaign.owner != self.merchant_addr {
            return Err(Error::InvalidCampaignOwner);
        }
        if self.affiliate.payout_address != self.payout_address {
            return Err(Error::InvalidPayoutAddress);
        }
        if self.campaign.is_paused {
            return Err(Error::CampaignPaused);
        }
        let c: u64 = self.campaign.commission_per_referral;
        let fee: u64 = match mul_div_floor(c, self.config.commission_fee as u64, 10000) {
            Ok(v) => v,
            Err(_) => return Err(Error::Overflow),
        };
        if fee > c {
            return Err(Error::Underflow);
        }
        let net: u64 = c - fee;
        if self.campaign.available_budget < c {
            return Err(Error::Underflow);
        }
        if fee > u64::MAX - self.treasury_lamports {
            return Err(Error::Overflow);
        }
        if net > u64::MAX - self.payout_lamports {
            return Err(Error::Overflow);
        }
        if self.campaign.successful_referrals > u32::MAX - 1 {
            return Err(Error::Overflow);
        }
        if c > u64::MAX - self.merchant.total_spent {
            return Err(Error::Overflow);
        }
        if c > u64::MAX - self.affiliate.total_earned {
            return Err(Error::Overflow);
        }
        if self.campaign_affiliate.successful_referrals > u32::MAX - 1 {
            return Err(Error::Overflow);
        }
        if c > u64::MAX - self.campaign_affiliate.total_earned {
            return Err(Error::Overflow);
        }
        if self.escrow_lamports < c {
            return Err(Error::InsufficientBalance);
        }
        if let Err(_) = native_transfer(&mut self.escrow_lamports, &mut self.treasury_lamports, fee) {
            return Err(Error::Overflow);
        }
        if let Err(_) = native_transfer(&mut self.escrow_lamports, &mut self.payout_lamports, net) {
            return Err(Error::Overflow);
        }
        let new_budget: u64 = self.campaign.available_budget - c;
        self.campaign.available_budget = new_budget;
        self.campaign.successful_referrals = self.campaign.successful_referrals + 1;
        if new_budget < c {
            self.campaign.is_paused = true;
        }
        self.merchant.total_spent = self.merchant.total_spent + c;
        self.affiliate.total_earned = self.affiliate.total_earned + c;
        self.campaign_affiliate.successful_referrals = self.campaign_affiliate.successful_referrals
            + 1;
        self.campaign_affiliate.total_earned = self.campaign_affiliate.total_earned + c;
        Ok(())
    }
}

/// Accounts of the campaign-close instruction.
pub struct CloseCampaign {
    pub signer: Address,
    pub merchant_addr: Address,
    pub campaign: Campaign,
    pub escrow_lamports: u64,
    pub withdraw_lamports: u64,
}

impl CloseCampaign {
    /// The error `close_campaign` reports, if any, in check order.
    pub open spec fn spec_close_err(self) -> Option<Error> {
        if self.campaign.owner != self.merchant_addr {
            Some(Error::InvalidCampaignOwner)
        } else if self.campaign.is_closed {
            Some(Error::CampaignClosed)
        } else if self.withdraw_lamports + self.escrow_lamports > u64::MAX {
            Some(Error::Overflow)
        } else {
            None
        }
    }

    /// Close the campaign: sweep the whole remaining escrow balance to the
    /// merchant-supplied withdraw address (signed by the escrow's seeds),
    /// zero the available budget and mark the campaign closed.
    pub fn close_campaign(&mut self) -> (r: Result<(), Error>)
        ensures
            match r {
                Ok(_) => old(self).spec_close_err() is None && final(self).escrow_lamports == 0
                    && final(self).campaign.available_budget == 0 && final(self).campaign.is_closed
                    && *final(self) == (CloseCampaign {
                    escrow_lamports: 0,
                    withdraw_lamports: (old(self).withdraw_lamports + old(
                        self,
                    ).escrow_lamports) as u64,
                    campaign: Campaign {
                        available_budget: 0,
                        is_closed: true,
                        ..old(self).campaign
                    },
                    ..*old(self)
                }),
                Err(e) => old(self).spec_close_err() == Some(e) && *final(self) == *old(self),
            },
    {
        if self.campaign.owner != self.merchant_addr {
            return Err(Error::InvalidCampaignOwner);
        }
        if self.campaign.is_closed {
            return Err(Error::CampaignClosed);
        }
        if self.escrow_lamports > u64::MAX - self.withdraw_lamports {
            return Err(Error::Overflow);
        }
        let amount = self.escrow_lamports;
        if let Err(_) = native_transfer(&mut self.escrow_lamports, &mut self.withdraw_lamports, amount) {
            return Err(Error::Overflow);
        }
        self.campaign.available_budget = 0;
        self.campaign.is_closed = true;
        Ok(())
    }
}

/// Accounts of the campaign-update instruction.
pub struct UpdateCampaign {
    pub signer: Address,
    pub signer_lamports: u64,
    pub config: Config,
    pub treasury_lamports: u64,
    pub merchant_addr: Address,
    pub campaign: Campaign,
    pub escrow_lamports: u64,
    pub now: i64,
}

impl UpdateCampaign {
    /// An open campaign's escrow holds exactly its available budget.
    pub open spec fn wf(self) -> bool {
        !self.campaign.is_closed ==> self.escrow_lamports == self.campaign.available_budget
    }

    /// The error `update_campaign` reports, if any, in check order.
    pub open spec fn spec_update_err(
        self,
        name: Option<String>,
        description: Option<String>,
        product_uri: Option<String>,
        ends_at: Option<i64>,
        additional_budget: Option<u64>,
    ) -> Option<Error> {
        let name_e = match name {
            Some(n) => spec_name_err(n@),
            None => None,
        };
        let desc_e = match description {
            Some(d) => spec_description_err(d@),
            None => None,
        };
        if self.campaign.owner != self.merchant_addr {
            Some(Error::InvalidCampaignOwner)
        } else if self.campaign.is_closed {
            Some(Error::CampaignClosed)
        } else if name_e is Some {
            name_e
        } else if desc_e is Some {
            desc_e
        } else if product_uri matches Some(u) && !url_accepted(u@) {
            Some(Error::InvalidProductURI)
        } else if ends_at matches Some(t) && t <= self.now {
            Some(Error::InvalidCampaignPeriod)
        } else {
            match additional_budget {
                None => None,
                Some(b) => {
                    let fee = spec_fee(b, self.config.campaign_creation_fee);
                    if fee > u64::MAX {
                        Some(Error::Overflow)
                    } else if self.signer_lamports < b {
                        Some(Error::InsufficientBalance)
                    } else if self.escrow_lamports + b > u64::MAX {
                        Some(Error::Overflow)
                    } else if self.signer_lamports - b < fee {
                        Some(Error::InsufficientBalance)
                    } else if self.treasury_lamports + fee > u64::MAX {
                        Some(Error::Overflow)
                    } else if self.campaign.total_budget + b > u64::MAX {
                        Some(Error::Overflow)
                    } else if self.campaign.available_budget + b > u64::MAX {
                        Some(Error::Overflow)
                    } else {
                        None
                    }
                },
            }
        }
    }

    /// The campaign record after a successful update.
    pub open spec fn spec_updated_campaign(
        self,
        name: Option<String>,
        description: Option<String>,
        product_uri: Option<String>,
        commission_per_referral: Option<u64>,
        ends_at: Option<i64>,
        additional_budget: Option<u64>,
    ) -> Campaign {
        let new_commission = match commission_per_referral {
            Some(v) => v,
            None => self.campaign.commission_per_referral,
        };
        let added = match additional_budget {
            Some(b) => b as int,
            None => 0,
        };
        let new_available = self.campaign.available_budget + added;
        Campaign {
            name: (match name {
                Some(n) => n,
                None => self.campaign.name,
            }),
            description: (match description {
                Some(d) => d,
                None => self.campaign.description,
            }),
            product_uri: (match product_uri {
                Some(u) => u,
                None => self.campaign.product_uri,
            }),
            commission_per_referral: new_commission,
            ends_at: (match ends_at {
                Some(t) => Some(t),
                None => self.campaign.ends_at,
            }),
            total_budget: (self.campaign.total_budget + added) as u64,
            available_budget: new_available as u64,
            is_paused: (if additional_budget is Some && self.campaign.is_paused && new_available
                >= new_commission {
                false
            } else {
                self.campaign.is_paused
            }),
            ..self.campaign
        }
    }

    /// Update the supplied fields of an open campaign owned by the signing
    /// merchant. A supplied end time must lie strictly in the future. A
    /// supplied additional budget is moved into the escrow, charged the
    /// creation fee to the treasury, added to both budget counters, and
    /// unpauses a paused campaign whose budget again covers one commission.
    /// Either every supplied field is applied or none is.
    pub fn update_campaign(
        &mut self,
        name: Option<String>,
        description: Option<String>,
        product_uri: Option<String>,
        commission_per_referral: Option<u64>,
        ends_at: Option<i64>,
        additional_budget: Option<u64>,
    ) -> (r: Result<(), Error>)
        requires
            old(self).wf(),
        ensures
            final(self).wf(),
            match r {
                Ok(_) => old(self).spec_update_err(name, description, product_uri, ends_at, additional_budget)
                    is None && ({
                    let added = match additional_budget {
                        Some(b) => b as int,
                        None => 0,
                    };
                    let fee = match additional_budget {
                        Some(b) => spec_fee(b, old(self).config.campaign_creation_fee),
                        None => 0,
                    };
                    *final(self) == (UpdateCampaign {
                        signer_lamports: (old(self).signer_lamports - added - fee) as u64,
                        escrow_lamports: (old(self).escrow_lamports + added) as u64,
                        treasury_lamports: (old(self).treasury_lamports + fee) as u64,
                        campaign: old(self).spec_updated_campaign(
                            name,
                            description,
                            product_uri,
                            commission_per_referral,
                            ends_at,
                            additional_budget,
                        ),
                        ..*old(self)
                    })
                }),
                Err(e) => old(self).spec_update_err(name, description, product_uri, ends_at, additional_budget)
                    == Some(e) && *final(self) == *old(self),
            },
    {
        if self.campaign.owner != self.merchant_addr {
            return Err(Error::InvalidCampaignOwner);
        }
        if self.campaign.is_closed {
            return Err(Error::CampaignClosed);
        }
        if let Some(n) = &name {
            if let Some(e) = check_name(n) {
                return Err(e);
            }
        }
        if let Some(d) = &description {
            if let Some(e) = check_description(d) {
                return Err(e);
            }
        }
        if let Some(u) = &product_uri {
            if !parse_url_ok(u.as_str()) {
                return Err(Error::InvalidProductURI);
            }
        }
        if let Some(t) = ends_at {
            if t <= self.now {
                return Err(Error::InvalidCampaignPeriod);
            }
        }
        if let Some(b) = additional_budget {
            let fee: u64 = match mul_div_floor(b, self.config.campaign_creation_fee as u64, 10000)
                {
                Ok(v) => v,
                Err(_) => return Err(Error::Overflow),
            };
            if self.signer_lamports < b {
                return Err(Error::InsufficientBalance);
            }
            if b > u64::MAX - self.escrow_lamports {
                return Err(Error::Overflow);
            }
            if self.signer_lamports - b < fee {
                return Err(Error::InsufficientBalance);
            }
            if fee > u64::MAX - self.treasury_lamports {
                return Err(Error::Overflow);
            }
            if b > u64::MAX - self.campaign.total_budget {
                return Err(Error::Overflow);
            }
            if b > u64::MAX - self.campaign.available_budget {
                return Err(Error::Overflow);
            }
            if let Err(_) = native_transfer(&mut self.signer_lamports, &mut self.escrow_lamports, b) {
                return Err(Error::Overflow);
            }
            if let Err(_) = native_transfer(
                &mut self.signer_lamports,
                &mut self.treasury_lamports,
                fee,
            ) {
                return Err(Error::Overflow);
            }
            self.campaign.total_budget = self.campaign.total_budget + b;
            self.campaign.available_budget = self.campaign.available_budget + b;
        }
        if let Some(n) = name {
            self.campaign.name = n;
        }
        if let Some(d) = description {
            self.campaign.description = d;
        }
        if let Some(u) = product_uri {
            self.campaign.product_uri = u;
        }
        if let Some(v) = commission_per_referral {
            self.campaign.commission_per_referral = v;
        }
        if let Some(t) = ends_at {
            self.campaign.ends_at = Some(t);
        }
        if additional_budget.is_some() && self.campaign.is_paused && self.campaign.available_budget
            >= self.campaign.commission_per_referral {
            self.campaign.is_paused = false;
        }
        Ok(())
    }
}

/// Accounts of the configuration-update instruction.
pub struct UpdateConfig {
    pub signer: Address,
    pub config: Config,
}

impl UpdateConfig {
    /// Update the supplied fee fields; only the admin may direct it.
    pub fn update_config(
        &mut self,
        campaign_creation_fee: Option<u16>,
        commission_fee: Option<u16>,
    ) -> (r: Result<(), Error>)
        ensures
            match r {
                Ok(_) => old(self).signer == old(self).config.admin && *final(self)
                    == (UpdateConfig {
                    config: Config {
                        campaign_creation_fee: (match campaign_creation_fee {
                            Some(f) => f,
                            None => old(self).config.campaign_creation_fee,
                        }),
                        commission_fee: (match commission_fee {
                            Some(f) => f,
                            None => old(self).config.commission_fee,
                        }),
                        ..old(self).config
                    },
                    ..*old(self)
                }),
                Err(e) => old(self).signer != old(self).config.admin && e == Error::InvalidAdmin
                    && *final(self) == *old(self),
            },
    {
        if self.signer != self.config.admin {
            return Err(Error::InvalidAdmin);
        }
        if let Some(f) = campaign_creation_fee {
            self.config.campaign_creation_fee = f;
        }
        if let Some(f) = commission_fee {
            self.config.commission_fee = f;
        }
        Ok(())
    }
}

/// Accounts of the fee-withdrawal instruction.
pub struct WithdrawFees {
    pub signer: Address,
    pub config: Config,
    pub treasury_lamports: u64,
    pub withdraw_lamports: u64,
}

impl WithdrawFees {
    /// The error `withdraw_fees` reports, if any, in check order.
    pub open spec fn spec_withdraw_fees_err(self) -> Option<Error> {
        if self.signer != self.config.admin {
            Some(Error::InvalidAdmin)
        } else if self.withdraw_lamports + self.treasury_lamports > u64::MAX {
            Some(Error::Overflow)
        } else {
            None
        }
    }

    /// Sweep the whole treasury balance to the withdraw address, signed by
    /// the treasury's seeds; only the admin may direct it.
    pub fn withdraw_fees(&mut self) -> (r: Result<(), Error>)
        ensures
            match r {
                Ok(_) => old(self).spec_withdraw_fees_err() is None && *final(self)
                    == (WithdrawFees {
                    treasury_lamports: 0,
                    withdraw_lamports: (old(self).withdraw_lamports + old(self).treasury_lamports) as u64,
                    ..*old(self)
                }),
                Err(e) => old(self).spec_withdraw_fees_err() == Some(e) && *final(self) == *old(self),
            },
    {
        if self.signer != self.config.admin {
            return Err(Error::InvalidAdmin);
        }
        if self.treasury_lamports > u64::MAX - self.withdraw_lamports {
            return Err(Error::Overflow);
        }
        let amount = self.treasury_lamports;
        if amount > 0 {
            if let Err(_) = native_transfer(
                &mut self.treasury_lamports,
                &mut self.withdraw_lamports,
                amount,
            ) {
                return Err(Error::Overflow);
            }
        }
        Ok(())
    }
}

} // verus!
