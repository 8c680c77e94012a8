//! Derived-address scheme.
//!
//! Every persistent record and program-owned asset account is addressed by
//! a seed tuple under a program id. Derivation yields the address and a
//! bump byte; the bump is persisted inside the record so that later calls
//! can re-derive and check the address instead of searching again. The
//! authoritative seed catalogue of every record kind lives here.

use vstd::prelude::*;

use anchor_lang::prelude::Pubkey;
use vstd::slice::slice_to_vec;
use vstd::string::StringSliceAdditionalSpecFns;

use crate::keys::Address;

verus! {

/// Failures of the addressing and record layer.
#[derive(Clone, Copy, PartialEq, Eq, Structural, Debug)]
pub enum StoreError {
    BadSeeds,
    WrongOwner,
    WrongKind,
    AlreadyInitialized,
    InsufficientBalance,
    Overflow,
}

/// The derived pair for a seed tuple under a program id, over the
/// program's four address words; determined by seeds and program alone,
/// `None` in the statistically improbable event that no bump works.
pub uninterp spec fn spec_derive_raw(seeds: Seq<Seq<u8>>, program: (u64, u64, u64, u64)) -> Option<
    ((u64, u64, u64, u64), u8),
>;

/// The derived (address, bump) pair for a seed tuple under a program id.
pub open spec fn spec_derive(seeds: Seq<Seq<u8>>, program: Address) -> Option<(Address, u8)> {
    match spec_derive_raw(seeds, program.spec_words()) {
        None => None,
        Some((w, b)) => Some((Address::spec_from_words(w), b)),
    }
}

/// Relies on Pubkey::try_find_program_address (anchor_lang's re-export of
/// the address derivation): the result is a deterministic function of the
/// seed tuple and program id; `None` when no bump yields a valid address.
#[verifier::external_body]
fn pda_derive(seeds: &Vec<Vec<u8>>, program: &Address) -> (r: Option<(Address, u8)>)
    ensures
        r == (match spec_derive_raw(seeds.deep_view(), program.spec_words()) {
            None => None,
            Some((w, b)) => Some((Address::spec_from_words(w), b)),
        }),
{
    let pw = [program.w0.to_le_bytes(), program.w1.to_le_bytes(), program.w2.to_le_bytes(), program.w3.to_le_bytes()].concat();
    let refs: Vec<&[u8]> = seeds.iter().map(|s| s.as_slice()).collect();
    match Pubkey::try_find_program_address(&refs, &Pubkey::try_from(pw.as_slice()).unwrap()) {
        None => None,
        Some((a, bump)) => {
            let b = a.to_bytes();
            let w = |i: usize| u64::from_le_bytes(b[i..i + 8].try_into().unwrap());
            Some((Address { w0: w(0), w1: w(8), w2: w(16), w3: w(24) }, bump))
        },
    }
}

/// Derive the address and bump for a seed tuple under a program id.
pub fn derive_address(program: &Address, seeds: &Vec<Vec<u8>>) -> (r: Option<(Address, u8)>)
    ensures
        r == spec_derive(seeds.deep_view(), *program),
{
    pda_derive(seeds, program)
}

/// Re-derive a record's address from the seeds and bump it claims and
/// check both; a mismatch is `BadSeeds`.
pub fn verify_signer(
    program: &Address,
    seeds: &Vec<Vec<u8>>,
    expected_addr: &Address,
    expected_bump: u8,
) -> (r: Result<(), StoreError>)
    ensures
        r is Ok <==> spec_derive(seeds.deep_view(), *program) == Some((*expected_addr, expected_bump)),
        r is Err ==> r == Err::<(), StoreError>(StoreError::BadSeeds),
{
    match pda_derive(seeds, program) {
        Some((addr, bump)) => {
            if addr == *expected_addr && bump == expected_bump {
                Ok(())
            } else {
                Err(StoreError::BadSeeds)
            }
        },
        None => Err(StoreError::BadSeeds),
    }
}

/// Law: derivation is deterministic. The derived pair is a function of the
/// seed tuple and the program id alone, so the same seeds under the same
/// program always name the same address and bump, across invocations.
pub proof fn lemma_derive_deterministic(
    s1: Seq<Seq<u8>>,
    s2: Seq<Seq<u8>>,
    p1: Address,
    p2: Address,
)
    requires
        s1 == s2,
        p1 == p2,
    ensures
        spec_derive(s1, p1) == spec_derive(s2, p2),
{
}

/// Law: bump persistence. A record created at the derived address with the
/// derived bump always passes signer verification afterwards: re-deriving
/// its seed tuple returns exactly the persisted pair.
pub proof fn lemma_bump_persistence(seeds: Seq<Seq<u8>>, program: Address, addr: Address, bump: u8)
    requires
        spec_derive(seeds, program) == Some((addr, bump)),
    ensures
        forall|a2: Address, b2: u8|
            spec_derive(seeds, program) == Some((a2, b2)) ==> a2 == addr && b2 == bump,
{
}

/// Little-endian bytes of a `u64`.
pub open spec fn spec_le8(x: u64) -> Seq<u8> {
    seq![
        (x & 0xff) as u8,
        ((x >> 8) & 0xff) as u8,
        ((x >> 16) & 0xff) as u8,
        ((x >> 24) & 0xff) as u8,
        ((x >> 32) & 0xff) as u8,
        ((x >> 40) & 0xff) as u8,
        ((x >> 48) & 0xff) as u8,
        ((x >> 56) & 0xff) as u8,
    ]
}

/// Little-endian encoding of a `u64` seed component.
pub fn le8(x: u64) -> (r: Vec<u8>)
    ensures
        r@ == spec_le8(x),
{
    let mut r: Vec<u8> = Vec::new();
    r.push((x & 0xff) as u8);
    r.push(((x >> 8) & 0xff) as u8);
    r.push(((x >> 16) & 0xff) as u8);
    r.push(((x >> 24) & 0xff) as u8);
    r.push(((x >> 32) & 0xff) as u8);
    r.push(((x >> 40) & 0xff) as u8);
    r.push(((x >> 48) & 0xff) as u8);
    r.push(((x >> 56) & 0xff) as u8);
    proof {
        assert(r@ =~= spec_le8(x));
    }
    r
}

/// The 32 bytes of an address, word by word in little-endian order.
pub open spec fn spec_addr_bytes(a: Address) -> Seq<u8> {
    spec_le8(a.w0) + spec_le8(a.w1) + spec_le8(a.w2) + spec_le8(a.w3)
}

/// Byte encoding of an address used as a seed component.
pub fn addr_bytes(a: &Address) -> (r: Vec<u8>)
    ensures
        r@ == spec_addr_bytes(*a),
{
    let mut r = le8(a.w0);
    let mut r1 = le8(a.w1);
    let mut r2 = le8(a.w2);
    let mut r3 = le8(a.w3);
    r.append(&mut r1);
    r.append(&mut r2);
    r.append(&mut r3);
    r
}

/// A literal seed tag.
fn tag(s: &str) -> (r: Vec<u8>)
    ensures
        r@ == s.spec_bytes(),
{
    slice_to_vec(s.as_bytes())
}

/// The seed tuple of each record kind, by program. This catalogue is the
/// authoritative list of byte seeds and their order.
pub enum SeedSchema {
    /// AMM configuration: ("config", seed).
    AmmConfig { seed: u64 },
    /// AMM liquidity-provider mint: ("mint", config).
    AmmLpMint { config: Address },
    /// Escrow state: ("escrow", maker, seed).
    EscrowState { maker: Address, seed: u64 },
    /// Marketplace: ("marketplace", name).
    Marketplace { name_bytes: Vec<u8> },
    /// Marketplace treasury: ("treasury", marketplace).
    MarketTreasury { marketplace: Address },
    /// Marketplace rewards mint: ("rewards", marketplace).
    MarketRewards { marketplace: Address },
    /// Listing: ("listing", marketplace, nft_mint).
    Listing { marketplace: Address, nft_mint: Address },
    /// Staking configuration: ("config").
    StakeConfig,
    /// Staking rewards mint: ("rewards", stake_config).
    StakeRewards { config: Address },
    /// Staking user record: ("user", user).
    StakeUser { user: Address },
    /// Stake record: ("stake", stake_config, nft_mint).
    StakeRecord { config: Address, mint: Address },
    /// Vault state: ("state", owner).
    VaultState { owner: Address },
    /// Vault native account: (state_address).
    VaultAccount { state: Address },
    /// Campaign-ledger configuration: ("config").
    FiliConfig,
    /// Campaign-ledger treasury: ("treasury").
    FiliTreasury,
    /// Merchant record: ("merchant", signer).
    FiliMerchant { signer: Address },
    /// Affiliate record: ("affiliate", signer).
    FiliAffiliate { signer: Address },
    /// Campaign record: ("campaign", merchant, seed).
    FiliCampaign { merchant: Address, seed: u64 },
    /// Campaign escrow: ("escrow", campaign).
    FiliEscrow { campaign: Address },
    /// Per-enrollment record: ("campaign_affiliate", campaign, affiliate).
    FiliCampaignAffiliate { campaign: Address, affiliate: Address },
}

/// The byte seeds of a schema, in order.
pub open spec fn spec_seeds(s: SeedSchema) -> Seq<Seq<u8>> {
    match s {
        SeedSchema::AmmConfig { seed } => seq![("config").spec_bytes(), spec_le8(seed)],
        SeedSchema::AmmLpMint { config } => seq![("mint").spec_bytes(), spec_addr_bytes(config)],
        SeedSchema::EscrowState { maker, seed } => seq![
            ("escrow").spec_bytes(),
            spec_addr_bytes(maker),
            spec_le8(seed),
        ],
        SeedSchema::Marketplace { name_bytes } => seq![("marketplace").spec_bytes(), name_bytes@],
        SeedSchema::MarketTreasury { marketplace } => seq![
            ("treasury").spec_bytes(),
            spec_addr_bytes(marketplace),
        ],
        SeedSchema::MarketRewards { marketplace } => seq![
            ("rewards").spec_bytes(),
            spec_addr_bytes(marketplace),
        ],
        SeedSchema::Listing { marketplace, nft_mint } => seq![
            ("listing").spec_bytes(),
            spec_addr_bytes(marketplace),
            spec_addr_bytes(nft_mint),
        ],
        SeedSchema::StakeConfig => seq![("config").spec_bytes()],
        SeedSchema::StakeRewards { config } => seq![
            ("rewards").spec_bytes(),
            spec_addr_bytes(config),
        ],
        SeedSchema::StakeUser { user } => seq![("user").spec_bytes(), spec_addr_bytes(user)],
        SeedSchema::StakeRecord { config, mint } => seq![
            ("stake").spec_bytes(),
            spec_addr_bytes(config),
            spec_addr_bytes(mint),
        ],
        SeedSchema::VaultState { owner } => seq![("state").spec_bytes(), spec_addr_bytes(owner)],
        SeedSchema::VaultAccount { state } => seq![spec_addr_bytes(state)],
        SeedSchema::FiliConfig => seq![("config").spec_bytes()],
        SeedSchema::FiliTreasury => seq![("treasury").spec_bytes()],
        SeedSchema::FiliMerchant { signer } => seq![
            ("merchant").spec_bytes(),
            spec_addr_bytes(signer),
        ],
        SeedSchema::FiliAffiliate { signer } => seq![
            ("affiliate").spec_bytes(),
            spec_addr_bytes(signer),
        ],
        SeedSchema::FiliCampaign { merchant, seed } => seq![
            ("campaign").spec_bytes(),
            spec_addr_bytes(merchant),
            spec_le8(seed),
        ],
        SeedSchema::FiliEscrow { campaign } => seq![
            ("escrow").spec_bytes(),
            spec_addr_bytes(campaign),
        ],
        SeedSchema::FiliCampaignAffiliate { campaign, affiliate } => seq![
            ("campaign_affiliate").spec_bytes(),
            spec_addr_bytes(campaign),
            spec_addr_bytes(affiliate),
        ],
    }
}

/// An authority directing a transfer or mutation: either a signing key, or
/// a program-derived address presented with its seed schema and claimed
/// bump.
pub enum Authority {
    Signer(Address),
    Derived(SeedSchema, u8),
}

/// Resolve an authority to the address it speaks for. A signer speaks for
/// its own address; a derived authority must re-derive under `program` to
/// exactly its claimed bump, else `BadSeeds`. A native or token account
/// owned by a derived address can thus only be debited with the seeds that
/// derive it.
pub fn resolve_authority(program: &Address, auth: &Authority) -> (r: Result<Address, StoreError>)
    ensures
        match r {
            Ok(a) => match *auth {
                Authority::Signer(s) => a == s,
                Authority::Derived(schema, bump) => spec_derive(spec_seeds(schema), *program)
                    == Some((a, bump)),
            },
            Err(e) => e == StoreError::BadSeeds && (match *auth {
                Authority::Signer(_) => false,
                Authority::Derived(schema, bump) => !(spec_derive(spec_seeds(schema), *program)
                    matches Some(p) && p.1 == bump),
            }),
        },
{
    match auth {
        Authority::Signer(s) => Ok(*s),
        Authority::Derived(schema, bump) => {
            let seeds = seed_bytes(schema);
            match pda_derive(&seeds, program) {
                Some((a, b)) => {
                    if b == *bump {
                        Ok(a)
                    } else {
                        Err(StoreError::BadSeeds)
                    }
                },
                None => Err(StoreError::BadSeeds),
            }
        },
    }
}

/// Build the byte seeds of a schema, in order.
pub fn seed_bytes(s: &SeedSchema) -> (r: Vec<Vec<u8>>)
    ensures
        r.deep_view() == spec_seeds(*s),
{
    let mut out: Vec<Vec<u8>> = Vec::new();
    match s {
        SeedSchema::AmmConfig { seed } => {
            out.push(tag("config"));
            out.push(le8(*seed));
        },
        SeedSchema::AmmLpMint { config } => {
            out.push(tag("mint"));
            out.push(addr_bytes(config));
        },
        SeedSchema::EscrowState { maker, seed } => {
            out.push(tag("escrow"));
            out.push(addr_bytes(maker));
            out.push(le8(*seed));
        },
        SeedSchema::Marketplace { name_bytes } => {
            out.push(tag("marketplace"));
            out.push(slice_to_vec(name_bytes.as_slice()));
        },
        SeedSchema::MarketTreasury { marketplace } => {
            out.push(tag("treasury"));
            out.push(addr_bytes(marketplace));
        },
        SeedSchema::MarketRewards { marketplace } => {
            out.push(tag("rewards"));
            out.push(addr_bytes(marketplace));
        },
        SeedSchema::Listing { marketplace, nft_mint } => {
            out.push(tag("listing"));
            out.push(addr_bytes(marketplace));
            out.push(addr_bytes(nft_mint));
        },
        SeedSchema::StakeConfig => {
            out.push(tag("config"));
        },
        SeedSchema::StakeRewards { config } => {
            out.push(tag("rewards"));
            out.push(addr_bytes(config));
        },
        SeedSchema::StakeUser { user } => {
            out.push(tag("user"));
            out.push(addr_bytes(user));
        },
        SeedSchema::StakeRecord { config, mint } => {
            out.push(tag("stake"));
            out.push(addr_bytes(config));
            out.push(addr_bytes(mint));
        },
        SeedSchema::VaultState { owner } => {
            out.push(tag("state"));
            out.push(addr_bytes(owner));
        },
        SeedSchema::VaultAccount { state } => {
            out.push(addr_bytes(state));
        },
        SeedSchema::FiliConfig => {
            out.push(tag("config"));
        },
        SeedSchema::FiliTreasury => {
            out.push(tag("treasury"));
        },
        SeedSchema::FiliMerchant { signer } => {
            out.push(tag("merchant"));
            out.push(addr_bytes(signer));
        },
        SeedSchema::FiliAffiliate { signer } => {
            out.push(tag("affiliate"));
            out.push(addr_bytes(signer));
        },
        SeedSchema::FiliCampaign { merchant, seed } => {
            out.push(tag("campaign"));
            out.push(addr_bytes(merchant));
            out.push(le8(*seed));
        },
        SeedSchema::FiliEscrow { campaign } => {
            out.push(tag("escrow"));
            out.push(addr_bytes(campaign));
        },
        SeedSchema::FiliCampaignAffiliate { campaign, affiliate } => {
            out.push(tag("campaign_affiliate"));
            out.push(addr_bytes(campaign));
            out.push(addr_bytes(affiliate));
        },
    }
    proof {
        assert(out.deep_view() =~~= spec_seeds(*s));
    }
    out
}

} // verus!
