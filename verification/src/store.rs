//! Typed record store.
//!
//! Records are persisted in per-address slots owned by a program. Loading
//! checks program ownership and the record-kind tag; creation rejects an
//! occupied address and debits the payer for the rent-equivalent; closing
//! refunds the slot's balance and removes the record. Creation at a derived
//! address persists exactly the derived bump's address.

use vstd::prelude::*;

use crate::amm;
use crate::escrow;
use crate::fili8;
use crate::keys::Address;
use crate::marketplace;
use crate::pda::{derive_address, spec_derive, StoreError};
use crate::staking;
use crate::vault;

verus! {

/// A persistent record of any of the six programs, tagged by kind.
pub enum Record {
    AmmConfig(amm::Config),
    EscrowState(escrow::EscrowState),
    Marketplace(marketplace::Marketplace),
    Listing(marketplace::Listing),
    StakeConfig(staking::StakeConfig),
    UserAccount(staking::UserAccount),
    StakeAccount(staking::StakeAccount),
    VaultState(vault::VaultState),
    FiliConfig(fili8::Config),
    Merchant(fili8::Merchant),
    Affiliate(fili8::Affiliate),
    Campaign(fili8::Campaign),
    CampaignAffiliate(fili8::CampaignAffiliate),
}

/// The kind tag of a record.
#[derive(Clone, Copy, PartialEq, Eq, Structural, Debug)]
pub enum RecordKind {
    AmmConfig,
    EscrowState,
    Marketplace,
    Listing,
    StakeConfig,
    UserAccount,
    StakeAccount,
    VaultState,
    FiliConfig,
    Merchant,
    Affiliate,
    Campaign,
    CampaignAffiliate,
}

pub open spec fn spec_kind(r: Record) -> RecordKind {
    match r {
        Record::AmmConfig(_) => RecordKind::AmmConfig,
        Record::EscrowState(_) => RecordKind::EscrowState,
        Record::Marketplace(_) => RecordKind::Marketplace,
        Record::Listing(_) => RecordKind::Listing,
        Record::StakeConfig(_) => RecordKind::StakeConfig,
        Record::UserAccount(_) => RecordKind::UserAccount,
        Record::StakeAccount(_) => RecordKind::StakeAccount,
        Record::VaultState(_) => RecordKind::VaultState,
        Record::FiliConfig(_) => RecordKind::FiliConfig,
        Record::Merchant(_) => RecordKind::Merchant,
        Record::Affiliate(_) => RecordKind::Affiliate,
        Record::Campaign(_) => RecordKind::Campaign,
        Record::CampaignAffiliate(_) => RecordKind::CampaignAffiliate,
    }
}

/// The kind tag of a record.
pub fn kind_of(r: &Record) -> (k: RecordKind)
    ensures
        k == spec_kind(*r),
{
    match r {
        Record::AmmConfig(_) => RecordKind::AmmConfig,
        Record::EscrowState(_) => RecordKind::EscrowState,
        Record::Marketplace(_) => RecordKind::Marketplace,
        Record::Listing(_) => RecordKind::Listing,
        Record::StakeConfig(_) => RecordKind::StakeConfig,
        Record::UserAccount(_) => RecordKind::UserAccount,
        Record::StakeAccount(_) => RecordKind::StakeAccount,
        Record::VaultState(_) => RecordKind::VaultState,
        Record::FiliConfig(_) => RecordKind::FiliConfig,
        Record::Merchant(_) => RecordKind::Merchant,
        Record::Affiliate(_) => RecordKind::Affiliate,
        Record::Campaign(_) => RecordKind::Campaign,
        Record::CampaignAffiliate(_) => RecordKind::CampaignAffiliate,
    }
}

/// One occupied address: the owning program, the rent balance the slot
/// holds, and the record.
pub struct Slot {
    pub owner: Address,
    pub lamports: u64,
    pub record: Record,
}

/// The record store: a map from address to slot.
pub struct Store {
    entries: Vec<(Address, Slot)>,
}

impl Store {
    /// The map a sequence of entries denotes (first occurrence wins;
    /// entries are kept unique anyway).
    pub closed spec fn view_of(entries: Seq<(Address, Slot)>) -> Map<Address, Slot>
        decreases entries.len(),
    {
        if entries.len() == 0 {
            Map::empty()
        } else {
            Self::view_of(entries.drop_first()).insert(entries[0].0, entries[0].1)
        }
    }

    /// The store's contents as a map from address to slot.
    pub closed spec fn contents(self) -> Map<Address, Slot> {
        Self::view_of(self.entries@)
    }

    spec fn unique_keys(entries: Seq<(Address, Slot)>) -> bool {
        forall|i: int, j: int|
            0 <= i < j < entries.len() ==> (#[trigger] entries[i]).0 != (#[trigger] entries[j]).0
    }

    /// The store's internal invariant: one slot per address. `new`
    /// establishes it and every operation preserves it.
    pub closed spec fn wf(self) -> bool {
        Self::unique_keys(self.entries@)
    }

    proof fn lemma_view_contains(entries: Seq<(Address, Slot)>, a: Address)
        ensures
            Self::view_of(entries).contains_key(a) <==> exists|i: int|
                0 <= i < entries.len() && (#[trigger] entries[i]).0 == a,
        decreases entries.len(),
    {
        if entries.len() > 0 {
            Self::lemma_view_contains(entries.drop_first(), a);
            if Self::view_of(entries).contains_key(a) {
                if entries[0].0 == a {
                    assert(0 <= 0 < entries.len() && (entries[0]).0 == a);
                } else {
                    let i = choose|i: int|
                        0 <= i < entries.drop_first().len() && (#[trigger] entries.drop_first()[i]).0
                            == a;
                    assert((entries[i + 1]).0 == a);
                }
            }
            if exists|i: int| 0 <= i < entries.len() && (#[trigger] entries[i]).0 == a {
                let i = choose|i: int| 0 <= i < entries.len() && (#[trigger] entries[i]).0 == a;
                if i > 0 {
                    assert((entries.drop_first()[i - 1]).0 == a);
                }
            }
        }
    }

    proof fn lemma_view_get(entries: Seq<(Address, Slot)>, i: int)
        requires
            Self::unique_keys(entries),
            0 <= i < entries.len(),
        ensures
            Self::view_of(entries).contains_key(entries[i].0),
            Self::view_of(entries)[entries[i].0] == entries[i].1,
        decreases entries.len(),
    {
        if i == 0 {
            Self::lemma_view_contains(entries, entries[0].0);
        } else {
            Self::lemma_view_get(entries.drop_first(), i - 1);
            assert(entries.drop_first()[i - 1] == entries[i]);
        }
    }

    proof fn lemma_view_push(entries: Seq<(Address, Slot)>, a: Address, s: Slot)
        requires
            !Self::view_of(entries).contains_key(a),
        ensures
            Self::view_of(entries.push((a, s))) == Self::view_of(entries).insert(a, s),
        decreases entries.len(),
    {
        Self::lemma_view_contains(entries, a);
        if entries.len() == 0 {
            assert(entries.push((a, s)).drop_first() =~= Seq::<(Address, Slot)>::empty());
            assert(entries =~= Seq::<(Address, Slot)>::empty());
            assert(Self::view_of(Seq::<(Address, Slot)>::empty()) =~= Map::<Address, Slot>::empty());
            assert((entries.push((a, s)))[0] == (a, s));
            assert(Self::view_of(entries.push((a, s))) =~= Self::view_of(entries).insert(a, s));
        } else {
            assert(entries.push((a, s)).drop_first() =~= entries.drop_first().push((a, s)));
            Self::lemma_view_contains(entries.drop_first(), a);
            Self::lemma_view_push(entries.drop_first(), a, s);
            assert(entries[0].0 != a);
            assert(Self::view_of(entries.push((a, s))) =~= Self::view_of(entries).insert(a, s));
        }
    }

    proof fn lemma_view_remove(entries: Seq<(Address, Slot)>, i: int)
        requires
            Self::unique_keys(entries),
            0 <= i < entries.len(),
        ensures
            Self::view_of(entries.remove(i)) == Self::view_of(entries).remove(entries[i].0),
        decreases entries.len(),
    {
        let a = entries[i].0;
        if i == 0 {
            Self::lemma_view_contains(entries.drop_first(), a);
            assert(forall|j: int|
                0 <= j < entries.drop_first().len() ==> (#[trigger] entries.drop_first()[j]).0
                    != a);
            assert(!Self::view_of(entries.drop_first()).contains_key(a));
            assert(entries.remove(0) =~= entries.drop_first());
            assert(Self::view_of(entries.remove(0)) =~= Self::view_of(entries).remove(a));
        } else {
            assert(entries.remove(i).drop_first() =~= entries.drop_first().remove(i - 1));
            assert(entries.drop_first()[i - 1] == entries[i]);
            Self::lemma_view_remove(entries.drop_first(), i - 1);
            assert(entries[0].0 != a);
            assert(Self::view_of(entries.remove(i)) =~= Self::view_of(entries).remove(a));
        }
    }

    /// An empty store.
    pub fn new() -> (r: Store)
        ensures
            r.wf(),
            r.contents() == Map::<Address, Slot>::empty(),
    {
        Store { entries: Vec::new() }
    }

    /// The index of the slot at `addr`, if occupied.
    fn find_index(&self, addr: &Address) -> (r: Option<usize>)
        requires
            self.wf(),
        ensures
            match r {
                Some(i) => i < self.entries@.len() && self.entries@[i as int].0 == *addr
                    && self.contents().contains_key(*addr) && self.contents()[*addr]
                    == self.entries@[i as int].1,
                None => !self.contents().contains_key(*addr),
            },
    {
        let mut i: usize = 0;
        while i < self.entries.len()
            invariant
                self.wf(),
                i <= self.entries@.len(),
                forall|j: int| 0 <= j < i ==> (#[trigger] self.entries@[j]).0 != *addr,
            decreases self.entries@.len() - i,
        {
            if self.entries[i].0 == *addr {
                proof {
                    Store::lemma_view_get(self.entries@, i as int);
                }
                return Some(i);
            }
            i = i + 1;
        }
        proof {
            Store::lemma_view_contains(self.entries@, *addr);
        }
        None
    }

    /// Load the record at `addr`: it must exist, be owned by `program`
    /// (`WrongOwner` otherwise, absent addresses included) and carry the
    /// expected kind tag (`WrongKind` otherwise).
    pub fn load(&self, addr: &Address, program: &Address, kind: RecordKind) -> (r: Result<
        &Record,
        StoreError,
    >)
        requires
            self.wf(),
        ensures
            match r {
                Ok(rec) => self.contents().contains_key(*addr) && self.contents()[*addr].owner
                    == *program && spec_kind(self.contents()[*addr].record) == kind && *rec
                    == self.contents()[*addr].record,
                Err(e) => (!self.contents().contains_key(*addr) && e == StoreError::WrongOwner) || (
                self.contents().contains_key(*addr) && self.contents()[*addr].owner != *program
                    && e == StoreError::WrongOwner) || (self.contents().contains_key(*addr)
                    && self.contents()[*addr].owner == *program && spec_kind(
                    self.contents()[*addr].record,
                ) != kind && e == StoreError::WrongKind),
            },
    {
        match self.find_index(addr) {
            None => Err(StoreError::WrongOwner),
            Some(i) => {
                let slot = &self.entries[i].1;
                if slot.owner != *program {
                    return Err(StoreError::WrongOwner);
                }
                if kind_of(&slot.record) != kind {
                    return Err(StoreError::WrongKind);
                }
                Ok(&slot.record)
            },
        }
    }

    /// Create a record at `addr`, owned by `program`: the address must be
    /// free (`AlreadyInitialized` otherwise) and the payer is debited the
    /// rent-equivalent, which the new slot holds.
    pub fn create(
        &mut self,
        addr: &Address,
        program: &Address,
        record: Record,
        payer: &mut u64,
        rent: u64,
    ) -> (r: Result<(), StoreError>)
        requires
            old(self).wf(),
        ensures
            final(self).wf(),
            match r {
                Ok(_) => !old(self).contents().contains_key(*addr) && rent <= *old(payer) && final(self).contents() == old(self).contents().insert(
                    *addr,
                    Slot { owner: *program, lamports: rent, record },
                ) && *final(payer) == *old(payer) - rent,
                Err(e) => *final(self) == *old(self) && *final(payer) == *old(payer) && ((old(self).contents().contains_key(*addr) && e == StoreError::AlreadyInitialized) || (!old(self).contents().contains_key(*addr) && rent > *old(payer) && e
                    == StoreError::InsufficientBalance)),
            },
    {
        match self.find_index(addr) {
            Some(_) => Err(StoreError::AlreadyInitialized),
            None => {
                if rent > *payer {
                    return Err(StoreError::InsufficientBalance);
                }
                *payer = *payer - rent;
                proof {
                    Store::lemma_view_contains(self.entries@, *addr);
                    Store::lemma_view_push(
                        self.entries@,
                        *addr,
                        Slot { owner: *program, lamports: rent, record },
                    );
                }
                self.entries.push((*addr, Slot { owner: *program, lamports: rent, record }));
                Ok(())
            },
        }
    }

    /// Close the record at `addr`: it must exist and be owned by `program`
    /// (`WrongOwner` otherwise). The slot's balance goes to `refund_to` and
    /// the address becomes free.
    pub fn close(&mut self, addr: &Address, program: &Address, refund_to: &mut u64) -> (r: Result<
        (),
        StoreError,
    >)
        requires
            old(self).wf(),
        ensures
            final(self).wf(),
            match r {
                Ok(_) => old(self).contents().contains_key(*addr) && old(self).contents()[*addr].owner == *program && *old(refund_to) + old(self).contents()[*addr].lamports <= u64::MAX && final(self).contents() == old(self).contents().remove(*addr) && *final(refund_to) == *old(refund_to) + old(self).contents()[*addr].lamports,
                Err(e) => *final(self) == *old(self) && *final(refund_to) == *old(refund_to) && ((
                !old(self).contents().contains_key(*addr) && e == StoreError::WrongOwner) || (old(self).contents().contains_key(*addr) && old(self).contents()[*addr].owner != *program
                    && e == StoreError::WrongOwner) || (old(self).contents().contains_key(*addr)
                    && old(self).contents()[*addr].owner == *program && *old(refund_to) + old(self).contents()[*addr].lamports > u64::MAX && e == StoreError::Overflow)),
            },
    {
        match self.find_index(addr) {
            None => Err(StoreError::WrongOwner),
            Some(i) => {
                if self.entries[i].1.owner != *program {
                    return Err(StoreError::WrongOwner);
                }
                if self.entries[i].1.lamports > u64::MAX - *refund_to {
                    return Err(StoreError::Overflow);
                }
                *refund_to = *refund_to + self.entries[i].1.lamports;
                proof {
                    Store::lemma_view_remove(self.entries@, i as int);
                }
                let _ = self.entries.remove(i);
                Ok(())
            },
        }
    }

    /// Create a record at the address derived from `seeds` under
    /// `program`, returning the derived pair. The persisted slot sits at
    /// exactly the derived address; the caller persists the returned bump
    /// inside the record, which re-derivation then reproduces.
    pub fn create_derived(
        &mut self,
        program: &Address,
        seeds: &Vec<Vec<u8>>,
        record: Record,
        payer: &mut u64,
        rent: u64,
    ) -> (r: Result<(Address, u8), StoreError>)
        requires
            old(self).wf(),
        ensures
            final(self).wf(),
            match r {
                Ok((addr, bump)) => spec_derive(seeds.deep_view(), *program) == Some(
                    (addr, bump),
                ) && !old(self).contents().contains_key(addr) && rent <= *old(payer) && final(self).contents() == old(self).contents().insert(
                    addr,
                    Slot { owner: *program, lamports: rent, record },
                ) && *final(payer) == *old(payer) - rent,
                Err(e) => *final(self) == *old(self) && *final(payer) == *old(payer) && (
                match spec_derive(seeds.deep_view(), *program) {
                    None => e == StoreError::BadSeeds,
                    Some((addr, _)) => (old(self).contents().contains_key(addr) && e
                        == StoreError::AlreadyInitialized) || (!old(self).contents().contains_key(
                        addr,
                    ) && rent > *old(payer) && e == StoreError::InsufficientBalance),
                }),
            },
    {
        match derive_address(program, seeds) {
            None => Err(StoreError::BadSeeds),
            Some((addr, bump)) => {
                match self.create(&addr, program, record, payer, rent) {
                    Ok(_) => Ok((addr, bump)),
                    Err(e) => Err(e),
                }
            },
        }
    }
}

} // verus!
