use vstd::prelude::*;

use std::collections::HashMap;

use crate::types::Address;

verus! {

broadcast use vstd::std_specs::hash::group_hash_axioms;

/// Where the funds held for a delivery stand.
#[derive(Clone, Copy, Debug, PartialEq, Eq)]
pub enum EscrowStatus {
    Locked,
    Released,
    Paused,
    Refunded,
}

/// The funds held in escrow for one delivery.
#[derive(Clone, Debug, PartialEq, Eq)]
pub struct EscrowRecord {
    pub sender: Address,
    pub recipient: Address,
    pub driver: Address,
    pub token: Address,
    pub amount: i128,
    pub status: EscrowStatus,
    pub created_at: u64,
    pub disputed_by: Option<Address>,
    pub disputed_at: Option<u64>,
}

/// The status a resolved dispute leaves the escrow in: released to the
/// driver, or refunded to the sender.
pub open spec fn resolved_status(release_to_driver: bool) -> EscrowStatus {
    if release_to_driver {
        EscrowStatus::Released
    } else {
        EscrowStatus::Refunded
    }
}

/// The escrows after `resolve_dispute` on `delivery_id`: a stored record
/// takes the resolved status with every other field kept; an unknown id
/// changes nothing.
pub open spec fn resolve_dispute_outcome(
    m: Map<u64, EscrowRecord>,
    delivery_id: u64,
    release_to_driver: bool,
) -> Map<u64, EscrowRecord> {
    if m.contains_key(delivery_id) {
        m.insert(delivery_id, EscrowRecord { status: resolved_status(release_to_driver), ..m[delivery_id] })
    } else {
        m
    }
}

/// A stand-in for the escrow contract that the dispute flow talks to:
/// escrow records stored by delivery id.
pub struct MockEscrowContract {
    escrows: HashMap<u64, EscrowRecord>,
}

impl View for MockEscrowContract {
    type V = Map<u64, EscrowRecord>;

    closed spec fn view(&self) -> Map<u64, EscrowRecord> {
        self.escrows@
    }
}

impl MockEscrowContract {
    /// A contract with no escrow stored.
    pub fn new() -> (c: Self)
        ensures
            c@ == Map::<u64, EscrowRecord>::empty(),
    {
        MockEscrowContract { escrows: HashMap::new() }
    }

    /// Stores `record` under `delivery_id`, replacing what was there.
    pub fn set_escrow(&mut self, delivery_id: u64, record: EscrowRecord)
        ensures
            final(self)@ == old(self)@.insert(delivery_id, record),
    {
        self.escrows.insert(delivery_id, record);
    }

    /// The escrow stored under `delivery_id`; there must be one.
    pub fn get_escrow(&self, delivery_id: u64) -> (r: &EscrowRecord)
        requires
            self@.contains_key(delivery_id),
        ensures
            *r == self@[delivery_id],
    {
        self.escrows.get(&delivery_id).unwrap()
    }

    /// Settles the escrow of `delivery_id`, if it is stored: `Released` when
    /// `release_to_driver`, else `Refunded`.
    pub fn resolve_dispute(&mut self, _caller: &Address, delivery_id: u64, release_to_driver: bool)
        ensures
            final(self)@ == resolve_dispute_outcome(old(self)@, delivery_id, release_to_driver),
            final(self)@.dom() == old(self)@.dom(),
            old(self)@.contains_key(delivery_id) ==> final(self)@[delivery_id] == (EscrowRecord {
                status: if release_to_driver {
                    EscrowStatus::Released
                } else {
                    EscrowStatus::Refunded
                },
                ..old(self)@[delivery_id]
            }),
            !old(self)@.contains_key(delivery_id) ==> final(self)@ == old(self)@,
            forall|k: u64| k != delivery_id && #[trigger] old(self)@.contains_key(k) ==> final(self)@[k] == old(self)@[k],
    {
        if let Some(mut record) = self.escrows.remove(&delivery_id) {
            if release_to_driver {
                record.status = EscrowStatus::Released;
            } else {
                record.status = EscrowStatus::Refunded;
            }
            self.escrows.insert(delivery_id, record);
        }
    }
}

} // verus!
