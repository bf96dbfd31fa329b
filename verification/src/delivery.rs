use vstd::prelude::*;

use std::collections::HashMap;

use crate::types::Address;

verus! {

broadcast use vstd::std_specs::hash::group_hash_axioms;

/// Where a delivery stands.
#[derive(Clone, Copy, Debug, PartialEq, Eq)]
pub enum DeliveryStatus {
    Active,
    Delivered,
    Disputed,
}

/// The kind of goods carried.
#[derive(Clone, Copy, Debug, PartialEq, Eq)]
pub enum CargoCategory {
    Electronics,
}

/// What is carried.
#[derive(Clone, Copy, Debug, PartialEq, Eq)]
pub struct CargoDescriptor {
    pub weight_grams: u32,
    pub category: CargoCategory,
    pub fragile: bool,
}

/// Route and schedule of a delivery. Origin and destination are kept as the
/// raw bytes of the contract strings, whatever those bytes are.
#[derive(Clone, Debug, PartialEq, Eq)]
pub struct DeliveryMetadata {
    pub delivery_id: u64,
    pub origin: Vec<u8>,
    pub destination: Vec<u8>,
    pub cargo_description: CargoDescriptor,
    pub created_at: u64,
    pub estimated_delivery: u64,
}

/// A delivery as the delivery contract records it.
#[derive(Clone, Debug, PartialEq, Eq)]
pub struct DeliveryRecord {
    pub delivery_id: u64,
    pub sender: Address,
    pub recipient: Address,
    pub driver: Option<Address>,
    pub status: DeliveryStatus,
    pub metadata: DeliveryMetadata,
    pub created_at: u64,
    pub delivered_at: Option<u64>,
    pub transit_started_at: Option<u64>,
}

/// The deliveries after `raise_dispute` on `delivery_id`: a stored record
/// becomes `Disputed` with every other field kept; an unknown id changes
/// nothing.
pub open spec fn raise_dispute_outcome(m: Map<u64, DeliveryRecord>, delivery_id: u64) -> Map<u64, DeliveryRecord> {
    if m.contains_key(delivery_id) {
        m.insert(delivery_id, DeliveryRecord { status: DeliveryStatus::Disputed, ..m[delivery_id] })
    } else {
        m
    }
}

/// A stand-in for the delivery contract that the dispute flow talks to:
/// delivery records stored by id.
pub struct MockDeliveryContract {
    deliveries: HashMap<u64, DeliveryRecord>,
}

impl View for MockDeliveryContract {
    type V = Map<u64, DeliveryRecord>;

    closed spec fn view(&self) -> Map<u64, DeliveryRecord> {
        self.deliveries@
    }
}

impl MockDeliveryContract {
    /// A contract with no delivery stored.
    pub fn new() -> (c: Self)
        ensures
            c@ == Map::<u64, DeliveryRecord>::empty(),
    {
        MockDeliveryContract { deliveries: HashMap::new() }
    }

    /// Stores `record` under `delivery_id`, replacing what was there.
    pub fn set_delivery(&mut self, delivery_id: u64, record: DeliveryRecord)
        ensures
            final(self)@ == old(self)@.insert(delivery_id, record),
    {
        self.deliveries.insert(delivery_id, record);
    }

    /// The record stored under `delivery_id`; there must be one.
    pub fn get_delivery(&self, delivery_id: u64) -> (r: &DeliveryRecord)
        requires
            self@.contains_key(delivery_id),
        ensures
            *r == self@[delivery_id],
    {
        self.deliveries.get(&delivery_id).unwrap()
    }

    /// Marks the delivery `delivery_id` as disputed, if it is stored.
    pub fn raise_dispute(&mut self, _caller: &Address, delivery_id: u64)
        ensures
            final(self)@ == raise_dispute_outcome(old(self)@, delivery_id),
            final(self)@.dom() == old(self)@.dom(),
            old(self)@.contains_key(delivery_id) ==> final(self)@[delivery_id] == (DeliveryRecord {
                status: DeliveryStatus::Disputed,
                ..old(self)@[delivery_id]
            }),
            !old(self)@.contains_key(delivery_id) ==> final(self)@ == old(self)@,
            forall|k: u64| k != delivery_id && #[trigger] old(self)@.contains_key(k) ==> final(self)@[k] == old(self)@[k],
    {
        if let Some(mut record) = self.deliveries.remove(&delivery_id) {
            record.status = DeliveryStatus::Disputed;
            self.deliveries.insert(delivery_id, record);
        }
    }
}

} // verus!
