//! Properties of the contracts that span several calls, stated over the
//! outcome functions that the operations' own contracts use.
use vstd::prelude::*;

use crate::delivery::{raise_dispute_outcome, DeliveryRecord, DeliveryStatus};
use crate::escrow::{resolve_dispute_outcome, resolved_status, EscrowRecord, EscrowStatus};
use crate::identity::{
    admin_outcome, fresh_state, init_outcome, profile_outcome, register_outcome, run_calls, IdentityState, LedgerCall,
};
use crate::types::{ProfileView, SwiftChainError};

verus! {

/// A fresh contract has no admin and knows no user.
pub proof fn fresh_contract_knows_nobody(user: Seq<char>)
    ensures
        ({
            let s = IdentityState { admin: None, profiles: Map::empty() };
            &&& admin_outcome(s) == Err::<Seq<char>, SwiftChainError>(SwiftChainError::NotInitialized)
            &&& profile_outcome(s, user) == Err::<ProfileView, SwiftChainError>(SwiftChainError::ProviderNotFound)
        }),
{
}

/// After a successful `init`, `get_admin` answers the admin it was given.
pub proof fn init_then_get_admin(s: IdentityState, admin: Seq<char>)
    requires
        s.admin is None,
    ensures
        init_outcome(s, admin).1 is Ok,
        admin_outcome(init_outcome(s, admin).0) == Ok::<Seq<char>, SwiftChainError>(admin),
{
}

/// Once an admin is set, every later `init` is refused with
/// `AlreadyInitialized`, changes nothing, and the first admin stays.
pub proof fn init_only_once(s: IdentityState, first: Seq<char>, second: Seq<char>)
    requires
        s.admin is None,
    ensures
        ({
            let s1 = init_outcome(s, first).0;
            &&& init_outcome(s1, second) == (s1, Err::<(), SwiftChainError>(SwiftChainError::AlreadyInitialized))
            &&& admin_outcome(s1) == Ok::<Seq<char>, SwiftChainError>(first)
        }),
{
}

/// `init` never touches the registered profiles, and `register_user` never
/// touches the admin.
pub proof fn init_and_registration_are_independent(s: IdentityState, admin: Seq<char>, user: Seq<char>, now: u64)
    ensures
        init_outcome(s, admin).0.profiles == s.profiles,
        register_outcome(s, user, now).0.admin == s.admin,
{
}

/// Registering a new user and then reading its profile gives back the user's
/// address and the registration time.
pub proof fn register_then_get_profile(s: IdentityState, user: Seq<char>, now: u64)
    requires
        !s.profiles.contains_key(user),
    ensures
        register_outcome(s, user, now).1 is Ok,
        profile_outcome(register_outcome(s, user, now).0, user) == Ok::<ProfileView, SwiftChainError>(
            ProfileView { address: user, registered_at: now },
        ),
{
}

/// A second registration of the same address is refused with
/// `AlreadyInitialized`, changes nothing, and the first registration time
/// stays.
pub proof fn register_only_once(s: IdentityState, user: Seq<char>, first: u64, second: u64)
    requires
        !s.profiles.contains_key(user),
    ensures
        ({
            let s1 = register_outcome(s, user, first).0;
            &&& register_outcome(s1, user, second) == (s1, Err::<(), SwiftChainError>(SwiftChainError::AlreadyInitialized))
            &&& profile_outcome(register_outcome(s1, user, second).0, user) == Ok::<ProfileView, SwiftChainError>(
                ProfileView { address: user, registered_at: first },
            )
        }),
{
}

/// Registering one user leaves what every other user's profile lookup
/// answers unchanged.
pub proof fn register_keeps_other_profiles(s: IdentityState, user: Seq<char>, now: u64, other: Seq<char>)
    requires
        other != user,
    ensures
        profile_outcome(register_outcome(s, user, now).0, other) == profile_outcome(s, other),
{
}

/// No operation removes a registered profile or changes its time.
pub proof fn registrations_are_permanent(s: IdentityState, admin: Seq<char>, user: Seq<char>, now: u64, known: Seq<char>)
    requires
        s.profiles.contains_key(known),
    ensures
        init_outcome(s, admin).0.profiles.contains_key(known),
        init_outcome(s, admin).0.profiles[known] == s.profiles[known],
        register_outcome(s, user, now).0.profiles.contains_key(known),
        register_outcome(s, user, now).0.profiles[known] == s.profiles[known],
{
}

/// Every registration time stored after `calls` is at most `bound` when every
/// call ran at a ledger time at most `bound`.
proof fn stored_times_are_bounded(calls: Seq<LedgerCall>, bound: u64)
    requires
        forall|i: int| 0 <= i < calls.len() ==> #[trigger] calls[i].time <= bound,
    ensures
        forall|k: Seq<char>| #[trigger] run_calls(fresh_state(), calls).profiles.contains_key(k)
            ==> run_calls(fresh_state(), calls).profiles[k] <= bound,
    decreases calls.len(),
{
    if calls.len() > 0 {
        let prefix = calls.drop_last();
        assert forall|i: int| 0 <= i < prefix.len() implies #[trigger] prefix[i].time <= bound by {
            assert(prefix[i] == calls[i]);
        }
        stored_times_are_bounded(prefix, bound);
        assert(calls.last().time <= bound);
    }
}

/// Starting from a fresh contract, with ledger time never going backwards
/// between calls, every profile that a later call (at ledger time `later`)
/// reads back carries the address it was asked for and a registration time
/// no later than `later`.
pub proof fn registration_times_never_exceed_later_ledger_time(
    calls: Seq<LedgerCall>,
    later: u64,
    user: Seq<char>,
)
    requires
        forall|i: int, j: int| 0 <= i <= j < calls.len() ==> #[trigger] calls[i].time <= #[trigger] calls[j].time,
        calls.len() > 0 ==> calls.last().time <= later,
    ensures
        profile_outcome(run_calls(fresh_state(), calls), user) matches Ok(p) ==> {
            &&& p.address == user
            &&& p.registered_at <= later
        },
{
    assert forall|i: int| 0 <= i < calls.len() implies #[trigger] calls[i].time <= later by {
        assert(calls[i].time <= calls[calls.len() - 1].time);
    }
    stored_times_are_bounded(calls, later);
}

/// Raising a dispute on a stored delivery leaves it `Disputed` and leaves
/// every other field and every other delivery as it was.
pub proof fn raise_dispute_marks_only_that_delivery(m: Map<u64, DeliveryRecord>, delivery_id: u64, other: u64)
    requires
        m.contains_key(delivery_id),
        other != delivery_id,
    ensures
        raise_dispute_outcome(m, delivery_id).contains_key(delivery_id),
        raise_dispute_outcome(m, delivery_id)[delivery_id] == (DeliveryRecord {
            status: DeliveryStatus::Disputed,
            ..m[delivery_id]
        }),
        raise_dispute_outcome(m, delivery_id).contains_key(other) == m.contains_key(other),
        m.contains_key(other) ==> raise_dispute_outcome(m, delivery_id)[other] == m[other],
{
}

/// Raising a dispute on an id with no stored delivery changes no delivery.
pub proof fn raise_dispute_on_unknown_delivery_changes_nothing(m: Map<u64, DeliveryRecord>, delivery_id: u64)
    requires
        !m.contains_key(delivery_id),
    ensures
        raise_dispute_outcome(m, delivery_id) == m,
{
}

/// Whether or not `delivery_id` is stored, a dispute on it leaves every
/// other id's delivery, or its absence, as it was, and stores nothing new.
pub proof fn raise_dispute_keeps_other_deliveries(m: Map<u64, DeliveryRecord>, delivery_id: u64, other: u64)
    requires
        other != delivery_id,
    ensures
        raise_dispute_outcome(m, delivery_id).contains_key(other) == m.contains_key(other),
        m.contains_key(other) ==> raise_dispute_outcome(m, delivery_id)[other] == m[other],
        raise_dispute_outcome(m, delivery_id).dom() == m.dom(),
{
    if m.contains_key(delivery_id) {
        assert(raise_dispute_outcome(m, delivery_id).dom() =~= m.dom());
    }
}

/// Raising a dispute twice has the same effect as raising it once.
pub proof fn raise_dispute_is_idempotent(m: Map<u64, DeliveryRecord>, delivery_id: u64)
    ensures
        raise_dispute_outcome(raise_dispute_outcome(m, delivery_id), delivery_id) == raise_dispute_outcome(m, delivery_id),
{
    if m.contains_key(delivery_id) {
        assert(raise_dispute_outcome(raise_dispute_outcome(m, delivery_id), delivery_id) =~= raise_dispute_outcome(m, delivery_id));
    }
}

/// Resolving the dispute of a stored escrow leaves it `Released` when the
/// funds go to the driver and `Refunded` otherwise.
pub proof fn resolve_dispute_sets_status(m: Map<u64, EscrowRecord>, delivery_id: u64, release_to_driver: bool)
    requires
        m.contains_key(delivery_id),
    ensures
        resolve_dispute_outcome(m, delivery_id, release_to_driver)[delivery_id].status == resolved_status(release_to_driver),
        resolve_dispute_outcome(m, delivery_id, release_to_driver)[delivery_id].status == (if release_to_driver {
            EscrowStatus::Released
        } else {
            EscrowStatus::Refunded
        }),
{
}

/// Resolving the dispute of a stored escrow changes its status alone: the
/// parties, token, amount, creation time and dispute fields stay as they were.
pub proof fn resolve_dispute_changes_only_the_status(m: Map<u64, EscrowRecord>, delivery_id: u64, release_to_driver: bool)
    requires
        m.contains_key(delivery_id),
    ensures
        resolve_dispute_outcome(m, delivery_id, release_to_driver).contains_key(delivery_id),
        resolve_dispute_outcome(m, delivery_id, release_to_driver)[delivery_id] == (EscrowRecord {
            status: if release_to_driver {
                EscrowStatus::Released
            } else {
                EscrowStatus::Refunded
            },
            ..m[delivery_id]
        }),
        resolve_dispute_outcome(m, delivery_id, release_to_driver)[delivery_id].amount == m[delivery_id].amount,
{
}

/// Resolving a dispute on an id with no stored escrow changes no escrow.
pub proof fn resolve_dispute_on_unknown_escrow_changes_nothing(m: Map<u64, EscrowRecord>, delivery_id: u64, release_to_driver: bool)
    requires
        !m.contains_key(delivery_id),
    ensures
        resolve_dispute_outcome(m, delivery_id, release_to_driver) == m,
{
}

/// Whether or not `delivery_id` is stored, resolving its dispute leaves every
/// other id's escrow, or its absence, as it was, and stores nothing new.
pub proof fn resolve_dispute_keeps_other_escrows(m: Map<u64, EscrowRecord>, delivery_id: u64, release_to_driver: bool, other: u64)
    requires
        other != delivery_id,
    ensures
        resolve_dispute_outcome(m, delivery_id, release_to_driver).contains_key(other) == m.contains_key(other),
        m.contains_key(other) ==> resolve_dispute_outcome(m, delivery_id, release_to_driver)[other] == m[other],
        resolve_dispute_outcome(m, delivery_id, release_to_driver).dom() == m.dom(),
{
    if m.contains_key(delivery_id) {
        assert(resolve_dispute_outcome(m, delivery_id, release_to_driver).dom() =~= m.dom());
    }
}

/// Of two resolutions of the same escrow, the later one decides.
pub proof fn last_resolution_wins(m: Map<u64, EscrowRecord>, delivery_id: u64, first: bool, second: bool)
    ensures
        resolve_dispute_outcome(resolve_dispute_outcome(m, delivery_id, first), delivery_id, second)
            == resolve_dispute_outcome(m, delivery_id, second),
{
    if m.contains_key(delivery_id) {
        assert(resolve_dispute_outcome(resolve_dispute_outcome(m, delivery_id, first), delivery_id, second)
            =~= resolve_dispute_outcome(m, delivery_id, second));
    }
}

} // verus!
