use vstd::prelude::*;

use crate::types::{Address, ProfileView, SwiftChainError, UserProfile};

verus! {

/// The abstract state of the identity/reputation contract: the admin set by
/// `init`, if any, and for each registered address the ledger time at which
/// it registered.
#[verifier::ext_equal]
pub struct IdentityState {
    pub admin: Option<Seq<char>>,
    pub profiles: Map<Seq<char>, u64>,
}

/// What `init` does to the state, and what it answers.
pub open spec fn init_outcome(s: IdentityState, admin: Seq<char>) -> (IdentityState, Result<(), SwiftChainError>) {
    if s.admin is Some {
        (s, Err(SwiftChainError::AlreadyInitialized))
    } else {
        (IdentityState { admin: Some(admin), profiles: s.profiles }, Ok(()))
    }
}

/// What `get_admin` answers.
pub open spec fn admin_outcome(s: IdentityState) -> Result<Seq<char>, SwiftChainError> {
    match s.admin {
        Some(a) => Ok(a),
        None => Err(SwiftChainError::NotInitialized),
    }
}

/// What `register_user` does to the state, and what it answers.
pub open spec fn register_outcome(s: IdentityState, user: Seq<char>, now: u64) -> (IdentityState, Result<(), SwiftChainError>) {
    if s.profiles.contains_key(user) {
        (s, Err(SwiftChainError::AlreadyInitialized))
    } else {
        (IdentityState { admin: s.admin, profiles: s.profiles.insert(user, now) }, Ok(()))
    }
}

/// What `get_user_profile` answers.
pub open spec fn profile_outcome(s: IdentityState, user: Seq<char>) -> Result<ProfileView, SwiftChainError> {
    if s.profiles.contains_key(user) {
        Ok(ProfileView { address: user, registered_at: s.profiles[user] })
    } else {
        Err(SwiftChainError::ProviderNotFound)
    }
}

/// A call on an entry point of the identity/reputation contract.
pub enum IdentityCall {
    Init { admin: Seq<char> },
    GetAdmin,
    RegisterUser { user: Seq<char> },
    GetUserProfile { user: Seq<char> },
}

/// A call together with the ledger time at which it runs.
pub struct LedgerCall {
    pub time: u64,
    pub call: IdentityCall,
}

/// The state after one call; `register_user` records the call's ledger time,
/// and the two reads change nothing.
pub open spec fn apply_call(s: IdentityState, c: LedgerCall) -> IdentityState {
    match c.call {
        IdentityCall::Init { admin } => init_outcome(s, admin).0,
        IdentityCall::GetAdmin => s,
        IdentityCall::RegisterUser { user } => register_outcome(s, user, c.time).0,
        IdentityCall::GetUserProfile { .. } => s,
    }
}

/// The state of a fresh contract.
pub open spec fn fresh_state() -> IdentityState {
    IdentityState { admin: None, profiles: Map::empty() }
}

/// The state after running `calls`, in order, from `s`.
pub open spec fn run_calls(s: IdentityState, calls: Seq<LedgerCall>) -> IdentityState
    decreases calls.len(),
{
    if calls.len() == 0 {
        s
    } else {
        apply_call(run_calls(s, calls.drop_last()), calls.last())
    }
}

/// The state of the identity/reputation contract: an optional admin and the
/// profiles of the registered users, at most one per address.
pub struct IdentityReputationContract {
    admin: Option<Address>,
    profiles: Vec<UserProfile>,
    registered: Ghost<Map<Seq<char>, u64>>,
}

impl View for IdentityReputationContract {
    type V = IdentityState;

    closed spec fn view(&self) -> IdentityState {
        IdentityState {
            admin: match self.admin {
                Some(a) => Some(a@),
                None => None,
            },
            profiles: self.registered@,
        }
    }
}

impl IdentityReputationContract {
    /// The stored profiles have distinct addresses, and they are exactly the
    /// entries of the abstract profile map.
    pub closed spec fn wf(&self) -> bool {
        &&& forall|i: int, j: int|
            0 <= i < j < self.profiles@.len() ==> #[trigger] self.profiles@[i].address@
                != #[trigger] self.profiles@[j].address@
        &&& forall|i: int|
            0 <= i < self.profiles@.len() ==> {
                &&& self.registered@.contains_key(#[trigger] self.profiles@[i].address@)
                &&& self.registered@[self.profiles@[i].address@] == self.profiles@[i].registered_at
            }
        &&& forall|k: Seq<char>|
            #[trigger] self.registered@.contains_key(k) ==> exists|i: int|
                0 <= i < self.profiles@.len() && #[trigger] self.profiles@[i].address@ == k
    }

    /// A contract before `init`: no admin and no registered user.
    pub fn new() -> (c: Self)
        ensures
            c.wf(),
            c@.admin is None,
            c@.profiles == Map::<Seq<char>, u64>::empty(),
    {
        IdentityReputationContract {
            admin: None,
            profiles: Vec::new(),
            registered: Ghost(Map::empty()),
        }
    }

    /// Index of the profile stored for `user`, if there is one.
    fn find(&self, user: &Address) -> (r: Option<usize>)
        requires
            self.wf(),
        ensures
            match r {
                Some(i) => i < self.profiles@.len() && self.profiles@[i as int].address@ == user@,
                None => !self@.profiles.contains_key(user@),
            },
    {
        let n = self.profiles.len();
        let mut i: usize = 0;
        while i < n
            invariant
                n == self.profiles@.len(),
                i <= n,
                forall|j: int| 0 <= j < i ==> self.profiles@[j].address@ != user@,
            decreases n - i,
        {
            if self.profiles[i].address.same_as(user) {
                return Some(i);
            }
            i = i + 1;
        }
        None
    }

    /// Sets the admin of a contract that has none; a second call is refused
    /// with `AlreadyInitialized` and changes nothing.
    pub fn init(&mut self, admin: Address) -> (r: Result<(), SwiftChainError>)
        requires
            old(self).wf(),
        ensures
            final(self).wf(),
            (final(self)@, r) == init_outcome(old(self)@, admin@),
    {
        if self.admin.is_some() {
            return Err(SwiftChainError::AlreadyInitialized);
        }
        self.admin = Some(admin);
        assert(self.profiles@ == old(self).profiles@);
        assert(self.registered@ == old(self).registered@);
        Ok(())
    }

    /// The admin set by `init`, or `NotInitialized` before it.
    pub fn get_admin(&self) -> (r: Result<&Address, SwiftChainError>)
        ensures
            match r {
                Ok(a) => admin_outcome(self@) == Ok::<Seq<char>, SwiftChainError>(a@),
                Err(e) => admin_outcome(self@) == Err::<Seq<char>, SwiftChainError>(e),
            },
    {
        match &self.admin {
            Some(a) => Ok(a),
            None => Err(SwiftChainError::NotInitialized),
        }
    }

    /// Registers `user` with `now` as its registration time; an address that
    /// is already registered is refused with `AlreadyInitialized` and its
    /// profile is left as it was.
    pub fn register_user(&mut self, user: Address, now: u64) -> (r: Result<(), SwiftChainError>)
        requires
            old(self).wf(),
        ensures
            final(self).wf(),
            (final(self)@, r) == register_outcome(old(self)@, user@, now),
    {
        match self.find(&user) {
            Some(_) => Err(SwiftChainError::AlreadyInitialized),
            None => {
                let ghost key = user@;
                let ghost old_profiles = self.profiles@;
                self.profiles.push(UserProfile { address: user, registered_at: now });
                self.registered = Ghost(self.registered@.insert(key, now));
                assert forall|k: Seq<char>| #[trigger] self.registered@.contains_key(k) implies exists|i: int|
                    0 <= i < self.profiles@.len() && #[trigger] self.profiles@[i].address@ == k by {
                    if k != key {
                        let i = choose|i: int| 0 <= i < old_profiles.len() && #[trigger] old_profiles[i].address@ == k;
                        assert(self.profiles@[i] == old_profiles[i]);
                    } else {
                        assert(self.profiles@[old_profiles.len() as int].address@ == k);
                    }
                }
                Ok(())
            },
        }
    }

    /// The profile of `user`, or `ProviderNotFound` when it never registered.
    pub fn get_user_profile(&self, user: &Address) -> (r: Result<&UserProfile, SwiftChainError>)
        requires
            self.wf(),
        ensures
            match r {
                Ok(p) => profile_outcome(self@, user@) == Ok::<ProfileView, SwiftChainError>(p@),
                Err(e) => profile_outcome(self@, user@) == Err::<ProfileView, SwiftChainError>(e),
            },
    {
        match self.find(user) {
            Some(i) => Ok(&self.profiles[i]),
            None => Err(SwiftChainError::ProviderNotFound),
        }
    }
}

} // verus!
