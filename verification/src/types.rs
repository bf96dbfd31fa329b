use vstd::prelude::*;

verus! {

/// An account or contract address, held as its textual (strkey) form.
#[derive(Clone, Debug, PartialEq, Eq)]
pub struct Address {
    strkey: String,
}

impl View for Address {
    type V = Seq<char>;

    closed spec fn view(&self) -> Seq<char> {
        self.strkey@
    }
}

impl Address {
    /// Builds an address from its textual form.
    pub fn new(strkey: String) -> (a: Address)
        ensures
            a@ == strkey@,
    {
        Address { strkey }
    }

    /// The textual form of the address.
    pub fn as_str(&self) -> (s: &str)
        ensures
            s@ == self@,
    {
        self.strkey.as_str()
    }

    /// Whether two addresses denote the same account.
    pub fn same_as(&self, other: &Address) -> (r: bool)
        ensures
            r == (self@ == other@),
    {
        self.strkey == other.strkey
    }
}

/// Errors the SwiftChain contracts report to their callers.
#[derive(Clone, Copy, Debug, PartialEq, Eq)]
pub enum SwiftChainError {
    Unauthorized,
    AlreadyInitialized,
    NotInitialized,
    ProviderNotFound,
    InvalidState,
}

/// What the identity contract keeps about a registered user.
#[derive(Clone, Debug, PartialEq, Eq)]
pub struct UserProfile {
    pub address: Address,
    pub registered_at: u64,
}

/// The abstract content of a profile: the user's address and the ledger
/// time at which it registered.
pub struct ProfileView {
    pub address: Seq<char>,
    pub registered_at: u64,
}

impl View for UserProfile {
    type V = ProfileView;

    open spec fn view(&self) -> ProfileView {
        ProfileView { address: self.address@, registered_at: self.registered_at }
    }
}

} // verus!
