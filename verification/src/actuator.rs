//! The per-identity actuator: it holds the real privileges and obeys a
//! single recorded owner, set once at construction and never mutated. It
//! trusts only the caller's identity, never message content.
use crate::account::AccountId;
use crate::AuthError;
use vstd::prelude::*;

verus! {

/// One primitive ledger action emitted by the actuator on its own
/// account.
#[derive(Debug, PartialEq)]
pub enum ActuatorAction {
    GrantFullAccessKey { public_key: String },
    RevokeKey { public_key: String },
    TransferBalance { to: AccountId, amount: u128 },
}

/// The mathematical shape of an actuator action.
pub enum ActView {
    GrantFullAccessKey(Seq<char>),
    RevokeKey(Seq<char>),
    TransferBalance(Seq<char>, nat),
}

impl View for ActuatorAction {
    type V = ActView;

    open spec fn view(&self) -> ActView {
        match self {
            ActuatorAction::GrantFullAccessKey { public_key } => {
                ActView::GrantFullAccessKey(public_key@)
            },
            ActuatorAction::RevokeKey { public_key } => ActView::RevokeKey(public_key@),
            ActuatorAction::TransferBalance { to, amount } => {
                ActView::TransferBalance(to@, *amount as nat)
            },
        }
    }
}

/// An actuator outcome, with the action abstracted to its view.
pub open spec fn act_result_view(r: Result<ActuatorAction, AuthError>) -> Result<
    ActView,
    AuthError,
> {
    match r {
        Ok(a) => Ok(a@),
        Err(e) => Err(e),
    }
}

/// The actuator contract: one owner, recorded exactly once.
#[derive(Debug)]
pub struct Contract {
    owner_id: AccountId,
}

impl Contract {
    /// The recorded owner.
    pub closed spec fn owner(&self) -> Seq<char> {
        self.owner_id@
    }

    /// One-time constructor: records the owner, immutable afterwards.
    pub fn new_contract(owner_id: AccountId) -> (r: Self)
        ensures
            r.owner() == owner_id@,
    {
        Contract { owner_id }
    }

    /// Grant a full-access key on the actuator's own account. Exactly the
    /// recorded owner may call; any other caller is rejected with no
    /// action emitted.
    pub fn add_key(self, public_key: String, caller: &AccountId) -> (r: Result<
        ActuatorAction,
        AuthError,
    >)
        ensures
            r is Ok <==> caller@ == self.owner(),
            r matches Ok(a) ==> a@ == ActView::GrantFullAccessKey(public_key@),
            r is Err ==> r == Err::<ActuatorAction, AuthError>(AuthError::UnauthorizedCaller),
    {
        if !(caller == &self.owner_id) {
            return Err(AuthError::UnauthorizedCaller);
        }
        Ok(ActuatorAction::GrantFullAccessKey { public_key })
    }

    /// Revoke a key on the actuator's own account, owner-gated as
    /// [`Contract::add_key`] is.
    pub fn delete_key(self, public_key: String, caller: &AccountId) -> (r: Result<
        ActuatorAction,
        AuthError,
    >)
        ensures
            r is Ok <==> caller@ == self.owner(),
            r matches Ok(a) ==> a@ == ActView::RevokeKey(public_key@),
            r is Err ==> r == Err::<ActuatorAction, AuthError>(AuthError::UnauthorizedCaller),
    {
        if !(caller == &self.owner_id) {
            return Err(AuthError::UnauthorizedCaller);
        }
        Ok(ActuatorAction::RevokeKey { public_key })
    }

    /// Move balance from the actuator's account, owner-gated as
    /// [`Contract::add_key`] is.
    pub fn transfer(self, to: AccountId, amount: u128, caller: &AccountId) -> (r: Result<
        ActuatorAction,
        AuthError,
    >)
        ensures
            r is Ok <==> caller@ == self.owner(),
            r matches Ok(a) ==> a@ == ActView::TransferBalance(to@, amount as nat),
            r is Err ==> r == Err::<ActuatorAction, AuthError>(AuthError::UnauthorizedCaller),
    {
        if !(caller == &self.owner_id) {
            return Err(AuthError::UnauthorizedCaller);
        }
        Ok(ActuatorAction::TransferBalance { to, amount })
    }
}

} // verus!
