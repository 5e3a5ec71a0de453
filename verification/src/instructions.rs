//! Instructions the bridge emits towards the host ledger. Every
//! instruction is one-way: the bridge never observes the downstream
//! result. The host adapter performs them; the library only decides them.
use crate::account::AccountId;
use vstd::prelude::*;

verus! {

/// Reserve balance moved to a fresh actuator account, in the ledger's
/// smallest unit.
pub const MIN_STORAGE: u128 = 4_200_000_000_000_000_000_000_000;

/// Fixed computation budget attached to an emitted call.
pub const CALL_GAS: u64 = 200_000_000_000_000;

/// Weight with which an emitted call absorbs the invocation's leftover
/// computation budget.
pub const CALL_GAS_WEIGHT: u64 = 1;

/// One privileged instruction, addressed to an identity's actuator
/// account.
#[derive(Debug, PartialEq)]
pub enum HostInstruction {
    /// Atomic chain: create the account, move the reserve to it, deploy
    /// the actuator program, then run its one-time constructor with the
    /// bridge as owner.
    CreateActuator { account_id: AccountId, reserve: u128, owner_id: AccountId, gas: u64 },
    /// Invoke the actuator's `add_key` entry point.
    CallAddKey { account_id: AccountId, public_key: String, gas: u64, gas_weight: u64 },
    /// Invoke the actuator's `transfer` entry point.
    CallTransfer { account_id: AccountId, to: AccountId, amount: u128, gas: u64, gas_weight: u64 },
}

/// The mathematical shape of an emitted instruction.
pub enum InstrView {
    CreateActuator { account_id: Seq<char>, reserve: nat, owner_id: Seq<char>, gas: nat },
    CallAddKey { account_id: Seq<char>, public_key: Seq<char>, gas: nat, gas_weight: nat },
    CallTransfer { account_id: Seq<char>, to: Seq<char>, amount: nat, gas: nat, gas_weight: nat },
}

impl View for HostInstruction {
    type V = InstrView;

    open spec fn view(&self) -> InstrView {
        match self {
            HostInstruction::CreateActuator { account_id, reserve, owner_id, gas } => {
                InstrView::CreateActuator {
                    account_id: account_id@,
                    reserve: *reserve as nat,
                    owner_id: owner_id@,
                    gas: *gas as nat,
                }
            },
            HostInstruction::CallAddKey { account_id, public_key, gas, gas_weight } => {
                InstrView::CallAddKey {
                    account_id: account_id@,
                    public_key: public_key@,
                    gas: *gas as nat,
                    gas_weight: *gas_weight as nat,
                }
            },
            HostInstruction::CallTransfer { account_id, to, amount, gas, gas_weight } => {
                InstrView::CallTransfer {
                    account_id: account_id@,
                    to: to@,
                    amount: *amount as nat,
                    gas: *gas as nat,
                    gas_weight: *gas_weight as nat,
                }
            },
        }
    }
}

/// A dispatch outcome, with the instruction abstracted to its view.
pub open spec fn instr_result_view(r: Result<HostInstruction, crate::AuthError>) -> Result<
    InstrView,
    crate::AuthError,
> {
    match r {
        Ok(i) => Ok(i@),
        Err(e) => Err(e),
    }
}

} // verus!
