//! The balances pallet: funds per account, and checked transfers between
//! accounts.

use vstd::prelude::*;
use vstd::hash_map::StringHashMap;
use crate::numeric;
use crate::support::{Dispatch, DispatchResult};
use crate::types::{AccountId, Balance};

verus! {

/// Why a transfer is refused when the sender holds less than the amount.
pub const INSUFFICIENT_FUNDS: &'static str = "Not enough funds.";

/// Why a transfer is refused when it would lift the receiver above
/// `Balance::MAX`.
pub const OVERFLOW: &'static str = "Overflow";

/// The funds that `ledger` records for `who`: zero where it has no entry.
pub open spec fn balance_in(ledger: Map<Seq<char>, Balance>, who: Seq<char>) -> Balance {
    if ledger.contains_key(who) {
        ledger[who]
    } else {
        0
    }
}

/// Whether `ledger` lets `caller` send `amount` to `to`, and if not, why not.
/// Both balances are those from before the transfer, also where `caller` and
/// `to` are one account.
pub open spec fn transfer_result(
    ledger: Map<Seq<char>, Balance>,
    caller: Seq<char>,
    to: Seq<char>,
    amount: Balance,
) -> DispatchResult {
    if balance_in(ledger, caller) < amount {
        Err(INSUFFICIENT_FUNDS)
    } else if balance_in(ledger, to) + amount > Balance::MAX {
        Err(OVERFLOW)
    } else {
        Ok(())
    }
}

/// The ledger after `caller` asked to send `amount` to `to`. A refused
/// transfer changes nothing, and neither does an accepted transfer from an
/// account to itself; any other moves `amount` from `caller` to `to`.
pub open spec fn after_transfer(
    ledger: Map<Seq<char>, Balance>,
    caller: Seq<char>,
    to: Seq<char>,
    amount: Balance,
) -> Map<Seq<char>, Balance> {
    if transfer_result(ledger, caller, to, amount) is Err || caller == to {
        ledger
    } else {
        ledger.insert(caller, (balance_in(ledger, caller) - amount) as Balance).insert(
            to,
            (balance_in(ledger, to) + amount) as Balance,
        )
    }
}

/// The funds of every account that has an entry. Its view is the ledger, keyed
/// by the account's characters.
pub struct Pallet {
    balances: StringHashMap<Balance>,
}

impl View for Pallet {
    type V = Map<Seq<char>, Balance>;

    closed spec fn view(&self) -> Map<Seq<char>, Balance> {
        self.balances@
    }
}

/// The calls that the balances pallet takes from outside.
pub enum Call {
    /// Move `amount` from the caller to `to`.
    Transfer { to: AccountId, amount: Balance },
}

impl Call {
    /// What the pallet answers when `caller` makes this call on `ledger`.
    pub open spec fn result_on(self, ledger: Map<Seq<char>, Balance>, caller: Seq<char>) -> DispatchResult {
        match self {
            Call::Transfer { to, amount } => transfer_result(ledger, caller, to@, amount),
        }
    }

    /// The ledger after `caller` made this call on `ledger`.
    pub open spec fn apply_to(self, ledger: Map<Seq<char>, Balance>, caller: Seq<char>) -> Map<
        Seq<char>,
        Balance,
    > {
        match self {
            Call::Transfer { to, amount } => after_transfer(ledger, caller, to@, amount),
        }
    }
}

impl Pallet {
    /// A ledger without entries.
    pub fn new() -> (pallet: Self)
        ensures
            pallet@ == Map::<Seq<char>, Balance>::empty(),
    {
        Self { balances: StringHashMap::new() }
    }

    /// Overwrites the balance of `who` with `amount`.
    pub fn set_balance(&mut self, who: &AccountId, amount: Balance)
        ensures
            final(self)@ == old(self)@.insert(who@, amount),
    {
        self.balances.insert(who.clone(), amount);
    }

    /// The balance of `who`: zero where none is stored.
    pub fn balance(&self, who: &AccountId) -> (funds: Balance)
        ensures
            funds == balance_in(self@, who@),
    {
        let zero = numeric::zero_u128();
        *self.balances.get(who.as_str()).unwrap_or(&zero)
    }

    /// Moves `amount` from `caller` to `to`, or refuses and changes nothing.
    ///
    /// The transfer is refused with [`INSUFFICIENT_FUNDS`] where `caller` holds
    /// less than `amount`, and else with [`OVERFLOW`] where the balance of `to`
    /// plus `amount` exceeds `Balance::MAX`. Both tests read the balances from
    /// before the call. A transfer from an account to itself that passes both
    /// leaves the ledger as it was.
    pub fn transfer(&mut self, caller: AccountId, to: AccountId, amount: Balance) -> (r:
        DispatchResult)
        ensures
            r == transfer_result(old(self)@, caller@, to@, amount),
            final(self)@ == after_transfer(old(self)@, caller@, to@, amount),
            r is Err ==> final(self)@ == old(self)@,
            r is Ok && caller@ != to@ ==> balance_in(final(self)@, caller@) + balance_in(
                final(self)@,
                to@,
            ) == balance_in(old(self)@, caller@) + balance_in(old(self)@, to@),
            forall|who: Seq<char>|
                who != caller@ && who != to@ ==> balance_in(final(self)@, who) == balance_in(
                    old(self)@,
                    who,
                ),
    {
        let caller_balance = self.balance(&caller);
        let to_balance = self.balance(&to);

        let new_caller_balance = numeric::checked_sub(caller_balance, amount).ok_or(
            INSUFFICIENT_FUNDS,
        )?;
        let new_to_balance = numeric::checked_add(to_balance, amount).ok_or(OVERFLOW)?;

        if caller == to {
            return Ok(());
        }
        self.balances.insert(caller, new_caller_balance);
        self.balances.insert(to, new_to_balance);

        Ok(())
    }
}

impl Dispatch for Pallet {
    type Caller = AccountId;

    type Call = Call;

    /// Carries out `call` for `caller`: a transfer goes to [`Pallet::transfer`].
    fn dispatch(&mut self, caller: AccountId, call: Call) -> (r: DispatchResult)
        ensures
            r == call.result_on(old(self)@, caller@),
            final(self)@ == call.apply_to(old(self)@, caller@),
    {
        match call {
            Call::Transfer { to, amount } => self.transfer(caller, to, amount),
        }
    }
}

} // verus!
