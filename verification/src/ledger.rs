//! The books of one vault as a whole: the vault record, every depositor's
//! balance record, and what the vault's custody account really holds. The
//! engine only ever sees the records of one instruction; here they are put
//! side by side to state what deposits and withdrawals keep true.
//!
//! The custody account is kept by the token program. The books take the
//! token program at its word: a transfer that it makes moves exactly the
//! amount out of the source and into the destination, and it makes none
//! that the source cannot cover.

use vstd::prelude::*;
use crate::action::TransferView;
use crate::error::VaultError;
use crate::processor::close::{closed_record, ClosePlanView};
use crate::processor::deposit::{credited, DepositPlanView};
use crate::processor::initialize::InitializePlanView;
use crate::processor::withdraw::{debited, WithdrawPlanView};
use crate::processor::withdraw_all::{swept_record, WithdrawAllPlanView};
use crate::state::{UserBalanceView, VaultStateView};

verus! {

/// The sum of the balances of a sequence of balance records.
pub open spec fn total_of(balances: Seq<UserBalanceView>) -> nat
    decreases balances.len(),
{
    if balances.len() == 0 {
        0
    } else {
        total_of(balances.drop_last()) + balances.last().balance as nat
    }
}

/// One vault with all that belongs to it.
pub struct Ledger {
    /// The vault record.
    pub vault: VaultStateView,
    /// The balance records of the vault's depositors, one each.
    pub balances: Seq<UserBalanceView>,
    /// What the custody account that the vault record names holds.
    pub custody: nat,
}

impl Ledger {
    /// The balances add up to the vault's total, and the total is what the
    /// custody account holds.
    pub open spec fn conserved(self) -> bool {
        &&& total_of(self.balances) == self.vault.total_deposited
        &&& self.vault.total_deposited == self.custody
    }

    /// The books of a vault that was just initialized, whose custody
    /// account holds `custody`.
    pub open spec fn opened(plan: InitializePlanView, custody: nat) -> Ledger {
        Ledger { vault: plan.record(), balances: Seq::empty(), custody }
    }

    /// Whether the token program makes the transfer, as far as the vault's
    /// custody account is concerned: the account covers what is to leave
    /// it.
    pub open spec fn covers(self, transfer: TransferView) -> bool {
        transfer.source == self.vault.token_account ==> transfer.amount <= self.custody
    }

    /// What the vault's custody account holds after the token program has
    /// made the transfer.
    pub open spec fn custody_after(self, transfer: TransferView) -> nat
        recommends
            self.covers(transfer),
    {
        if transfer.source == transfer.destination {
            self.custody
        } else if transfer.destination == self.vault.token_account {
            self.custody + transfer.amount as nat
        } else if transfer.source == self.vault.token_account {
            (self.custody - transfer.amount) as nat
        } else {
            self.custody
        }
    }

    /// The plan was made on the records of these books: on the vault
    /// record, and on the balance record of depositor `who`.
    pub open spec fn holds(
        self,
        who: int,
        vault: VaultStateView,
        balance: UserBalanceView,
    ) -> bool {
        &&& 0 <= who < self.balances.len()
        &&& self.vault == vault
        &&& self.balances[who] == balance
    }

    /// The books after the deposit of depositor `who` was carried out: the
    /// token program has made the transfer and the engine has credited the
    /// two records.
    pub open spec fn deposited(self, who: int, plan: DepositPlanView) -> Result<Ledger, VaultError>
        recommends
            self.holds(who, plan.vault_state, plan.user_balance),
    {
        match credited(plan.vault_state, plan.user_balance, plan.transfer.amount) {
            Err(e) => Err(e),
            Ok((vault, balance)) => Ok(
                Ledger {
                    vault,
                    balances: self.balances.update(who, balance),
                    custody: self.custody_after(plan.transfer),
                },
            ),
        }
    }

    /// The books after the first deposit of a new depositor was carried
    /// out: the depositor's fresh record joins the books.
    pub open spec fn joined(self, plan: DepositPlanView) -> Result<Ledger, VaultError>
        recommends
            self.vault == plan.vault_state,
            plan.user_balance.balance == 0,
    {
        match credited(plan.vault_state, plan.user_balance, plan.transfer.amount) {
            Err(e) => Err(e),
            Ok((vault, balance)) => Ok(
                Ledger {
                    vault,
                    balances: self.balances.push(balance),
                    custody: self.custody_after(plan.transfer),
                },
            ),
        }
    }

    /// The books after the withdrawal of depositor `who` was carried out:
    /// the token program has made the transfer and the engine has debited
    /// the two records.
    pub open spec fn withdrawn(self, who: int, plan: WithdrawPlanView) -> Result<Ledger, VaultError>
        recommends
            self.holds(who, plan.vault_state, plan.user_balance),
            self.covers(plan.transfer),
    {
        match debited(plan.vault_state, plan.user_balance, plan.transfer.amount) {
            Err(e) => Err(e),
            Ok((vault, balance)) => Ok(
                Ledger {
                    vault,
                    balances: self.balances.update(who, balance),
                    custody: self.custody_after(plan.transfer),
                },
            ),
        }
    }

    /// What the vault's custody account holds after the token program has
    /// made the transfer of an owner-only instruction, if there was one.
    pub open spec fn custody_after_claim(self, transfer: Option<TransferView>) -> nat {
        match transfer {
            None => self.custody,
            Some(t) => self.custody_after(t),
        }
    }

    /// The books after the owner's sweep was carried out: the total is
    /// zero. No balance record changes.
    pub open spec fn after_sweep(self, plan: WithdrawAllPlanView) -> Ledger {
        Ledger {
            vault: swept_record(plan.vault_state),
            balances: self.balances,
            custody: self.custody_after_claim(plan.transfer),
        }
    }

    /// The books after the owner's close was carried out: the vault is
    /// closed. No balance record changes.
    pub open spec fn after_close(self, plan: ClosePlanView) -> Ledger {
        Ledger {
            vault: closed_record(plan.vault_state),
            balances: self.balances,
            custody: self.custody_after_claim(plan.transfer),
        }
    }
}

/// A transfer into the vault: out of another account and into the custody
/// account that the vault record names.
pub open spec fn pays_in(transfer: TransferView, vault: VaultStateView) -> bool {
    transfer.destination == vault.token_account && transfer.source != vault.token_account
}

/// A transfer out of the vault: out of the custody account that the vault
/// record names and into another account.
pub open spec fn pays_out(transfer: TransferView, vault: VaultStateView) -> bool {
    transfer.source == vault.token_account && transfer.destination != vault.token_account
}

/// The transfer of an owner-only instruction that was planned on what the
/// vault's custody account holds: none where it holds nothing, else one
/// that pays out all of it.
pub open spec fn takes_all(transfer: Option<TransferView>, ledger: Ledger) -> bool {
    match transfer {
        None => ledger.custody == 0,
        Some(t) => pays_out(t, ledger.vault) && t.amount == ledger.custody,
    }
}

/// Replacing one record changes the sum by the difference of the balances.
pub proof fn lemma_total_of_update(
    balances: Seq<UserBalanceView>,
    who: int,
    record: UserBalanceView,
)
    requires
        0 <= who < balances.len(),
    ensures
        total_of(balances.update(who, record)) == total_of(balances) - balances[who].balance
            + record.balance,
    decreases balances.len(),
{
    let updated = balances.update(who, record);
    if who == balances.len() - 1 {
        assert(updated.drop_last() =~= balances.drop_last());
    } else {
        assert(updated.drop_last() =~= balances.drop_last().update(who, record));
        lemma_total_of_update(balances.drop_last(), who, record);
    }
}

/// A new record adds its balance to the sum.
pub proof fn lemma_total_of_push(balances: Seq<UserBalanceView>, record: UserBalanceView)
    ensures
        total_of(balances.push(record)) == total_of(balances) + record.balance,
{
    assert(balances.push(record).drop_last() =~= balances);
}

/// No balance exceeds the sum.
pub proof fn lemma_total_of_bounds(balances: Seq<UserBalanceView>, who: int)
    requires
        0 <= who < balances.len(),
    ensures
        balances[who].balance <= total_of(balances),
    decreases balances.len(),
{
    if who < balances.len() - 1 {
        lemma_total_of_bounds(balances.drop_last(), who);
    }
}

/// The books of a new vault whose custody account is empty are conserved.
pub proof fn lemma_new_vault_conserved(plan: InitializePlanView)
    ensures
        Ledger::opened(plan, 0).conserved(),
        !Ledger::opened(plan, 0).vault.is_closed,
{
}

/// A deposit that pays into the vault's custody account keeps the books
/// conserved.
pub proof fn lemma_deposit_conserves(ledger: Ledger, who: int, plan: DepositPlanView)
    requires
        ledger.conserved(),
        ledger.holds(who, plan.vault_state, plan.user_balance),
        pays_in(plan.transfer, ledger.vault),
        ledger.deposited(who, plan) is Ok,
    ensures
        ledger.deposited(who, plan)->Ok_0.conserved(),
{
    let (vault, balance) = credited(
        plan.vault_state,
        plan.user_balance,
        plan.transfer.amount,
    )->Ok_0;
    lemma_total_of_update(ledger.balances, who, balance);
}

/// A first deposit that pays into the vault's custody account keeps the
/// books conserved.
pub proof fn lemma_first_deposit_conserves(ledger: Ledger, plan: DepositPlanView)
    requires
        ledger.conserved(),
        ledger.vault == plan.vault_state,
        plan.user_balance.balance == 0,
        pays_in(plan.transfer, ledger.vault),
        ledger.joined(plan) is Ok,
    ensures
        ledger.joined(plan)->Ok_0.conserved(),
{
    let (vault, balance) = credited(
        plan.vault_state,
        plan.user_balance,
        plan.transfer.amount,
    )->Ok_0;
    lemma_total_of_push(ledger.balances, balance);
}

/// A withdrawal that pays out of the vault's custody account keeps the
/// books conserved.
pub proof fn lemma_withdraw_conserves(ledger: Ledger, who: int, plan: WithdrawPlanView)
    requires
        ledger.conserved(),
        ledger.holds(who, plan.vault_state, plan.user_balance),
        pays_out(plan.transfer, ledger.vault),
        ledger.withdrawn(who, plan) is Ok,
    ensures
        ledger.covers(plan.transfer),
        ledger.withdrawn(who, plan)->Ok_0.conserved(),
{
    let (vault, balance) = debited(plan.vault_state, plan.user_balance, plan.transfer.amount)->Ok_0;
    lemma_total_of_update(ledger.balances, who, balance);
}

/// On conserved books the records take a deposit unless the total would
/// leave the 64-bit range, and a withdrawal unless the depositor's balance
/// is smaller than the amount: a single balance never overflows before the
/// total does, and the total always covers what a balance covers.
pub proof fn lemma_conserved_books_accept(
    ledger: Ledger,
    who: int,
    deposit: DepositPlanView,
    withdrawal: WithdrawPlanView,
)
    requires
        ledger.conserved(),
        ledger.holds(who, deposit.vault_state, deposit.user_balance),
        ledger.holds(who, withdrawal.vault_state, withdrawal.user_balance),
    ensures
        ledger.deposited(who, deposit) is Ok <==> ledger.vault.total_deposited
            + deposit.transfer.amount <= u64::MAX,
        ledger.withdrawn(who, withdrawal) is Ok <==> withdrawal.transfer.amount
            <= ledger.balances[who].balance,
{
    lemma_total_of_bounds(ledger.balances, who);
}

/// After the owner took all, the custody account and the total are zero
/// and every balance record is as before: the balances then exceed the
/// total by what they added up to.
pub proof fn lemma_sweep_leaves_balances(ledger: Ledger, plan: WithdrawAllPlanView)
    requires
        plan.vault_state == ledger.vault,
        takes_all(plan.transfer, ledger),
    ensures
        ledger.after_sweep(plan).custody == 0,
        ledger.after_sweep(plan).vault == (VaultStateView { total_deposited: 0, ..ledger.vault }),
        ledger.after_sweep(plan).balances == ledger.balances,
        total_of(ledger.after_sweep(plan).balances) - ledger.after_sweep(
            plan,
        ).vault.total_deposited == total_of(ledger.balances),
{
}

/// After the owner closed the vault, the custody account is empty, the
/// vault is closed, and every balance record is as before.
pub proof fn lemma_close_empties_custody(ledger: Ledger, plan: ClosePlanView)
    requires
        plan.vault_state == ledger.vault,
        takes_all(plan.transfer, ledger),
    ensures
        ledger.after_close(plan).custody == 0,
        ledger.after_close(plan).vault == (VaultStateView { is_closed: true, ..ledger.vault }),
        ledger.after_close(plan).balances == ledger.balances,
{
}

} // verus!
