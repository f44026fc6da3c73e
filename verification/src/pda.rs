use vstd::prelude::*;
use crate::account::Account;
use crate::address::Address;
use crate::error::OnFailure;
use crate::operation::{Invocation, InvocationView, Operation, OperationView, Signer, SignerView};
use crate::system_program;

verus! {

/// The balance to which a new account is funded: the rent-exempt minimum
/// for its size, and never less than one lamport.
pub open spec fn funding_target(rent_exempt_minimum: u64) -> u64 {
    if rent_exempt_minimum < 1 {
        1
    } else {
        rent_exempt_minimum
    }
}

/// What an account that holds `balance` lamports still lacks of `target`;
/// nothing where it holds as much or more.
pub open spec fn shortfall(target: u64, balance: u64) -> u64 {
    if target > balance {
        (target - balance) as u64
    } else {
        0
    }
}

/// The lamports that the payer has to add to an account that holds
/// `balance`, so that it is exempt from rent.
pub fn required_lamports(rent_exempt_minimum: u64, balance: u64) -> (required: u64)
    ensures
        required == shortfall(funding_target(rent_exempt_minimum), balance),
{
    let target: u64 = if rent_exempt_minimum < 1 {
        1
    } else {
        rent_exempt_minimum
    };
    target.saturating_sub(balance)
}

/// A request to create a program-derived account, as a mathematical
/// value.
pub struct Creation {
    /// Who pays for the account.
    pub payer: Seq<u8>,
    /// The size of its data buffer, in bytes.
    pub space: usize,
    /// The program that is to own it.
    pub owner: Seq<u8>,
    /// The system program's account.
    pub system_program: Seq<u8>,
    /// The address of the account.
    pub account: Seq<u8>,
    /// What the account holds before it is created.
    pub balance: u64,
    /// The seeds that derive the account's address.
    pub seeds: Seq<Seq<u8>>,
    /// The least balance that exempts an account of this size from rent.
    pub rent_exempt_minimum: u64,
}

impl Creation {
    /// What the payer has to add to the account.
    pub open spec fn required(self) -> u64 {
        shortfall(funding_target(self.rent_exempt_minimum), self.balance)
    }

    /// The call that tops the account up. The payer vouches for it as a
    /// signer of the transaction.
    pub open spec fn funding(self) -> InvocationView {
        InvocationView {
            instruction: system_program::transfer_instruction(self.payer, self.account, self.required()),
            accounts: seq![self.payer, self.account, self.system_program],
            signer: SignerView::Direct,
            on_failure: OnFailure::Propagate,
        }
    }

    /// The call that sizes the account's data buffer.
    pub open spec fn allocation(self) -> InvocationView {
        InvocationView {
            instruction: system_program::allocate_instruction(self.account, self.space as u64),
            accounts: seq![self.account, self.system_program],
            signer: SignerView::Derived { seeds: self.seeds },
            on_failure: OnFailure::Propagate,
        }
    }

    /// The call that hands the account over to its owner.
    pub open spec fn assignment(self) -> InvocationView {
        InvocationView {
            instruction: system_program::assign_instruction(self.account, self.owner),
            accounts: seq![self.account, self.system_program],
            signer: SignerView::Derived { seeds: self.seeds },
            on_failure: OnFailure::Propagate,
        }
    }

    /// The one call that funds, sizes and hands over an account that
    /// holds nothing yet.
    pub open spec fn creation(self) -> InvocationView {
        InvocationView {
            instruction: system_program::create_account_instruction(
                self.payer,
                self.account,
                funding_target(self.rent_exempt_minimum),
                self.space as u64,
                self.owner,
            ),
            accounts: seq![self.payer, self.account, self.system_program],
            signer: SignerView::Derived { seeds: self.seeds },
            on_failure: OnFailure::Propagate,
        }
    }

    /// The calls that create the account, in the order in which they are
    /// made.
    ///
    /// An account that holds nothing is created in one call. One that
    /// holds anything cannot be: it is topped up if it lacks something,
    /// then sized, then handed over.
    pub open spec fn steps(self) -> Seq<InvocationView> {
        if self.balance > 0 {
            if self.required() > 0 {
                seq![self.funding(), self.allocation(), self.assignment()]
            } else {
                seq![self.allocation(), self.assignment()]
            }
        } else {
            seq![self.creation()]
        }
    }
}

/// An account that holds nothing is created in a single call, which funds
/// it with the rent-exempt minimum, and with one lamport where that
/// minimum is nothing.
pub proof fn lemma_empty_account_is_created_at_once(request: Creation)
    requires
        request.balance == 0,
    ensures
        request.steps() == seq![request.creation()],
        request.creation().instruction == system_program::create_account_instruction(
            request.payer,
            request.account,
            funding_target(request.rent_exempt_minimum),
            request.space as u64,
            request.owner,
        ),
        funding_target(request.rent_exempt_minimum) >= 1,
        funding_target(request.rent_exempt_minimum) >= request.rent_exempt_minimum,
{
}

/// An account that holds something, but less than it needs, is created
/// in three calls: the payer adds exactly what is missing, so that the
/// account holds the rent-exempt minimum; then the account is sized; then
/// it is handed over.
pub proof fn lemma_short_account_is_topped_up(request: Creation)
    requires
        0 < request.balance < funding_target(request.rent_exempt_minimum),
    ensures
        request.steps() == seq![request.funding(), request.allocation(), request.assignment()],
        request.funding().instruction == system_program::transfer_instruction(
            request.payer,
            request.account,
            request.required(),
        ),
        request.balance + request.required() == funding_target(request.rent_exempt_minimum),
{
}

/// An account that already holds what it needs gets nothing from the
/// payer: it is sized and handed over, in two calls.
pub proof fn lemma_funded_account_gets_no_transfer(request: Creation)
    requires
        request.balance >= funding_target(request.rent_exempt_minimum),
    ensures
        request.required() == 0,
        request.steps() == seq![request.allocation(), request.assignment()],
{
}

/// None of the calls that create an account has an error kind of its own:
/// each hands the status of its failure on.
pub proof fn lemma_creation_hands_failures_on(request: Creation, step: int)
    requires
        0 <= step < request.steps().len(),
    ensures
        request.steps()[step].on_failure == OnFailure::Propagate,
{
}

/// The request that [`create_pda_account`] answers.
pub open spec fn creation_request(
    payer: &Account,
    space: usize,
    owner: &Address,
    system_program: &Account,
    new_pda_account: &Account,
    new_pda_signer_seeds: &[&[u8]],
    rent_exempt_minimum: u64,
) -> Creation {
    Creation {
        payer: payer.key@,
        space,
        owner: owner@,
        system_program: system_program.key@,
        account: new_pda_account.key@,
        balance: new_pda_account.lamports,
        seeds: new_pda_signer_seeds.deep_view(),
        rent_exempt_minimum,
    }
}

/// Plans the creation of a program-derived account of `space` bytes that
/// belongs to the program `owner`, is paid for by `payer`, and is exempt
/// from rent.
///
/// `rent_exempt_minimum` is the least balance that the current rent
/// parameters ask of an account of `space` bytes. A failure of any of the
/// calls ends the operation with the status of that call.
pub fn create_pda_account<'a>(
    payer: &Account,
    space: usize,
    owner: &Address,
    system_program: &Account,
    new_pda_account: &Account,
    new_pda_signer_seeds: &'a [&'a [u8]],
    rent_exempt_minimum: u64,
) -> (operation: Operation<'a>)
    ensures
        operation@ == OperationView::fresh(
            creation_request(
                payer,
                space,
                owner,
                system_program,
                new_pda_account,
                new_pda_signer_seeds,
                rent_exempt_minimum,
            ).steps(),
            Ok(()),
        ),
{
    let ghost request = creation_request(
        payer,
        space,
        owner,
        system_program,
        new_pda_account,
        new_pda_signer_seeds,
        rent_exempt_minimum,
    );
    let mut operation = Operation::new(Ok(()));
    if new_pda_account.lamports > 0 {
        let required = required_lamports(rent_exempt_minimum, new_pda_account.lamports);
        if required > 0 {
            let accounts = vec![payer.key, new_pda_account.key, system_program.key];
            assert(accounts@.map_values(|address: Address| address@) =~= request.funding().accounts);
            operation.push(
                Invocation {
                    instruction: system_program::transfer(&payer.key, &new_pda_account.key, required),
                    accounts,
                    signer: Signer::Direct,
                    on_failure: OnFailure::Propagate,
                },
            );
        }
        let accounts = vec![new_pda_account.key, system_program.key];
        assert(accounts@.map_values(|address: Address| address@) =~= request.allocation().accounts);
        operation.push(
            Invocation {
                instruction: system_program::allocate(&new_pda_account.key, space as u64),
                accounts,
                signer: Signer::Derived { seeds: new_pda_signer_seeds },
                on_failure: OnFailure::Propagate,
            },
        );
        let accounts = vec![new_pda_account.key, system_program.key];
        assert(accounts@.map_values(|address: Address| address@) =~= request.assignment().accounts);
        operation.push(
            Invocation {
                instruction: system_program::assign(&new_pda_account.key, owner),
                accounts,
                signer: Signer::Derived { seeds: new_pda_signer_seeds },
                on_failure: OnFailure::Propagate,
            },
        );
    } else {
        let target: u64 = if rent_exempt_minimum < 1 {
            1
        } else {
            rent_exempt_minimum
        };
        let accounts = vec![payer.key, new_pda_account.key, system_program.key];
        assert(accounts@.map_values(|address: Address| address@) =~= request.creation().accounts);
        operation.push(
            Invocation {
                instruction: system_program::create_account(
                    &payer.key,
                    &new_pda_account.key,
                    target,
                    space as u64,
                    owner,
                ),
                accounts,
                signer: Signer::Derived { seeds: new_pda_signer_seeds },
                on_failure: OnFailure::Propagate,
            },
        );
    }
    assert(operation@.steps =~= request.steps());
    operation
}

} // verus!
