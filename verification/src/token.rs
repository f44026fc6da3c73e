use vstd::prelude::*;
use crate::account::Account;
use crate::address::Address;
use crate::error::{Error, OnFailure, INCORRECT_PROGRAM_ID};
use crate::instruction::Instruction;
use crate::operation::{
    lemma_all_calls_succeed, lemma_finished_is_final, lemma_first_failure_decides, lemma_run_in_parts, successes,
    ActionView, Invocation, InvocationView, Operation, OperationView, Signer, SignerView,
};
use crate::pda::{create_pda_account, creation_request, Creation};
use crate::token_program;
use crate::token_program::{token_program_id, AuthorityType, TOKEN_ACCOUNT_LEN};

verus! {

/// A request to move tokens from one account to another.
pub struct TokenTransferParams<'a, 'b> {
    /// The account that gives.
    pub source: &'a Account,
    /// The account that receives.
    pub destination: &'a Account,
    /// How many units to move.
    pub amount: u64,
    /// Who may spend from the source.
    pub authority: &'a Account,
    /// The seeds that derive the authority's address; empty where the
    /// authority signed the transaction itself.
    pub authority_signer_seeds: &'b [&'b [u8]],
    /// The token program's account.
    pub token_program: &'a Account,
}

/// A request to create new units of a mint.
pub struct TokenMintParams<'a, 'b> {
    /// The mint whose supply grows.
    pub mint: &'a Account,
    /// The account that receives the new units.
    pub to: &'a Account,
    /// How many units to create.
    pub amount: u64,
    /// Who may mint.
    pub owner: &'a Account,
    /// The seeds that derive the minting authority's address.
    pub owner_signer_seeds: &'b [&'b [u8]],
    /// The token program's account.
    pub token_program: &'a Account,
}

/// A request to turn a new account into a token account.
pub struct InitializeTokenAccountParams<'a, 'b> {
    /// The account to create and initialize.
    pub account: &'a Account,
    /// The seeds that derive the new account's address.
    pub account_signer_seeds: &'b [&'b [u8]],
    /// The mint whose units the account is to hold.
    pub mint: &'a Account,
    /// Who is to own the token account.
    pub owner: &'a Account,
    /// Who pays for the account.
    pub payer: &'a Account,
    /// The system program's account.
    pub system_program: &'a Account,
    /// The token program's account.
    pub token_program: &'a Account,
    /// The account under which the rent parameters are published.
    pub rent: &'a Account,
}

/// A request to hand one authority over an account or a mint to someone
/// else.
pub struct SetAuthorityParams<'a, 'b> {
    /// The account or mint whose authority changes.
    pub account: &'a Account,
    /// Who is to hold the authority.
    pub new_authority: &'a Account,
    /// Which authority changes hands.
    pub authority_type: AuthorityType,
    /// Who holds the authority now.
    pub owner: &'a Account,
    /// The seeds that derive the present holder's address.
    pub owner_signer_seeds: &'b [&'b [u8]],
    /// The token program's account.
    pub token_program: &'a Account,
}

/// A request to close a token account in the token program's books.
pub struct CloseAccountParams<'a, 'b> {
    /// The token account to close.
    pub account: &'a Account,
    /// The account that receives what the closed account held.
    pub destination: &'a Account,
    /// Who may close the account.
    pub owner: &'a Account,
    /// The seeds that derive the owner's address.
    pub owner_signer_seeds: &'b [&'b [u8]],
    /// The token program's account.
    pub token_program: &'a Account,
}

/// The status with which an instruction is refused before any call is
/// made, because it is addressed to a program other than the token
/// program.
pub open spec fn refused() -> Result<(), Error> {
    Err(Error::Unmapped { status: INCORRECT_PROGRAM_ID })
}

/// An operation of one call to the token program. Where `token_program`
/// is another program the call is never made, and the operation ends at
/// once with the status for an incorrect program id.
pub open spec fn single_call(token_program: Seq<u8>, invocation: InvocationView) -> OperationView {
    if token_program == token_program_id() {
        OperationView::fresh(seq![invocation], Ok(()))
    } else {
        OperationView::fresh(Seq::empty(), refused())
    }
}

impl TokenTransferParams<'_, '_> {
    /// The call that makes the transfer.
    pub open spec fn invocation(&self) -> InvocationView {
        InvocationView {
            instruction: token_program::transfer_instruction(
                self.token_program.key@,
                self.source.key@,
                self.destination.key@,
                self.authority.key@,
                self.amount,
            ),
            accounts: seq![self.source.key@, self.destination.key@, self.authority.key@, self.token_program.key@],
            signer: SignerView::Derived { seeds: self.authority_signer_seeds.deep_view() },
            on_failure: OnFailure::Report(Error::TokenTransferFailed),
        }
    }

    /// The transfer as an operation.
    pub open spec fn operation(&self) -> OperationView {
        single_call(self.token_program.key@, self.invocation())
    }
}

impl TokenMintParams<'_, '_> {
    /// The call that mints.
    pub open spec fn invocation(&self) -> InvocationView {
        InvocationView {
            instruction: token_program::mint_to_instruction(
                self.token_program.key@,
                self.mint.key@,
                self.to.key@,
                self.owner.key@,
                self.amount,
            ),
            accounts: seq![self.mint.key@, self.to.key@, self.owner.key@, self.token_program.key@],
            signer: SignerView::Derived { seeds: self.owner_signer_seeds.deep_view() },
            on_failure: OnFailure::Report(Error::TokenMintFailed),
        }
    }

    /// The mint as an operation.
    pub open spec fn operation(&self) -> OperationView {
        single_call(self.token_program.key@, self.invocation())
    }
}

impl InitializeTokenAccountParams<'_, '_> {
    /// The request to create the account: as large as the token
    /// program's account record, and owned by the token program.
    pub open spec fn creation(&self, rent_exempt_minimum: u64) -> Creation {
        creation_request(
            self.payer,
            TOKEN_ACCOUNT_LEN,
            &self.token_program.key,
            self.system_program,
            self.account,
            self.account_signer_seeds,
            rent_exempt_minimum,
        )
    }

    /// The call that makes the created account a token account.
    pub open spec fn invocation(&self) -> InvocationView {
        InvocationView {
            instruction: token_program::initialize_account_instruction(
                self.token_program.key@,
                self.account.key@,
                self.mint.key@,
                self.owner.key@,
            ),
            accounts: seq![
                self.account.key@,
                self.mint.key@,
                self.owner.key@,
                self.token_program.key@,
                self.rent.key@,
            ],
            signer: SignerView::Direct,
            on_failure: OnFailure::Report(Error::InitializeTokenAccountFailed),
        }
    }

    /// Creation and initialization as one operation: the calls that
    /// create the account, and after them the call that initializes it.
    /// Where `token_program` is another program, the account is created
    /// all the same, and the operation ends after that with the status for
    /// an incorrect program id.
    pub open spec fn operation(&self, rent_exempt_minimum: u64) -> OperationView {
        let creation = self.creation(rent_exempt_minimum).steps();
        if self.token_program.key@ == token_program_id() {
            OperationView::fresh(creation.push(self.invocation()), Ok(()))
        } else {
            OperationView::fresh(creation, refused())
        }
    }
}

impl SetAuthorityParams<'_, '_> {
    /// The call that changes the authority.
    pub open spec fn invocation(&self) -> InvocationView {
        InvocationView {
            instruction: token_program::set_authority_instruction(
                self.token_program.key@,
                self.account.key@,
                self.new_authority.key@,
                self.authority_type,
                self.owner.key@,
            ),
            accounts: seq![
                self.account.key@,
                self.new_authority.key@,
                self.owner.key@,
                self.token_program.key@,
            ],
            signer: SignerView::Derived { seeds: self.owner_signer_seeds.deep_view() },
            on_failure: OnFailure::Report(Error::SetAccountAuthorityFailed),
        }
    }

    /// The change of authority as an operation.
    pub open spec fn operation(&self) -> OperationView {
        single_call(self.token_program.key@, self.invocation())
    }
}

impl CloseAccountParams<'_, '_> {
    /// The call that closes the token account.
    pub open spec fn invocation(&self) -> InvocationView {
        InvocationView {
            instruction: token_program::close_account_instruction(
                self.token_program.key@,
                self.account.key@,
                self.destination.key@,
                self.owner.key@,
            ),
            accounts: seq![self.account.key@, self.destination.key@, self.owner.key@, self.token_program.key@],
            signer: SignerView::Derived { seeds: self.owner_signer_seeds.deep_view() },
            on_failure: OnFailure::Report(Error::CloseAccountFailed),
        }
    }

    /// The closing as an operation.
    pub open spec fn operation(&self) -> OperationView {
        single_call(self.token_program.key@, self.invocation())
    }
}

/// An operation of one call to the token program ends as that call ends:
/// with success if the token program did what was asked, and with the
/// error of the call if it refused, whatever status it gave. Nothing that
/// is reported afterwards changes the result.
pub proof fn lemma_single_call_decides(
    invocation: InvocationView,
    outcome: Result<(), u64>,
    later: Seq<Result<(), u64>>,
)
    ensures
        single_call(token_program_id(), invocation).run(seq![outcome] + later).action() == ActionView::Finish(
            match outcome {
                Ok(_) => Ok(()),
                Err(status) => Err(invocation.on_failure.reported(status)),
            },
        ),
{
    let operation = single_call(token_program_id(), invocation);
    assert((seq![outcome] + later).skip(1) =~= later);
    assert(operation.run(seq![outcome] + later) == operation.advance(outcome).run(later));
    lemma_finished_is_final(operation.advance(outcome), later);
}

/// A transfer that the token program refuses fails as a transfer,
/// whatever the reason was.
pub proof fn lemma_refused_transfer(
    params: TokenTransferParams<'_, '_>,
    status: u64,
    later: Seq<Result<(), u64>>,
)
    requires
        params.token_program.key@ == token_program_id(),
    ensures
        params.operation().run(seq![Err::<(), u64>(status)] + later).action() == ActionView::Finish(
            Err(Error::TokenTransferFailed),
        ),
{
    lemma_single_call_decides(params.invocation(), Err(status), later);
}

/// A mint that the token program refuses fails as a mint, whatever the
/// reason was.
pub proof fn lemma_refused_mint(params: TokenMintParams<'_, '_>, status: u64, later: Seq<Result<(), u64>>)
    requires
        params.token_program.key@ == token_program_id(),
    ensures
        params.operation().run(seq![Err::<(), u64>(status)] + later).action() == ActionView::Finish(
            Err(Error::TokenMintFailed),
        ),
{
    lemma_single_call_decides(params.invocation(), Err(status), later);
}

/// A change of authority that the token program refuses fails as a
/// change of authority, whatever the reason was and whichever of the four
/// authorities was meant.
pub proof fn lemma_refused_set_authority(
    params: SetAuthorityParams<'_, '_>,
    status: u64,
    later: Seq<Result<(), u64>>,
)
    requires
        params.token_program.key@ == token_program_id(),
    ensures
        params.operation().run(seq![Err::<(), u64>(status)] + later).action() == ActionView::Finish(
            Err(Error::SetAccountAuthorityFailed),
        ),
{
    lemma_single_call_decides(params.invocation(), Err(status), later);
}

/// A closing that the token program refuses fails as a closing, whatever
/// the reason was.
pub proof fn lemma_refused_close_account(
    params: CloseAccountParams<'_, '_>,
    status: u64,
    later: Seq<Result<(), u64>>,
)
    requires
        params.token_program.key@ == token_program_id(),
    ensures
        params.operation().run(seq![Err::<(), u64>(status)] + later).action() == ActionView::Finish(
            Err(Error::CloseAccountFailed),
        ),
{
    lemma_single_call_decides(params.invocation(), Err(status), later);
}

/// A change of authority is one call for each of the four authorities,
/// and it succeeds where the token program grants it.
pub proof fn lemma_granted_set_authority(params: SetAuthorityParams<'_, '_>, later: Seq<Result<(), u64>>)
    requires
        params.token_program.key@ == token_program_id(),
    ensures
        params.operation().action() == ActionView::Invoke(params.invocation()),
        params.invocation().instruction.data[1] == params.authority_type.tag(),
        params.operation().run(seq![Ok::<(), u64>(())] + later).action() == ActionView::Finish(Ok(())),
{
    lemma_single_call_decides(params.invocation(), Ok(()), later);
}

/// While an account is being created, the token program is not called:
/// as long as the calls succeed, the next call is the next call of the
/// creation.
pub proof fn lemma_creation_comes_first(
    params: InitializeTokenAccountParams<'_, '_>,
    rent_exempt_minimum: u64,
    made: nat,
)
    requires
        made < params.creation(rent_exempt_minimum).steps().len(),
    ensures
        params.operation(rent_exempt_minimum).run(successes(made)).action() == ActionView::Invoke(
            params.creation(rent_exempt_minimum).steps()[made as int],
        ),
{
    let operation = params.operation(rent_exempt_minimum);
    lemma_all_calls_succeed(operation.steps, operation.conclusion, made);
}

/// If a call of the creation fails, the operation ends with the status
/// of that call, not with [`Error::InitializeTokenAccountFailed`], and
/// the token program is never asked to initialize the account.
pub proof fn lemma_failed_creation_ends_initialization(
    params: InitializeTokenAccountParams<'_, '_>,
    rent_exempt_minimum: u64,
    made: nat,
    status: u64,
    later: Seq<Result<(), u64>>,
)
    requires
        made < params.creation(rent_exempt_minimum).steps().len(),
    ensures
        params.operation(rent_exempt_minimum).run(successes(made).push(Err(status)) + later).action()
            == ActionView::Finish(Err(Error::Unmapped { status })),
{
    let operation = params.operation(rent_exempt_minimum);
    lemma_first_failure_decides(operation.steps, operation.conclusion, made, status, later);
}

/// Once the account has been created, the token program is asked to
/// initialize it. If it does, the operation succeeds; if it refuses, the
/// operation fails with [`Error::InitializeTokenAccountFailed`],
/// whatever the reason was.
pub proof fn lemma_initialization_follows_creation(
    params: InitializeTokenAccountParams<'_, '_>,
    rent_exempt_minimum: u64,
    outcome: Result<(), u64>,
    later: Seq<Result<(), u64>>,
)
    requires
        params.token_program.key@ == token_program_id(),
    ensures
        ({
            let created = successes(params.creation(rent_exempt_minimum).steps().len());
            let operation = params.operation(rent_exempt_minimum);
            &&& operation.run(created).action() == ActionView::Invoke(params.invocation())
            &&& operation.run(created.push(outcome) + later).action() == ActionView::Finish(
                match outcome {
                    Ok(_) => Ok(()),
                    Err(_) => Err(Error::InitializeTokenAccountFailed),
                },
            )
        }),
{
    let operation = params.operation(rent_exempt_minimum);
    let count = params.creation(rent_exempt_minimum).steps().len();
    let created = successes(count);
    lemma_all_calls_succeed(operation.steps, operation.conclusion, count);
    match outcome {
        Ok(_) => {
            assert(outcome->Ok_0 == ());
            assert(created.push(outcome) =~= successes(count + 1));
            lemma_all_calls_succeed(operation.steps, operation.conclusion, count + 1);
            lemma_run_in_parts(operation, successes(count + 1), later);
            lemma_finished_is_final(operation.run(successes(count + 1)), later);
        },
        Err(status) => {
            lemma_first_failure_decides(operation.steps, operation.conclusion, count, status, later);
        },
    }
}

/// Makes an operation out of an instruction for the token program, or
/// out of the status with which it could not be built.
fn delegate<'b>(
    built: Result<Instruction, u64>,
    accounts: Vec<Address>,
    signer: Signer<'b>,
    error: Error,
) -> (operation: Operation<'b>)
    ensures
        operation@ == match built {
            Ok(instruction) => OperationView::fresh(
                seq![
                    (InvocationView {
                        instruction: instruction@,
                        accounts: accounts@.map_values(|address: Address| address@),
                        signer: signer@,
                        on_failure: OnFailure::Report(error),
                    }),
                ],
                Ok(()),
            ),
            Err(status) => OperationView::fresh(Seq::empty(), Err(Error::Unmapped { status })),
        },
{
    match built {
        Ok(instruction) => {
            let mut operation = Operation::new(Ok(()));
            operation.push(Invocation { instruction, accounts, signer, on_failure: OnFailure::Report(error) });
            assert(operation@.steps =~= seq![operation@.steps[0]]);
            operation
        },
        Err(status) => Operation::new(Err(Error::Unmapped { status })),
    }
}

/// Plans the transfer of `amount` tokens from `source` to `destination`
/// on the word of `authority`.
///
/// If the token program refuses the call, for whatever reason, the
/// operation fails with [`Error::TokenTransferFailed`].
pub fn spl_token_transfer<'b>(params: TokenTransferParams<'_, 'b>) -> (operation: Operation<'b>)
    ensures
        operation@ == params.operation(),
{
    let built = token_program::transfer(
        &params.token_program.key,
        &params.source.key,
        &params.destination.key,
        &params.authority.key,
        params.amount,
    );
    let accounts = vec![params.source.key, params.destination.key, params.authority.key, params.token_program.key];
    assert(accounts@.map_values(|address: Address| address@) =~= params.invocation().accounts);
    delegate(
        built,
        accounts,
        Signer::Derived { seeds: params.authority_signer_seeds },
        Error::TokenTransferFailed,
    )
}

/// Plans the minting of `amount` new units of `mint` into `to` on the
/// word of `owner`.
///
/// If the token program refuses the call, for whatever reason, the
/// operation fails with [`Error::TokenMintFailed`].
pub fn spl_token_mint<'b>(params: TokenMintParams<'_, 'b>) -> (operation: Operation<'b>)
    ensures
        operation@ == params.operation(),
{
    let built = token_program::mint_to(
        &params.token_program.key,
        &params.mint.key,
        &params.to.key,
        &params.owner.key,
        params.amount,
    );
    let accounts = vec![params.mint.key, params.to.key, params.owner.key, params.token_program.key];
    assert(accounts@.map_values(|address: Address| address@) =~= params.invocation().accounts);
    delegate(built, accounts, Signer::Derived { seeds: params.owner_signer_seeds }, Error::TokenMintFailed)
}

/// Plans the creation of `account` and its initialization as a token
/// account of `mint` that belongs to `owner`.
///
/// The account is created first, as [`create_pda_account`] creates it: a
/// failure there ends the operation with the status of the call that
/// failed, and the token program is never called. If the token program
/// then refuses to initialize the account, the operation fails with
/// [`Error::InitializeTokenAccountFailed`].
pub fn spl_init_token_account<'b>(
    params: InitializeTokenAccountParams<'_, 'b>,
    rent_exempt_minimum: u64,
) -> (operation: Operation<'b>)
    ensures
        operation@ == params.operation(rent_exempt_minimum),
{
    let mut operation = create_pda_account(
        params.payer,
        token_program::token_account_len(),
        &params.token_program.key,
        params.system_program,
        params.account,
        params.account_signer_seeds,
        rent_exempt_minimum,
    );
    let built = token_program::initialize_account(
        &params.token_program.key,
        &params.account.key,
        &params.mint.key,
        &params.owner.key,
    );
    match built {
        Ok(instruction) => {
            let accounts = vec![
                params.account.key,
                params.mint.key,
                params.owner.key,
                params.token_program.key,
                params.rent.key,
            ];
            assert(accounts@.map_values(|address: Address| address@) =~= params.invocation().accounts);
            operation.push(
                Invocation {
                    instruction,
                    accounts,
                    signer: Signer::Direct,
                    on_failure: OnFailure::Report(Error::InitializeTokenAccountFailed),
                },
            );
        },
        Err(status) => {
            operation.conclude(Err(Error::Unmapped { status }));
        },
    }
    operation
}

/// Plans the handing over of one authority over `account` to
/// `new_authority` on the word of `owner`, who holds it now.
///
/// If the token program refuses the call, for whatever reason, the
/// operation fails with [`Error::SetAccountAuthorityFailed`].
pub fn spl_set_authority<'b>(params: SetAuthorityParams<'_, 'b>) -> (operation: Operation<'b>)
    ensures
        operation@ == params.operation(),
{
    let built = token_program::set_authority(
        &params.token_program.key,
        &params.account.key,
        &params.new_authority.key,
        params.authority_type,
        &params.owner.key,
    );
    let accounts = vec![params.account.key, params.new_authority.key, params.owner.key, params.token_program.key];
    assert(accounts@.map_values(|address: Address| address@) =~= params.invocation().accounts);
    delegate(built, accounts, Signer::Derived { seeds: params.owner_signer_seeds }, Error::SetAccountAuthorityFailed)
}

/// Plans the closing of the token account `account` on the word of
/// `owner`; what the account holds goes to `destination`.
///
/// If the token program refuses the call, for whatever reason, the
/// operation fails with [`Error::CloseAccountFailed`].
pub fn spl_close_account<'b>(params: CloseAccountParams<'_, 'b>) -> (operation: Operation<'b>)
    ensures
        operation@ == params.operation(),
{
    let built = token_program::close_account(
        &params.token_program.key,
        &params.account.key,
        &params.destination.key,
        &params.owner.key,
    );
    let accounts = vec![params.account.key, params.destination.key, params.owner.key, params.token_program.key];
    assert(accounts@.map_values(|address: Address| address@) =~= params.invocation().accounts);
    delegate(built, accounts, Signer::Derived { seeds: params.owner_signer_seeds }, Error::CloseAccountFailed)
}

} // verus!
