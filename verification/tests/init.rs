use anchor_lang::solana_program::program_error::ProgramError;
use anchor_lang::solana_program::program_pack::Pack;
use anchor_lang::solana_program::pubkey::Pubkey;
use anchor_lang::solana_program::{system_instruction, sysvar};
use token_account_ops::{
    spl_init_token_account, Account, AccountMeta, Action, Address, Error, InitializeTokenAccountParams,
    Instruction, OnFailure, Operation, Signer, INCORRECT_PROGRAM_ID, TOKEN_ACCOUNT_LEN,
};

const NEW: [u8; 32] = [21; 32];
const MINT: [u8; 32] = [22; 32];
const OWNER: [u8; 32] = [23; 32];
const PAYER: [u8; 32] = [24; 32];
const SYSTEM: [u8; 32] = [0; 32];
const RENT: [u8; 32] = [
    6, 167, 213, 23, 25, 44, 92, 81, 33, 140, 201, 76, 61, 74, 241, 127, 88, 218, 238, 8, 155, 161, 253, 68,
    227, 219, 217, 138, 0, 0, 0, 0,
];

fn account(key: [u8; 32], lamports: u64) -> Account {
    Account { key: Address { bytes: key }, lamports, data: Vec::new(), owner: Address { bytes: SYSTEM }, is_writable: true }
}

fn meta(key: [u8; 32], is_signer: bool, is_writable: bool) -> AccountMeta {
    AccountMeta { pubkey: Address { bytes: key }, is_signer, is_writable }
}

fn plain(instruction: anchor_lang::solana_program::instruction::Instruction) -> Instruction {
    Instruction {
        program_id: Address { bytes: instruction.program_id.to_bytes() },
        accounts: instruction.accounts.iter().map(|m| meta(m.pubkey.to_bytes(), m.is_signer, m.is_writable)).collect(),
        data: instruction.data,
    }
}

fn key(bytes: [u8; 32]) -> Pubkey {
    Pubkey::new_from_array(bytes)
}

fn addresses(keys: &[[u8; 32]]) -> Vec<Address> {
    keys.iter().map(|bytes| Address { bytes: *bytes }).collect()
}

struct Accounts {
    new: Account,
    mint: Account,
    owner: Account,
    payer: Account,
    system_program: Account,
    token_program: Account,
    rent: Account,
}

fn accounts(new_lamports: u64, token_program: [u8; 32]) -> Accounts {
    Accounts {
        new: account(NEW, new_lamports),
        mint: account(MINT, 1),
        owner: account(OWNER, 1),
        payer: account(PAYER, 10_000_000),
        system_program: account(SYSTEM, 1),
        token_program: account(token_program, 1),
        rent: account(RENT, 1),
    }
}

fn plan<'b>(accounts: &Accounts, seeds: &'b [&'b [u8]], rent_exempt_minimum: u64) -> Operation<'b> {
    spl_init_token_account(
        InitializeTokenAccountParams {
            account: &accounts.new,
            account_signer_seeds: seeds,
            mint: &accounts.mint,
            owner: &accounts.owner,
            payer: &accounts.payer,
            system_program: &accounts.system_program,
            token_program: &accounts.token_program,
            rent: &accounts.rent,
        },
        rent_exempt_minimum,
    )
}

fn next_instruction(operation: &Operation) -> Instruction {
    match operation.action() {
        Action::Invoke(call) => Instruction {
            program_id: call.instruction.program_id,
            accounts: call.instruction.accounts.clone(),
            data: call.instruction.data.clone(),
        },
        Action::Finish(result) => panic!("no call is asked for: {:?}", result),
    }
}

#[test]
fn token_account_record_has_the_length_the_token_program_gives() {
    assert_eq!(TOKEN_ACCOUNT_LEN, 165);
    assert_eq!(TOKEN_ACCOUNT_LEN, spl_token::state::Account::LEN);
    assert_eq!(sysvar::rent::id().to_bytes(), RENT);
}

#[test]
fn token_account_is_created_then_initialized() {
    let all = accounts(0, spl_token::id().to_bytes());
    let seed: &[u8] = b"token";
    let seeds = [seed];
    let mut operation = plan(&all, &seeds, 2_039_280);
    assert_eq!(
        next_instruction(&operation),
        plain(system_instruction::create_account(&key(PAYER), &key(NEW), 2_039_280, 165, &spl_token::id()))
    );
    match operation.action() {
        Action::Invoke(call) => {
            assert_eq!(call.accounts, addresses(&[PAYER, NEW, SYSTEM]));
            assert_eq!(call.signer, Signer::Derived { seeds: &seeds });
            assert_eq!(call.on_failure, OnFailure::Propagate);
        }
        Action::Finish(result) => panic!("no call is asked for: {:?}", result),
    }
    operation.advance(Ok(()));
    match operation.action() {
        Action::Invoke(call) => {
            assert_eq!(call.instruction.program_id, Address { bytes: spl_token::id().to_bytes() });
            assert_eq!(call.instruction.data, vec![1]);
            assert_eq!(
                call.instruction.accounts,
                vec![meta(NEW, false, true), meta(MINT, false, false), meta(OWNER, false, false), meta(RENT, false, false)]
            );
            assert_eq!(call.accounts, addresses(&[NEW, MINT, OWNER, spl_token::id().to_bytes(), RENT]));
            assert_eq!(call.signer, Signer::Direct);
            assert_eq!(call.on_failure, OnFailure::Report(Error::InitializeTokenAccountFailed));
            assert_eq!(
                call.instruction,
                plain(spl_token::instruction::initialize_account(&spl_token::id(), &key(NEW), &key(MINT), &key(OWNER)).unwrap())
            );
        }
        Action::Finish(result) => panic!("no call is asked for: {:?}", result),
    }
    operation.advance(Ok(()));
    assert_eq!(operation.action(), Action::Finish(Ok(())));
}

#[test]
fn prefunded_token_account_is_created_in_three_calls_then_initialized() {
    let all = accounts(400_000, spl_token::id().to_bytes());
    let seeds: [&[u8]; 0] = [];
    let mut operation = plan(&all, &seeds, 1_000_000);
    assert_eq!(next_instruction(&operation), plain(system_instruction::transfer(&key(PAYER), &key(NEW), 600_000)));
    operation.advance(Ok(()));
    assert_eq!(next_instruction(&operation), plain(system_instruction::allocate(&key(NEW), 165)));
    operation.advance(Ok(()));
    assert_eq!(next_instruction(&operation), plain(system_instruction::assign(&key(NEW), &spl_token::id())));
    operation.advance(Ok(()));
    assert_eq!(next_instruction(&operation).data, vec![1]);
    operation.advance(Ok(()));
    assert_eq!(operation.action(), Action::Finish(Ok(())));
}

#[test]
fn failed_creation_is_reported_as_it_came_and_nothing_is_initialized() {
    let all = accounts(0, spl_token::id().to_bytes());
    let seeds: [&[u8]; 0] = [];
    let mut operation = plan(&all, &seeds, 1_000_000);
    let status = u64::from(ProgramError::Custom(0));
    operation.advance(Err(status));
    assert_eq!(operation.action(), Action::Finish(Err(Error::Unmapped { status })));
    operation.advance(Ok(()));
    assert_eq!(operation.action(), Action::Finish(Err(Error::Unmapped { status })));
}

#[test]
fn failure_in_the_middle_of_creation_is_reported_as_it_came() {
    let all = accounts(400_000, spl_token::id().to_bytes());
    let seeds: [&[u8]; 0] = [];
    for failing in 0..3 {
        let mut operation = plan(&all, &seeds, 1_000_000);
        for _ in 0..failing {
            operation.advance(Ok(()));
        }
        let status = 40 + failing as u64;
        operation.advance(Err(status));
        assert_eq!(operation.action(), Action::Finish(Err(Error::Unmapped { status })));
    }
}

#[test]
fn refused_initialization_is_reported_as_initialization_failure() {
    let all = accounts(0, spl_token::id().to_bytes());
    let seeds: [&[u8]; 0] = [];
    let mut operation = plan(&all, &seeds, 1_000_000);
    operation.advance(Ok(()));
    operation.advance(Err(u64::from(ProgramError::InvalidAccountData)));
    assert_eq!(operation.action(), Action::Finish(Err(Error::InitializeTokenAccountFailed)));
}

#[test]
fn initialization_by_another_program_is_refused_after_creation() {
    let all = accounts(0, [77; 32]);
    let seeds: [&[u8]; 0] = [];
    let mut operation = plan(&all, &seeds, 1_000_000);
    assert_eq!(
        next_instruction(&operation),
        plain(system_instruction::create_account(&key(PAYER), &key(NEW), 1_000_000, 165, &key([77; 32])))
    );
    operation.advance(Ok(()));
    assert_eq!(operation.action(), Action::Finish(Err(Error::Unmapped { status: INCORRECT_PROGRAM_ID })));
}
