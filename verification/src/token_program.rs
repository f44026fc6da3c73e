use vstd::prelude::*;
use crate::address::Address;
use crate::error::INCORRECT_PROGRAM_ID;
use crate::instruction::{
    from_le_bytes, le_bytes, lemma_le_bytes_round_trip, readonly, writable, AccountMeta, Instruction,
    InstructionView,
};

verus! {

/// The address of the token program.
pub open spec fn token_program_id() -> Seq<u8> {
    seq![
        6u8, 221, 246, 225, 215, 101, 161, 147, 217, 203, 225, 70, 206, 235, 121, 172,
        28, 180, 133, 237, 95, 91, 55, 145, 58, 140, 245, 133, 126, 255, 0, 169,
    ]
}

/// The address under which the rent parameters are published.
pub open spec fn rent_sysvar_id() -> Seq<u8> {
    seq![
        6u8, 167, 213, 23, 25, 44, 92, 81, 33, 140, 201, 76, 61, 74, 241, 127,
        88, 218, 238, 8, 155, 161, 253, 68, 227, 219, 217, 138, 0, 0, 0, 0,
    ]
}

/// The address of the token program, as a value.
pub fn token_program_address() -> (address: Address)
    ensures
        address@ == token_program_id(),
{
    let address = Address {
        bytes: [
            6, 221, 246, 225, 215, 101, 161, 147, 217, 203, 225, 70, 206, 235, 121, 172,
            28, 180, 133, 237, 95, 91, 55, 145, 58, 140, 245, 133, 126, 255, 0, 169,
        ],
    };
    assert(address@ =~= token_program_id());
    address
}

/// The address under which the rent parameters are published, as a
/// value.
pub fn rent_sysvar_address() -> (address: Address)
    ensures
        address@ == rent_sysvar_id(),
{
    let address = Address {
        bytes: [
            6, 167, 213, 23, 25, 44, 92, 81, 33, 140, 201, 76, 61, 74, 241, 127,
            88, 218, 238, 8, 155, 161, 253, 68, 227, 219, 217, 138, 0, 0, 0, 0,
        ],
    };
    assert(address@ =~= rent_sysvar_id());
    address
}

/// The length in bytes of the record that the token program keeps for one
/// token account.
pub const TOKEN_ACCOUNT_LEN: usize = 165;

/// The four authorities that the token program lets its users hand over.
#[derive(Clone, Copy, Debug, PartialEq, Eq, Structural)]
pub enum AuthorityType {
    /// Who may mint new units of a mint.
    MintTokens,
    /// Who may freeze the accounts of a mint.
    FreezeAccount,
    /// Who owns a token account.
    AccountOwner,
    /// Who may close a token account.
    CloseAccount,
}

impl AuthorityType {
    /// The byte by which the token program knows the authority.
    pub open spec fn tag(self) -> u8 {
        match self {
            AuthorityType::MintTokens => 0,
            AuthorityType::FreezeAccount => 1,
            AuthorityType::AccountOwner => 2,
            AuthorityType::CloseAccount => 3,
        }
    }
}

/// The instruction that asks the token program to move `amount` units
/// from `source` to `destination` on the word of `authority`.
pub open spec fn transfer_instruction(
    token_program: Seq<u8>,
    source: Seq<u8>,
    destination: Seq<u8>,
    authority: Seq<u8>,
    amount: u64,
) -> InstructionView {
    InstructionView {
        program_id: token_program,
        accounts: seq![writable(source, false), writable(destination, false), readonly(authority, true)],
        data: seq![3u8] + le_bytes(amount),
    }
}

/// The instruction that asks the token program to create `amount` new
/// units of `mint` in the account `to` on the word of `owner`.
pub open spec fn mint_to_instruction(
    token_program: Seq<u8>,
    mint: Seq<u8>,
    to: Seq<u8>,
    owner: Seq<u8>,
    amount: u64,
) -> InstructionView {
    InstructionView {
        program_id: token_program,
        accounts: seq![writable(mint, false), writable(to, false), readonly(owner, true)],
        data: seq![7u8] + le_bytes(amount),
    }
}

/// The instruction that asks the token program to make `account` a token
/// account of `mint` that belongs to `owner`.
pub open spec fn initialize_account_instruction(
    token_program: Seq<u8>,
    account: Seq<u8>,
    mint: Seq<u8>,
    owner: Seq<u8>,
) -> InstructionView {
    InstructionView {
        program_id: token_program,
        accounts: seq![
            writable(account, false),
            readonly(mint, false),
            readonly(owner, false),
            readonly(rent_sysvar_id(), false),
        ],
        data: seq![1u8],
    }
}

/// The instruction that asks the token program to hand the authority
/// `authority_type` over `account` to `new_authority` on the word of
/// `owner`, who holds it now.
pub open spec fn set_authority_instruction(
    token_program: Seq<u8>,
    account: Seq<u8>,
    new_authority: Seq<u8>,
    authority_type: AuthorityType,
    owner: Seq<u8>,
) -> InstructionView {
    InstructionView {
        program_id: token_program,
        accounts: seq![writable(account, false), readonly(owner, true)],
        data: seq![6u8, authority_type.tag(), 1u8] + new_authority,
    }
}

/// The instruction that asks the token program to close `account` on the
/// word of `owner` and to pay what it holds to `destination`.
pub open spec fn close_account_instruction(
    token_program: Seq<u8>,
    account: Seq<u8>,
    destination: Seq<u8>,
    owner: Seq<u8>,
) -> InstructionView {
    InstructionView {
        program_id: token_program,
        accounts: seq![writable(account, false), writable(destination, false), readonly(owner, true)],
        data: seq![9u8],
    }
}

/// A transfer instruction carries its amount unchanged: the eight bytes
/// after the tag are the amount, and the first two accounts are the
/// source and the destination.
pub proof fn lemma_transfer_carries_amount(
    token_program: Seq<u8>,
    source: Seq<u8>,
    destination: Seq<u8>,
    authority: Seq<u8>,
    amount: u64,
)
    ensures
        ({
            let instruction = transfer_instruction(token_program, source, destination, authority, amount);
            &&& from_le_bytes(instruction.data.subrange(1, 9)) == amount
            &&& instruction.accounts[0].pubkey == source
            &&& instruction.accounts[1].pubkey == destination
        }),
{
    lemma_le_bytes_round_trip(amount);
    let instruction = transfer_instruction(token_program, source, destination, authority, amount);
    assert(instruction.data.subrange(1, 9) =~= le_bytes(amount));
}

/// A mint instruction carries its amount unchanged: the eight bytes after
/// the tag are the amount, and the first two accounts are the mint and
/// the account that receives.
pub proof fn lemma_mint_carries_amount(
    token_program: Seq<u8>,
    mint: Seq<u8>,
    to: Seq<u8>,
    owner: Seq<u8>,
    amount: u64,
)
    ensures
        ({
            let instruction = mint_to_instruction(token_program, mint, to, owner, amount);
            &&& from_le_bytes(instruction.data.subrange(1, 9)) == amount
            &&& instruction.accounts[0].pubkey == mint
            &&& instruction.accounts[1].pubkey == to
        }),
{
    lemma_le_bytes_round_trip(amount);
    let instruction = mint_to_instruction(token_program, mint, to, owner, amount);
    assert(instruction.data.subrange(1, 9) =~= le_bytes(amount));
}

/// The token program is told which of the four authorities is meant:
/// the second byte of the instruction is the tag of that authority, and
/// no two authorities share a tag.
pub proof fn lemma_authority_is_told_apart(
    token_program: Seq<u8>,
    account: Seq<u8>,
    new_authority: Seq<u8>,
    owner: Seq<u8>,
    one: AuthorityType,
    other: AuthorityType,
)
    ensures
        set_authority_instruction(token_program, account, new_authority, one, owner).data[1] == one.tag(),
        one.tag() == other.tag() ==> one == other,
        one != other ==> set_authority_instruction(token_program, account, new_authority, one, owner)
            != set_authority_instruction(token_program, account, new_authority, other, owner),
{
    let first = set_authority_instruction(token_program, account, new_authority, one, owner);
    let second = set_authority_instruction(token_program, account, new_authority, other, owner);
    assert(first.data[1] == one.tag());
    assert(second.data[1] == other.tag());
}

/// `spl_token::state::Account::LEN`, the constant that the token program
/// gives for the packed length of its account record.
#[verifier::external_body]
pub(crate) fn token_account_len() -> (len: usize)
    ensures
        len == TOKEN_ACCOUNT_LEN,
{
    <spl_token::state::Account as anchor_lang::solana_program::program_pack::Pack>::LEN
}

/// `spl_token::instruction::transfer`, called without multisignature
/// signers. It refuses every program but the token program with the
/// status for an incorrect program id. For the token program it names the
/// source and the destination as writable and the authority as the one
/// signer, and encodes the tag 3 followed by the amount.
#[verifier::external_body]
pub(crate) fn transfer(
    token_program: &Address,
    source: &Address,
    destination: &Address,
    authority: &Address,
    amount: u64,
) -> (built: Result<Instruction, u64>)
    ensures
        match built {
            Ok(instruction) => token_program@ == token_program_id()
                && instruction@ == transfer_instruction(token_program@, source@, destination@, authority@, amount),
            Err(status) => token_program@ != token_program_id() && status == INCORRECT_PROGRAM_ID,
        },
{
    match spl_token::instruction::transfer(&token_program.bytes.into(), &source.bytes.into(), &destination.bytes.into(), &authority.bytes.into(), &[], amount) {
        Ok(ix) => {
            let metas = ix.accounts.iter().map(|m| AccountMeta::from_parts(m.pubkey.to_bytes(), m.is_signer, m.is_writable));
            Ok(Instruction::from_parts(ix.program_id.to_bytes(), metas.collect(), ix.data))
        },
        Err(error) => Err(error.into()),
    }
}

/// `spl_token::instruction::mint_to`, called without multisignature
/// signers. It refuses every program but the token program with the
/// status for an incorrect program id. For the token program it names the
/// mint and the receiving account as writable and the owner as the one
/// signer, and encodes the tag 7 followed by the amount.
#[verifier::external_body]
pub(crate) fn mint_to(
    token_program: &Address,
    mint: &Address,
    to: &Address,
    owner: &Address,
    amount: u64,
) -> (built: Result<Instruction, u64>)
    ensures
        match built {
            Ok(instruction) => token_program@ == token_program_id()
                && instruction@ == mint_to_instruction(token_program@, mint@, to@, owner@, amount),
            Err(status) => token_program@ != token_program_id() && status == INCORRECT_PROGRAM_ID,
        },
{
    match spl_token::instruction::mint_to(&token_program.bytes.into(), &mint.bytes.into(), &to.bytes.into(), &owner.bytes.into(), &[], amount) {
        Ok(ix) => {
            let metas = ix.accounts.iter().map(|m| AccountMeta::from_parts(m.pubkey.to_bytes(), m.is_signer, m.is_writable));
            Ok(Instruction::from_parts(ix.program_id.to_bytes(), metas.collect(), ix.data))
        },
        Err(error) => Err(error.into()),
    }
}

/// `spl_token::instruction::initialize_account`. It refuses every program
/// but the token program with the status for an incorrect program id. For
/// the token program it names the new account as writable, then the mint,
/// the owner and the rent parameters as read-only, none of them a signer,
/// and encodes the tag 1.
#[verifier::external_body]
pub(crate) fn initialize_account(
    token_program: &Address,
    account: &Address,
    mint: &Address,
    owner: &Address,
) -> (built: Result<Instruction, u64>)
    ensures
        match built {
            Ok(instruction) => token_program@ == token_program_id()
                && instruction@ == initialize_account_instruction(token_program@, account@, mint@, owner@),
            Err(status) => token_program@ != token_program_id() && status == INCORRECT_PROGRAM_ID,
        },
{
    match spl_token::instruction::initialize_account(&token_program.bytes.into(), &account.bytes.into(), &mint.bytes.into(), &owner.bytes.into()) {
        Ok(ix) => {
            let metas = ix.accounts.iter().map(|m| AccountMeta::from_parts(m.pubkey.to_bytes(), m.is_signer, m.is_writable));
            Ok(Instruction::from_parts(ix.program_id.to_bytes(), metas.collect(), ix.data))
        },
        Err(error) => Err(error.into()),
    }
}

/// `spl_token::instruction::set_authority`, called with a new authority
/// and without multisignature signers. It refuses every program but the
/// token program with the status for an incorrect program id. For the
/// token program it names the account as writable and the present holder
/// as the one signer, and encodes the tag 6, the authority's own tag, the
/// byte 1 for a new authority that is present, and that authority.
#[verifier::external_body]
pub(crate) fn set_authority(
    token_program: &Address,
    account: &Address,
    new_authority: &Address,
    authority_type: AuthorityType,
    owner: &Address,
) -> (built: Result<Instruction, u64>)
    ensures
        match built {
            Ok(instruction) => token_program@ == token_program_id()
                && instruction@ == set_authority_instruction(token_program@, account@, new_authority@, authority_type, owner@),
            Err(status) => token_program@ != token_program_id() && status == INCORRECT_PROGRAM_ID,
        },
{
    let kind = match authority_type {
        AuthorityType::MintTokens => spl_token::instruction::AuthorityType::MintTokens,
        AuthorityType::FreezeAccount => spl_token::instruction::AuthorityType::FreezeAccount,
        AuthorityType::AccountOwner => spl_token::instruction::AuthorityType::AccountOwner,
        AuthorityType::CloseAccount => spl_token::instruction::AuthorityType::CloseAccount,
    };
    match spl_token::instruction::set_authority(&token_program.bytes.into(), &account.bytes.into(), Some(&new_authority.bytes.into()), kind, &owner.bytes.into(), &[]) {
        Ok(ix) => {
            let metas = ix.accounts.iter().map(|m| AccountMeta::from_parts(m.pubkey.to_bytes(), m.is_signer, m.is_writable));
            Ok(Instruction::from_parts(ix.program_id.to_bytes(), metas.collect(), ix.data))
        },
        Err(error) => Err(error.into()),
    }
}

/// `spl_token::instruction::close_account`, called without multisignature
/// signers. It refuses every program but the token program with the
/// status for an incorrect program id. For the token program it names the
/// account and the destination as writable and the owner as the one
/// signer, and encodes the tag 9.
#[verifier::external_body]
pub(crate) fn close_account(
    token_program: &Address,
    account: &Address,
    destination: &Address,
    owner: &Address,
) -> (built: Result<Instruction, u64>)
    ensures
        match built {
            Ok(instruction) => token_program@ == token_program_id()
                && instruction@ == close_account_instruction(token_program@, account@, destination@, owner@),
            Err(status) => token_program@ != token_program_id() && status == INCORRECT_PROGRAM_ID,
        },
{
    match spl_token::instruction::close_account(&token_program.bytes.into(), &account.bytes.into(), &destination.bytes.into(), &owner.bytes.into(), &[]) {
        Ok(ix) => {
            let metas = ix.accounts.iter().map(|m| AccountMeta::from_parts(m.pubkey.to_bytes(), m.is_signer, m.is_writable));
            Ok(Instruction::from_parts(ix.program_id.to_bytes(), metas.collect(), ix.data))
        },
        Err(error) => Err(error.into()),
    }
}

} // verus!
