use vstd::prelude::*;
use crate::address::Address;
use crate::instruction::{le_bytes, writable, AccountMeta, Instruction, InstructionView};

verus! {

/// The address of the system program: thirty-two zero bytes.
pub open spec fn system_program_id() -> Seq<u8> {
    Seq::new(32, |i: int| 0u8)
}

/// The address of the system program, as a value.
pub fn system_program_address() -> (address: Address)
    ensures
        address@ == system_program_id(),
{
    let address = Address { bytes: [0; 32] };
    assert(address@ =~= system_program_id());
    address
}

/// The instruction that asks the system program to move `lamports` from
/// `from`, which signs, to `to`.
pub open spec fn transfer_instruction(from: Seq<u8>, to: Seq<u8>, lamports: u64) -> InstructionView {
    InstructionView {
        program_id: system_program_id(),
        accounts: seq![writable(from, true), writable(to, false)],
        data: seq![2u8, 0, 0, 0] + le_bytes(lamports),
    }
}

/// The instruction that asks the system program to give `account`, which
/// signs, a data buffer of `space` bytes.
pub open spec fn allocate_instruction(account: Seq<u8>, space: u64) -> InstructionView {
    InstructionView {
        program_id: system_program_id(),
        accounts: seq![writable(account, true)],
        data: seq![8u8, 0, 0, 0] + le_bytes(space),
    }
}

/// The instruction that asks the system program to hand `account`, which
/// signs, over to the program `owner`.
pub open spec fn assign_instruction(account: Seq<u8>, owner: Seq<u8>) -> InstructionView {
    InstructionView {
        program_id: system_program_id(),
        accounts: seq![writable(account, true)],
        data: seq![1u8, 0, 0, 0] + owner,
    }
}

/// The instruction that asks the system program to create `to` in one
/// step: funded with `lamports` out of `from`, with a data buffer of
/// `space` bytes, and handed over to the program `owner`. Both accounts
/// sign.
pub open spec fn create_account_instruction(
    from: Seq<u8>,
    to: Seq<u8>,
    lamports: u64,
    space: u64,
    owner: Seq<u8>,
) -> InstructionView {
    InstructionView {
        program_id: system_program_id(),
        accounts: seq![writable(from, true), writable(to, true)],
        data: seq![0u8, 0, 0, 0] + le_bytes(lamports) + le_bytes(space) + owner,
    }
}

/// `system_instruction::transfer`. It addresses the system program, names
/// the payer as a writable signer and the receiver as writable, and
/// encodes the variant's index 2 in four bytes followed by the amount.
#[verifier::external_body]
pub(crate) fn transfer(from: &Address, to: &Address, lamports: u64) -> (instruction: Instruction)
    ensures
        instruction@ == transfer_instruction(from@, to@, lamports),
{
    let ix = anchor_lang::solana_program::system_instruction::transfer(&from.bytes.into(), &to.bytes.into(), lamports);
    let metas = ix.accounts.iter().map(|m| AccountMeta::from_parts(m.pubkey.to_bytes(), m.is_signer, m.is_writable));
    Instruction::from_parts(ix.program_id.to_bytes(), metas.collect(), ix.data)
}

/// `system_instruction::allocate`. It addresses the system program, names
/// the account as a writable signer, and encodes the variant's index 8 in
/// four bytes followed by the size.
#[verifier::external_body]
pub(crate) fn allocate(account: &Address, space: u64) -> (instruction: Instruction)
    ensures
        instruction@ == allocate_instruction(account@, space),
{
    let ix = anchor_lang::solana_program::system_instruction::allocate(&account.bytes.into(), space);
    let metas = ix.accounts.iter().map(|m| AccountMeta::from_parts(m.pubkey.to_bytes(), m.is_signer, m.is_writable));
    Instruction::from_parts(ix.program_id.to_bytes(), metas.collect(), ix.data)
}

/// `system_instruction::assign`. It addresses the system program, names
/// the account as a writable signer, and encodes the variant's index 1 in
/// four bytes followed by the new owner.
#[verifier::external_body]
pub(crate) fn assign(account: &Address, owner: &Address) -> (instruction: Instruction)
    ensures
        instruction@ == assign_instruction(account@, owner@),
{
    let ix = anchor_lang::solana_program::system_instruction::assign(&account.bytes.into(), &owner.bytes.into());
    let metas = ix.accounts.iter().map(|m| AccountMeta::from_parts(m.pubkey.to_bytes(), m.is_signer, m.is_writable));
    Instruction::from_parts(ix.program_id.to_bytes(), metas.collect(), ix.data)
}

/// `system_instruction::create_account`. It addresses the system program,
/// names the payer and the new account as writable signers, and encodes
/// the variant's index 0 in four bytes followed by the funding, the size
/// and the owner.
#[verifier::external_body]
pub(crate) fn create_account(
    from: &Address,
    to: &Address,
    lamports: u64,
    space: u64,
    owner: &Address,
) -> (instruction: Instruction)
    ensures
        instruction@ == create_account_instruction(from@, to@, lamports, space, owner@),
{
    let ix = anchor_lang::solana_program::system_instruction::create_account(
        &from.bytes.into(),
        &to.bytes.into(),
        lamports,
        space,
        &owner.bytes.into(),
    );
    let metas = ix.accounts.iter().map(|m| AccountMeta::from_parts(m.pubkey.to_bytes(), m.is_signer, m.is_writable));
    Instruction::from_parts(ix.program_id.to_bytes(), metas.collect(), ix.data)
}

} // verus!
