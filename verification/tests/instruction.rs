use token_account_ops::{AccountMeta, Address, Instruction};

#[test]
fn account_meta_is_made_of_its_parts() {
    assert_eq!(
        AccountMeta::from_parts([4; 32], true, false),
        AccountMeta { pubkey: Address { bytes: [4; 32] }, is_signer: true, is_writable: false }
    );
}

#[test]
fn instruction_is_made_of_its_parts() {
    let accounts = vec![AccountMeta::from_parts([4; 32], false, true)];
    assert_eq!(
        Instruction::from_parts([5; 32], accounts, vec![1, 2, 3]),
        Instruction {
            program_id: Address { bytes: [5; 32] },
            accounts: vec![AccountMeta { pubkey: Address { bytes: [4; 32] }, is_signer: false, is_writable: true }],
            data: vec![1, 2, 3],
        }
    );
}
