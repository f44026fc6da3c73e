use anchor_lang::solana_program::{system_program, sysvar};
use token_account_ops::system_program::system_program_address;
use token_account_ops::token_program::{rent_sysvar_address, token_program_address};
use token_account_ops::Address;

#[test]
fn token_program_address_is_the_one_the_token_crate_declares() {
    assert_eq!(token_program_address(), Address { bytes: spl_token::id().to_bytes() });
    assert_eq!(spl_token::id().to_string(), "TokenkegQfeZyiNwAJbNbGKPFXCWuBvf9Ss623VQ5DA");
}

#[test]
fn rent_sysvar_address_is_the_one_the_runtime_declares() {
    assert_eq!(rent_sysvar_address(), Address { bytes: sysvar::rent::id().to_bytes() });
}

#[test]
fn system_program_address_is_all_zero() {
    assert_eq!(system_program_address(), Address { bytes: [0; 32] });
    assert_eq!(system_program_address(), Address { bytes: system_program::id().to_bytes() });
}
