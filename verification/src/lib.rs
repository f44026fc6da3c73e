//! Token and account operations for an on-chain program.
//!
//! The library decides what is asked of the token program and of the
//! system program, and what each answer means; it makes no call itself.
//! An operation is planned as an [`Operation`]: the host makes the calls
//! it names, one after the other, and reports how each ended.

pub mod account;
pub mod address;
pub mod close;
pub mod error;
pub mod instruction;
pub mod operation;
pub mod pda;
pub mod system_program;
pub mod token;
pub mod token_program;

pub use account::Account;
pub use address::Address;
pub use close::close;
pub use error::{Error, OnFailure, INCORRECT_PROGRAM_ID};
pub use instruction::{AccountMeta, Instruction};
pub use operation::{Action, Invocation, Operation, Signer};
pub use pda::{create_pda_account, required_lamports};
pub use token::{
    spl_close_account, spl_init_token_account, spl_set_authority, spl_token_mint, spl_token_transfer,
    CloseAccountParams, InitializeTokenAccountParams, SetAuthorityParams, TokenMintParams, TokenTransferParams,
};
pub use token_program::{AuthorityType, TOKEN_ACCOUNT_LEN};
