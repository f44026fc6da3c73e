use vstd::prelude::*;

verus! {

/// The status with which the call layer rejects an instruction that is
/// addressed to a program other than the one it was built for.
pub const INCORRECT_PROGRAM_ID: u64 = 0x7_0000_0000;

/// Why an operation failed.
///
/// Every failure of a delegated call is reported under the one kind that
/// belongs to the operation, whatever its cause was. Failures of account
/// creation and of instruction construction have no kind of their own and
/// keep the status that the call layer gave them.
#[derive(Clone, Copy, Debug, PartialEq, Eq, Structural)]
pub enum Error {
    /// The token program rejected a transfer.
    TokenTransferFailed,
    /// The token program rejected a mint.
    TokenMintFailed,
    /// The token program rejected the initialization of an account that
    /// had already been allocated.
    InitializeTokenAccountFailed,
    /// The token program rejected a change of authority.
    SetAccountAuthorityFailed,
    /// The token program rejected the closing of a token account.
    CloseAccountFailed,
    /// The closed-account marker did not fit into the account's data.
    AccountDidNotSerialize,
    /// A status of the call layer, handed on unchanged.
    Unmapped { status: u64 },
}

/// How the failure of one delegated call is reported.
#[derive(Clone, Copy, Debug, PartialEq, Eq, Structural)]
pub enum OnFailure {
    /// Hand the status on as it came.
    Propagate,
    /// Report this error, whatever the status was.
    Report(Error),
}

impl OnFailure {
    /// The error under which a call that failed with `status` is reported.
    pub open spec fn reported(self, status: u64) -> Error {
        match self {
            OnFailure::Propagate => Error::Unmapped { status },
            OnFailure::Report(error) => error,
        }
    }

    /// The error under which a call that failed with `status` is reported.
    pub fn report(&self, status: u64) -> (error: Error)
        ensures
            error == self.reported(status),
    {
        match self {
            OnFailure::Propagate => Error::Unmapped { status },
            OnFailure::Report(error) => *error,
        }
    }
}

} // verus!
