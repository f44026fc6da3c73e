use vstd::prelude::*;
use crate::account::Account;
use crate::error::Error;

verus! {

/// The marker that a closed account carries at the start of its data.
/// Whoever decodes account data takes an account that begins with it for
/// one that is gone for good.
pub open spec fn closed_account_discriminator() -> Seq<u8> {
    seq![255u8, 255, 255, 255, 255, 255, 255, 255]
}

/// `data` with the marker written over its start. A buffer that is
/// shorter than the marker takes as much of the marker as it can hold.
pub open spec fn stamped(data: Seq<u8>) -> Seq<u8> {
    Seq::new(
        data.len(),
        |i: int|
            if i < closed_account_discriminator().len() {
                closed_account_discriminator()[i]
            } else {
                data[i]
            },
    )
}

/// `anchor_lang::__private::CLOSED_ACCOUNT_DISCRIMINATOR`: eight bytes,
/// each of them 255.
#[verifier::external_body]
fn discriminator() -> (marker: [u8; 8])
    ensures
        marker@ == closed_account_discriminator(),
{
    anchor_lang::__private::CLOSED_ACCOUNT_DISCRIMINATOR
}

/// Retires an account of the calling program for good: its whole balance
/// goes to `sol_destination`, and its data is marked as closed.
///
/// The balance is moved and the marker is written even where the marker
/// does not fit: the data then holds the part of it that did, and the
/// call fails with [`Error::AccountDidNotSerialize`]. A balance that the
/// destination cannot hold is not a case of this function: the caller
/// rules it out. Whether the transaction may write to either account is
/// not asked here; the runtime holds the transaction as a whole to that.
pub fn close(info: &mut Account, sol_destination: &mut Account) -> (result: Result<(), Error>)
    requires
        old(sol_destination).lamports + old(info).lamports <= u64::MAX,
    ensures
        final(sol_destination).lamports == old(sol_destination).lamports + old(info).lamports,
        final(info).lamports == 0,
        final(info).data@ == stamped(old(info).data@),
        result == if old(info).data@.len() >= closed_account_discriminator().len() {
            Ok::<(), Error>(())
        } else {
            Err::<(), Error>(Error::AccountDidNotSerialize)
        },
        final(info).key == old(info).key,
        final(info).owner == old(info).owner,
        final(info).is_writable == old(info).is_writable,
        final(sol_destination).key == old(sol_destination).key,
        final(sol_destination).owner == old(sol_destination).owner,
        final(sol_destination).is_writable == old(sol_destination).is_writable,
        final(sol_destination).data == old(sol_destination).data,
{
    sol_destination.lamports = sol_destination.lamports.checked_add(info.lamports).unwrap();
    info.lamports = 0;

    let marker = discriminator();
    let ghost before = info.data@;
    let mut written: usize = 0;
    while written < 8 && written < info.data.len()
        invariant
            written <= 8,
            written <= info.data@.len(),
            marker@ == closed_account_discriminator(),
            info.data@.len() == before.len(),
            forall|i: int| 0 <= i < written ==> info.data@[i] == closed_account_discriminator()[i],
            forall|i: int| written <= i < before.len() ==> info.data@[i] == before[i],
            info.lamports == 0,
            info.key == old(info).key,
            info.owner == old(info).owner,
            info.is_writable == old(info).is_writable,
        decreases 8 - written,
    {
        info.data.set(written, marker[written]);
        written = written + 1;
    }
    assert(info.data@ =~= stamped(before));
    if written < 8 {
        Err(Error::AccountDidNotSerialize)
    } else {
        Ok(())
    }
}

} // verus!
