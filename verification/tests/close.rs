use token_account_ops::{close, Account, Address, Error};

fn account(tag: u8, lamports: u64, data: Vec<u8>) -> Account {
    Account { key: Address { bytes: [tag; 32] }, lamports, data, owner: Address { bytes: [9; 32] }, is_writable: tag % 2 == 1 }
}

#[test]
fn close_sweeps_balance_and_stamps_marker() {
    let mut info = account(1, 700, vec![1, 2, 3, 4, 5, 6, 7, 8, 9, 10]);
    let mut destination = account(2, 300, vec![42]);
    assert_eq!(close(&mut info, &mut destination), Ok(()));
    assert_eq!(destination, account(2, 1000, vec![42]));
    assert_eq!(info, account(1, 0, vec![255, 255, 255, 255, 255, 255, 255, 255, 9, 10]));
}

#[test]
fn close_of_a_buffer_as_long_as_the_marker() {
    let mut info = account(1, 1, vec![0; 8]);
    let mut destination = account(2, 0, Vec::new());
    assert_eq!(close(&mut info, &mut destination), Ok(()));
    assert_eq!(info.data, vec![255; 8]);
    assert_eq!(destination.lamports, 1);
    assert_eq!(info.lamports, 0);
}

#[test]
fn close_reports_a_buffer_too_short_for_the_marker() {
    let mut info = account(1, 5, vec![1, 2, 3]);
    let mut destination = account(2, 0, vec![]);
    assert_eq!(close(&mut info, &mut destination), Err(Error::AccountDidNotSerialize));
    assert_eq!(destination.lamports, 5);
    assert_eq!(info.lamports, 0);
    assert_eq!(info.data, vec![255, 255, 255]);
}

#[test]
fn close_reports_a_buffer_one_byte_short() {
    let mut info = account(1, 5, vec![7; 7]);
    let mut destination = account(2, 1, vec![]);
    assert_eq!(close(&mut info, &mut destination), Err(Error::AccountDidNotSerialize));
    assert_eq!(info.data, vec![255; 7]);
    assert_eq!(destination.lamports, 6);
}

#[test]
fn close_reports_an_empty_buffer() {
    let mut info = account(1, 0, Vec::new());
    let mut destination = account(2, 12, vec![1, 2]);
    assert_eq!(close(&mut info, &mut destination), Err(Error::AccountDidNotSerialize));
    assert_eq!(info, account(1, 0, Vec::new()));
    assert_eq!(destination, account(2, 12, vec![1, 2]));
}

#[test]
fn close_fills_the_destination_to_the_brim() {
    let mut info = account(1, 1, vec![0; 16]);
    let mut destination = account(2, u64::MAX - 1, Vec::new());
    assert_eq!(close(&mut info, &mut destination), Ok(()));
    assert_eq!(destination.lamports, u64::MAX);
    assert_eq!(info.lamports, 0);
}

#[test]
fn closed_account_marker_is_the_one_that_decoders_know() {
    let mut info = account(1, 0, vec![0; 8]);
    let mut destination = account(2, 0, Vec::new());
    assert_eq!(close(&mut info, &mut destination), Ok(()));
    assert_eq!(info.data, anchor_lang::__private::CLOSED_ACCOUNT_DISCRIMINATOR.to_vec());
}
