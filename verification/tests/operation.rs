use token_account_ops::{Action, Address, Error, Instruction, Invocation, OnFailure, Operation, Signer};

fn call(tag: u8, on_failure: OnFailure) -> Invocation<'static> {
    Invocation {
        instruction: Instruction { program_id: Address { bytes: [tag; 32] }, accounts: Vec::new(), data: vec![tag] },
        accounts: vec![Address { bytes: [tag; 32] }],
        signer: Signer::Direct,
        on_failure,
    }
}

#[test]
fn operation_without_calls_ends_with_its_conclusion() {
    assert_eq!(Operation::new(Ok(())).action(), Action::Finish(Ok(())));
    let mut failing = Operation::new(Err(Error::CloseAccountFailed));
    assert_eq!(failing.action(), Action::Finish(Err(Error::CloseAccountFailed)));
    failing.advance(Ok(()));
    assert_eq!(failing.action(), Action::Finish(Err(Error::CloseAccountFailed)));
    failing.advance(Err(3));
    assert_eq!(failing.action(), Action::Finish(Err(Error::CloseAccountFailed)));
}

#[test]
fn operation_asks_for_its_calls_in_order() {
    let mut operation = Operation::new(Ok(()));
    operation.push(call(1, OnFailure::Propagate));
    operation.push(call(2, OnFailure::Propagate));
    operation.push(call(3, OnFailure::Propagate));
    for tag in 1..=3 {
        assert_eq!(operation.action(), Action::Invoke(&call(tag, OnFailure::Propagate)));
        assert_eq!(operation.action(), Action::Invoke(&call(tag, OnFailure::Propagate)));
        operation.advance(Ok(()));
    }
    assert_eq!(operation.action(), Action::Finish(Ok(())));
    operation.advance(Err(9));
    assert_eq!(operation.action(), Action::Finish(Ok(())));
}

#[test]
fn operation_ends_with_the_first_failure() {
    let mut operation = Operation::new(Ok(()));
    operation.push(call(1, OnFailure::Propagate));
    operation.push(call(2, OnFailure::Report(Error::TokenMintFailed)));
    operation.push(call(3, OnFailure::Propagate));
    operation.advance(Ok(()));
    operation.advance(Err(12));
    assert_eq!(operation.action(), Action::Finish(Err(Error::TokenMintFailed)));
    operation.advance(Err(13));
    assert_eq!(operation.action(), Action::Finish(Err(Error::TokenMintFailed)));
}

#[test]
fn operation_concludes_with_the_result_it_was_given() {
    let mut operation = Operation::new(Ok(()));
    operation.push(call(1, OnFailure::Propagate));
    operation.conclude(Err(Error::Unmapped { status: 5 }));
    assert_eq!(operation.action(), Action::Invoke(&call(1, OnFailure::Propagate)));
    operation.advance(Ok(()));
    assert_eq!(operation.action(), Action::Finish(Err(Error::Unmapped { status: 5 })));
}

#[test]
fn failure_is_reported_by_the_rule_of_the_call() {
    assert_eq!(OnFailure::Propagate.report(0), Error::Unmapped { status: 0 });
    assert_eq!(OnFailure::Propagate.report(u64::MAX), Error::Unmapped { status: u64::MAX });
    assert_eq!(OnFailure::Report(Error::TokenTransferFailed).report(7), Error::TokenTransferFailed);
    assert_eq!(OnFailure::Report(Error::Unmapped { status: 1 }).report(7), Error::Unmapped { status: 1 });
}
