use vstd::prelude::*;
use crate::address::Address;
use crate::error::{Error, OnFailure};
use crate::instruction::{Instruction, InstructionView};

verus! {

/// On whose word a delegated call is made.
#[derive(Clone, Copy, Debug, PartialEq, Eq)]
pub enum Signer<'a> {
    /// The accounts that signed the transaction vouch for the call.
    Direct,
    /// The calling program vouches for the address that `seeds` derive.
    Derived { seeds: &'a [&'a [u8]] },
}

/// A [`Signer`] as a mathematical value.
pub enum SignerView {
    Direct,
    Derived { seeds: Seq<Seq<u8>> },
}

impl View for Signer<'_> {
    type V = SignerView;

    open spec fn view(&self) -> SignerView {
        match self {
            Signer::Direct => SignerView::Direct,
            Signer::Derived { seeds } => SignerView::Derived { seeds: seeds.deep_view() },
        }
    }
}

/// One call into another program: what to send, which accounts to hand
/// over and in what order, who vouches for it, and how to report it if
/// the callee refuses.
#[derive(Debug, PartialEq, Eq)]
pub struct Invocation<'a> {
    pub instruction: Instruction,
    pub accounts: Vec<Address>,
    pub signer: Signer<'a>,
    pub on_failure: OnFailure,
}

/// An [`Invocation`] as a mathematical value.
pub struct InvocationView {
    pub instruction: InstructionView,
    pub accounts: Seq<Seq<u8>>,
    pub signer: SignerView,
    pub on_failure: OnFailure,
}

impl View for Invocation<'_> {
    type V = InvocationView;

    open spec fn view(&self) -> InvocationView {
        InvocationView {
            instruction: self.instruction@,
            accounts: self.accounts@.map_values(|address: Address| address@),
            signer: self.signer@,
            on_failure: self.on_failure,
        }
    }
}

/// What the host has to do next for an operation.
#[derive(Debug, PartialEq, Eq)]
pub enum Action<'s, 'a> {
    /// Make this call and hand back how it ended.
    Invoke(&'s Invocation<'a>),
    /// Nothing is left to do: the operation ended with this result.
    Finish(Result<(), Error>),
}

/// An [`Action`] as a mathematical value.
pub enum ActionView {
    Invoke(InvocationView),
    Finish(Result<(), Error>),
}

impl View for Action<'_, '_> {
    type V = ActionView;

    open spec fn view(&self) -> ActionView {
        match self {
            Action::Invoke(invocation) => ActionView::Invoke(invocation@),
            Action::Finish(result) => ActionView::Finish(*result),
        }
    }
}

/// An [`Operation`] as a mathematical value: the calls it consists of,
/// the result it ends with once all of them have succeeded, how many have
/// succeeded, and the error with which it failed, if it has.
pub struct OperationView {
    pub steps: Seq<InvocationView>,
    pub conclusion: Result<(), Error>,
    pub completed: nat,
    pub failure: Option<Error>,
}

impl OperationView {
    /// An operation of which nothing has been done yet.
    pub open spec fn fresh(steps: Seq<InvocationView>, conclusion: Result<(), Error>) -> OperationView {
        OperationView { steps, conclusion, completed: 0, failure: None }
    }

    /// What the host has to do next: the first call that has not been
    /// made, as long as none has failed; else nothing.
    pub open spec fn action(self) -> ActionView {
        match self.failure {
            Some(error) => ActionView::Finish(Err(error)),
            None => if self.completed < self.steps.len() {
                ActionView::Invoke(self.steps[self.completed as int])
            } else {
                ActionView::Finish(self.conclusion)
            },
        }
    }

    /// The operation after the call it was waiting for has ended with
    /// `outcome`. A success moves it on to the next call. A failure ends
    /// it, with the error that the failed call reports for the status. An
    /// operation that waits for no call stays as it is.
    pub open spec fn advance(self, outcome: Result<(), u64>) -> OperationView {
        match self.action() {
            ActionView::Finish(_) => self,
            ActionView::Invoke(invocation) => match outcome {
                Ok(_) => OperationView { completed: self.completed + 1, ..self },
                Err(status) => OperationView { failure: Some(invocation.on_failure.reported(status)), ..self },
            },
        }
    }

    /// The operation after the calls it asked for have ended with
    /// `outcomes`, in this order.
    pub open spec fn run(self, outcomes: Seq<Result<(), u64>>) -> OperationView
        decreases outcomes.len(),
    {
        if outcomes.len() == 0 {
            self
        } else {
            self.advance(outcomes[0]).run(outcomes.skip(1))
        }
    }
}

/// `count` calls that succeeded.
pub open spec fn successes(count: nat) -> Seq<Result<(), u64>> {
    Seq::new(count, |i: int| Ok::<(), u64>(()))
}

/// An operation that has finished stays as it is, whatever is reported to
/// it: its result no longer changes and it asks for no further call.
pub proof fn lemma_finished_is_final(operation: OperationView, outcomes: Seq<Result<(), u64>>)
    requires
        operation.action() is Finish,
    ensures
        operation.run(outcomes) == operation,
    decreases outcomes.len(),
{
    if outcomes.len() > 0 {
        lemma_finished_is_final(operation, outcomes.skip(1));
    }
}

/// A call that fails ends the operation: the next action is to finish
/// with the error that the failed call reports for the status, and no
/// later call of the operation is asked for.
pub proof fn lemma_failure_ends_operation(operation: OperationView, status: u64, later: Seq<Result<(), u64>>)
    requires
        operation.action() is Invoke,
    ensures
        operation.advance(Err(status)).run(later).action() == ActionView::Finish(
            Err(operation.action()->Invoke_0.on_failure.reported(status)),
        ),
{
    lemma_finished_is_final(operation.advance(Err(status)), later);
}

/// Outcomes reported one run after the other are outcomes reported in
/// one run.
pub proof fn lemma_run_in_parts(
    operation: OperationView,
    first: Seq<Result<(), u64>>,
    second: Seq<Result<(), u64>>,
)
    ensures
        operation.run(first + second) == operation.run(first).run(second),
    decreases first.len(),
{
    if first.len() == 0 {
        assert(first + second =~= second);
    } else {
        assert((first + second).skip(1) =~= first.skip(1) + second);
        lemma_run_in_parts(operation.advance(first[0]), first.skip(1), second);
    }
}

/// While calls succeed, the operation asks for its calls in their order:
/// after `count` successes it has completed `count` calls more and has
/// not failed.
pub proof fn lemma_successes_move_on(operation: OperationView, count: nat)
    requires
        operation.failure is None,
        operation.completed + count <= operation.steps.len(),
    ensures
        operation.run(successes(count)) == (OperationView {
            completed: operation.completed + count,
            ..operation
        }),
    decreases count,
{
    if count > 0 {
        assert(successes(count).skip(1) =~= successes((count - 1) as nat));
        lemma_successes_move_on(operation.advance(Ok(())), (count - 1) as nat);
    }
}

/// An operation all of whose calls succeed makes each of them once, in
/// their order, and ends with its conclusion.
pub proof fn lemma_all_calls_succeed(steps: Seq<InvocationView>, conclusion: Result<(), Error>, made: nat)
    requires
        made <= steps.len(),
    ensures
        OperationView::fresh(steps, conclusion).run(successes(made)).action() == if made < steps.len() {
            ActionView::Invoke(steps[made as int])
        } else {
            ActionView::Finish(conclusion)
        },
{
    lemma_successes_move_on(OperationView::fresh(steps, conclusion), made);
}

/// An operation whose call number `made` fails after the calls before it
/// have succeeded ends with the error that this call reports, whatever
/// is reported to it afterwards.
pub proof fn lemma_first_failure_decides(
    steps: Seq<InvocationView>,
    conclusion: Result<(), Error>,
    made: nat,
    status: u64,
    later: Seq<Result<(), u64>>,
)
    requires
        made < steps.len(),
    ensures
        OperationView::fresh(steps, conclusion).run(successes(made).push(Err(status)) + later).action()
            == ActionView::Finish(Err(steps[made as int].on_failure.reported(status))),
{
    let fresh = OperationView::fresh(steps, conclusion);
    let failed: Seq<Result<(), u64>> = seq![Err(status)];
    assert(successes(made).push(Err(status)) + later =~= successes(made) + (failed + later));
    lemma_run_in_parts(fresh, successes(made), failed + later);
    lemma_successes_move_on(fresh, made);
    let waiting = fresh.run(successes(made));
    assert((failed + later).skip(1) =~= later);
    assert(waiting.run(failed + later) == waiting.advance(Err(status)).run(later));
    lemma_failure_ends_operation(waiting, status, later);
}

/// A sequence of delegated calls that the host makes one after the other,
/// and the rule by which their outcomes become the operation's result.
///
/// The library decides; the host acts. The host asks for the next
/// [`Action`], makes the call it names, and reports the outcome with
/// [`advance`](Operation::advance), until the action is to finish.
#[derive(Debug, PartialEq, Eq)]
pub struct Operation<'a> {
    steps: Vec<Invocation<'a>>,
    conclusion: Result<(), Error>,
    completed: usize,
    failure: Option<Error>,
}

impl<'a> View for Operation<'a> {
    type V = OperationView;

    closed spec fn view(&self) -> OperationView {
        OperationView {
            steps: self.steps@.map_values(|invocation: Invocation<'a>| invocation@),
            conclusion: self.conclusion,
            completed: self.completed as nat,
            failure: self.failure,
        }
    }
}

impl<'a> Operation<'a> {
    /// An operation without calls, which ends with `conclusion`.
    pub fn new(conclusion: Result<(), Error>) -> (operation: Operation<'a>)
        ensures
            operation@ == OperationView::fresh(Seq::empty(), conclusion),
    {
        let operation = Operation { steps: Vec::new(), conclusion, completed: 0, failure: None };
        assert(operation@.steps =~= Seq::empty());
        operation
    }

    /// Appends one call to an operation.
    pub fn push(&mut self, invocation: Invocation<'a>)
        ensures
            final(self)@ == (OperationView { steps: old(self)@.steps.push(invocation@), ..old(self)@ }),
    {
        self.steps.push(invocation);
        assert(self@.steps =~= old(self)@.steps.push(invocation@));
    }

    /// Sets the result with which the operation ends once every call has
    /// succeeded.
    pub fn conclude(&mut self, conclusion: Result<(), Error>)
        ensures
            final(self)@ == (OperationView { conclusion, ..old(self)@ }),
    {
        self.conclusion = conclusion;
    }

    /// What the host has to do next.
    pub fn action(&self) -> (action: Action<'_, 'a>)
        ensures
            action@ == self@.action(),
    {
        match self.failure {
            Some(error) => Action::Finish(Err(error)),
            None => if self.completed < self.steps.len() {
                Action::Invoke(&self.steps[self.completed])
            } else {
                Action::Finish(self.conclusion)
            },
        }
    }

    /// Takes note of how the call that [`action`](Operation::action)
    /// named has ended.
    pub fn advance(&mut self, outcome: Result<(), u64>)
        ensures
            final(self)@ == old(self)@.advance(outcome),
    {
        if self.failure.is_none() && self.completed < self.steps.len() {
            match outcome {
                Ok(_) => {
                    self.completed = self.completed + 1;
                },
                Err(status) => {
                    self.failure = Some(self.steps[self.completed].on_failure.report(status));
                },
            }
        }
    }
}

} // verus!
