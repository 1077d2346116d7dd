//! Scopes that leave no I/O behind.
//!
//! A scope gathers the operations and waits that start inside of it. When the
//! work in the scope is done, or is given up, what is still going on is canceled,
//! and the scope is only left when all of it is over.

use vstd::prelude::*;

use crate::errors::PanicPayload;

verus! {

/// How far an operation got.
#[derive(Clone, Copy, Debug, PartialEq, Eq, Structural)]
pub enum IoStage {
    /// Not submitted yet.
    Idle,
    /// With the kernel.
    Submitted,
    /// Back from the kernel.
    Completed,
    /// Its result was read.
    Terminated,
}

impl IoStage {
    /// Whether the operation is not over.
    pub open spec fn incomplete(self) -> bool {
        self is Idle || self is Submitted
    }
}

/// An operation that a scope gathered.
#[derive(Clone, Copy, Debug, PartialEq, Eq, Structural)]
pub struct ScopedIo {
    /// Its number.
    pub id: u64,
    /// How far it got.
    pub stage: IoStage,
}

/// What a scope gathered.
#[derive(Debug)]
pub struct IoScopeCompletions {
    /// The operations.
    pub completions: Vec<ScopedIo>,
    /// The numbers of the waits.
    pub waits: Vec<u64>,
}

impl Default for IoScopeCompletions {
    fn default() -> (gathered: IoScopeCompletions)
        ensures
            gathered.completions@ == Seq::<ScopedIo>::empty(),
            gathered.waits@ == Seq::<u64>::empty(),
    {
        IoScopeCompletions { completions: Vec::new(), waits: Vec::new() }
    }
}

/// Those of some operations that are with the kernel.
pub open spec fn submitted(operations: Seq<ScopedIo>) -> vstd::multiset::Multiset<ScopedIo> {
    operations.to_multiset().filter(|io: ScopedIo| io.stage is Submitted)
}

/// Those of some operations that are not over.
pub open spec fn incomplete(operations: Seq<ScopedIo>) -> vstd::multiset::Multiset<ScopedIo> {
    operations.to_multiset().filter(|io: ScopedIo| io.stage.incomplete())
}

/// Those of some operations that are over.
pub open spec fn complete(operations: Seq<ScopedIo>) -> vstd::multiset::Multiset<ScopedIo> {
    operations.to_multiset().filter(|io: ScopedIo| !io.stage.incomplete())
}

/// Taking an element out of a sequence takes it out of its elements.
proof fn swap_remove_takes_one(operations: Seq<ScopedIo>, index: int)
    requires
        0 <= index < operations.len(),
    ensures
        operations.update(index, operations.last()).drop_last().to_multiset()
            == operations.to_multiset().remove(operations[index]),
{
    broadcast use vstd::seq_lib::group_to_multiset_ensures;

    let last = operations.len() - 1;
    assert(operations =~= operations.drop_last().push(operations.last()));
    if index == last {
        assert(operations.update(index, operations.last()).drop_last()
            =~= operations.drop_last());
        assert(operations.to_multiset() =~= operations.drop_last().to_multiset().insert(
            operations.last(),
        ));
        assert(operations.drop_last().to_multiset() =~= operations.to_multiset().remove(
            operations.last(),
        ));
    } else {
        let front = operations.drop_last();
        assert(operations.update(index, operations.last()).drop_last() =~= front.update(
            index,
            operations.last(),
        ));
        vstd::seq_lib::to_multiset_update(front, index, operations.last());
        assert(front.update(index, operations.last()).to_multiset() =~= front.to_multiset().remove(
            front[index],
        ).insert(operations.last()));
        assert(operations.to_multiset() =~= front.to_multiset().insert(operations.last()));
        assert(front.to_multiset().contains(front[index])) by {
            assert(front.contains(front[index]));
        }
        assert(operations.update(index, operations.last()).drop_last().to_multiset()
            =~= operations.to_multiset().remove(operations[index]));
    }
}

/// Keeps the operations that are not over, and gives back the others.
pub fn retain_incomplete(operations: &mut Vec<ScopedIo>) -> (returned: Vec<ScopedIo>)
    ensures
        final(operations)@.to_multiset() == incomplete(old(operations)@),
        returned@.to_multiset() == complete(old(operations)@),
        final(operations)@.len() + returned@.len() == old(operations)@.len(),
{
    broadcast use vstd::seq_lib::group_to_multiset_ensures;

    let mut returned: Vec<ScopedIo> = Vec::new();
    let mut index: usize = 0;
    assert(returned@.to_multiset() =~= vstd::multiset::Multiset::<ScopedIo>::empty());
    assert(operations@.to_multiset().add(returned@.to_multiset())
        =~= old(operations)@.to_multiset());
    while index < operations.len()
        invariant
            index <= operations@.len(),
            operations@.to_multiset().add(returned@.to_multiset())
                == old(operations)@.to_multiset(),
            operations@.len() + returned@.len() == old(operations)@.len(),
            forall|i: int| 0 <= i < index ==> (#[trigger] operations@[i]).stage.incomplete(),
            forall|i: int| 0 <= i < returned@.len() ==> !(#[trigger] returned@[i]).stage.incomplete(),
        decreases operations@.len() - index,
    {
        let retain = match operations[index].stage {
            IoStage::Idle => true,
            IoStage::Submitted => true,
            _ => false,
        };
        if !retain {
            let ghost before = operations@;
            let ghost given = returned@;
            let completion = operations.swap_remove(index);
            returned.push(completion);
            proof {
                broadcast use vstd::seq_lib::group_to_multiset_ensures;

                swap_remove_takes_one(before, index as int);
                assert(before.to_multiset().contains(before[index as int])) by {
                    assert(before.contains(before[index as int]));
                }
                assert(operations@.to_multiset().add(returned@.to_multiset())
                    =~= before.to_multiset().add(given.to_multiset()));
            }
        } else {
            index = index + 1;
        }
    }
    proof {
        assert forall|io: ScopedIo| #[trigger] operations@.to_multiset().count(io) == incomplete(
            old(operations)@,
        ).count(io) by {
            assert(old(operations)@.to_multiset().count(io) == operations@.to_multiset().count(io)
                + returned@.to_multiset().count(io));
            if operations@.to_multiset().count(io) > 0 {
                assert(operations@.contains(io));
            }
            if returned@.to_multiset().count(io) > 0 {
                assert(returned@.contains(io));
            }
        }
        assert(operations@.to_multiset() =~= incomplete(old(operations)@));
        assert forall|io: ScopedIo| #[trigger] returned@.to_multiset().count(io) == complete(
            old(operations)@,
        ).count(io) by {
            assert(old(operations)@.to_multiset().count(io) == operations@.to_multiset().count(io)
                + returned@.to_multiset().count(io));
            if operations@.to_multiset().count(io) > 0 {
                assert(operations@.contains(io));
            }
            if returned@.to_multiset().count(io) > 0 {
                assert(returned@.contains(io));
            }
        }
        assert(returned@.to_multiset() =~= complete(old(operations)@));
    }
    returned
}

/// What canceling a scope asks of the caller.
#[derive(Debug)]
pub struct Cancellation {
    /// The operations that the kernel has to be asked to cancel. They are over
    /// when it says so.
    pub remaining: Vec<ScopedIo>,
    /// The operations that were over already.
    pub finished: Vec<ScopedIo>,
    /// The operations that are over because they were canceled in time.
    pub withdrawn: Vec<ScopedIo>,
    /// The waits to cancel, whose tasks are to be woken.
    pub waits: Vec<u64>,
}

/// Those of some operations that were not submitted.
pub open spec fn withdrawn(operations: Seq<ScopedIo>) -> vstd::multiset::Multiset<ScopedIo> {
    operations.to_multiset().filter(|io: ScopedIo| io.stage is Idle)
}

/// Canceling tells the operations apart by whether they were submitted.
proof fn cancel_partition(operations: Seq<ScopedIo>, kept: Seq<ScopedIo>)
    requires
        kept.to_multiset() == incomplete(operations),
    ensures
        submitted(kept) == submitted(operations),
        withdrawn(kept) == withdrawn(operations),
{
    assert(submitted(kept) =~= submitted(operations));
    assert(withdrawn(kept) =~= withdrawn(operations));
}

/// Cancels all that a scope gathered. What was not submitted is over at once,
/// waits are canceled, and what is with the kernel remains.
pub fn begin_cancel(gathered: &mut IoScopeCompletions) -> (cancellation: Cancellation)
    ensures
        cancellation.remaining@.to_multiset() == submitted(old(gathered).completions@),
        cancellation.finished@.to_multiset() == complete(old(gathered).completions@),
        cancellation.withdrawn@.to_multiset() == withdrawn(old(gathered).completions@),
        cancellation.waits@ == old(gathered).waits@,
        final(gathered).completions@ == Seq::<ScopedIo>::empty(),
        final(gathered).waits@ == Seq::<u64>::empty(),
{
    broadcast use vstd::seq_lib::group_to_multiset_ensures;

    let mut operations: Vec<ScopedIo> = Vec::new();
    let mut waits: Vec<u64> = Vec::new();
    std::mem::swap(&mut operations, &mut gathered.completions);
    std::mem::swap(&mut waits, &mut gathered.waits);
    let finished = retain_incomplete(&mut operations);
    proof {
        cancel_partition(old(gathered).completions@, operations@);
    }
    let mut remaining: Vec<ScopedIo> = Vec::new();
    let mut withdrawn_now: Vec<ScopedIo> = Vec::new();
    let mut index: usize = 0;
    proof {
        assert(operations@.take(0) =~= Seq::<ScopedIo>::empty());
        assert(remaining@.to_multiset() =~= submitted(operations@.take(0)));
        assert(withdrawn_now@.to_multiset() =~= withdrawn(operations@.take(0)));
    }
    while index < operations.len()
        invariant
            index <= operations@.len(),
            remaining@.to_multiset() == submitted(operations@.take(index as int)),
            withdrawn_now@.to_multiset() == withdrawn(operations@.take(index as int)),
        decreases operations@.len() - index,
    {
        let io = operations[index];
        match io.stage {
            IoStage::Idle => {
                withdrawn_now.push(io);
            },
            IoStage::Submitted => {
                remaining.push(io);
            },
            _ => {},
        }
        proof {
            broadcast use vstd::seq_lib::group_to_multiset_ensures;

            assert(operations@.take(index + 1) =~= operations@.take(index as int).push(io));
            assert(remaining@.to_multiset() =~= submitted(operations@.take(index + 1)));
            assert(withdrawn_now@.to_multiset() =~= withdrawn(operations@.take(index + 1)));
        }
        index = index + 1;
    }
    assert(operations@.take(index as int) =~= operations@);
    Cancellation { remaining, finished, withdrawn: withdrawn_now, waits }
}

/// What polling a scope comes to.
#[derive(Debug)]
pub enum ScopePoll<R> {
    /// The scope is left with a value.
    Ready(R),
    /// The scope is left because its work panicked.
    Panic(PanicPayload),
    /// The task is to be woken, so that the ring makes progress, and the scope
    /// polled again.
    Drain,
}

/// What the work in a scope came to.
#[derive(Debug)]
pub enum ScopeOutcome<R> {
    /// It returned a value.
    Value(R),
    /// It panicked.
    Panic(PanicPayload),
}

impl<R> ScopeOutcome<R> {
    /// How the scope is left with the outcome.
    pub open spec fn leaves(self) -> ScopePoll<R> {
        match self {
            ScopeOutcome::Value(value) => ScopePoll::Ready(value),
            ScopeOutcome::Panic(payload) => ScopePoll::Panic(payload),
        }
    }
}

/// A scope: what it gathered while its work runs; then the outcome of the work
/// and the operations that are not over yet.
#[derive(Debug)]
pub struct IoScope<R> {
    scope: Option<IoScopeCompletions>,
    draining: Vec<ScopedIo>,
    outcome: Option<ScopeOutcome<R>>,
}

/// What a scope is up to.
pub struct IoScopeView<R> {
    /// What it gathered, unless the task has it.
    pub scope: Option<IoScopeCompletions>,
    /// The operations that are not over yet.
    pub draining: Seq<ScopedIo>,
    /// The outcome of its work.
    pub outcome: Option<ScopeOutcome<R>>,
}

impl<R> View for IoScope<R> {
    type V = IoScopeView<R>;

    closed spec fn view(&self) -> IoScopeView<R> {
        IoScopeView { scope: self.scope, draining: self.draining@, outcome: self.outcome }
    }
}

impl<R> IoScope<R> {
    /// A scope that gathered nothing yet.
    pub fn new() -> (scope: IoScope<R>)
        ensures
            scope@.scope is Some,
            scope@.scope->0.completions@ == Seq::<ScopedIo>::empty(),
            scope@.scope->0.waits@ == Seq::<u64>::empty(),
            scope@.draining == Seq::<ScopedIo>::empty(),
            scope@.outcome is None,
    {
        IoScope {
            scope: Some(IoScopeCompletions::default()),
            draining: Vec::new(),
            outcome: None,
        }
    }

    /// Whether the work is done and only I/O is waited for.
    pub fn is_draining(&self) -> (draining: bool)
        ensures
            draining == (self@.outcome is Some),
    {
        self.outcome.is_some()
    }

    /// Gives what was gathered to the task, before the work is polled.
    pub fn resume(&mut self) -> (scope: Option<IoScopeCompletions>)
        ensures
            scope == old(self)@.scope,
            final(self)@ == (IoScopeView { scope: None, ..old(self)@ }),
    {
        self.scope.take()
    }

    /// Takes back what was gathered, when the work waits.
    pub fn suspend(&mut self, scope: Option<IoScopeCompletions>)
        ensures
            final(self)@ == (IoScopeView { scope, ..old(self)@ }),
    {
        self.scope = scope;
    }

    /// Takes note of what the work came to. What is still going on is canceled;
    /// the scope is left at once when nothing remains with the kernel.
    pub fn finish(&mut self, outcome: ScopeOutcome<R>, gathered: IoScopeCompletions) -> (result: (
        ScopePoll<R>,
        Cancellation,
    ))
        requires
            old(self)@.outcome is None,
        ensures
            result.1.remaining@.to_multiset() == submitted(gathered.completions@),
            result.1.finished@.to_multiset() == complete(gathered.completions@),
            result.1.withdrawn@.to_multiset() == withdrawn(gathered.completions@),
            result.1.waits@ == gathered.waits@,
            if result.1.remaining@.len() == 0 {
                result.0 == outcome.leaves() && final(self)@ == old(self)@
            } else {
                &&& result.0 is Drain
                &&& final(self)@ == (IoScopeView {
                    outcome: Some(outcome),
                    draining: result.1.remaining@,
                    ..old(self)@
                })
            },
    {
        let mut gathered = gathered;
        let cancellation = begin_cancel(&mut gathered);
        if cancellation.remaining.len() == 0 {
            let poll = match outcome {
                ScopeOutcome::Value(value) => ScopePoll::Ready(value),
                ScopeOutcome::Panic(payload) => ScopePoll::Panic(payload),
            };
            return (poll, cancellation);
        }
        self.outcome = Some(outcome);
        self.draining = copy_of(&cancellation.remaining);
        (ScopePoll::Drain, cancellation)
    }

    /// Takes note that an operation is over.
    pub fn settle(&mut self, id: u64)
        ensures
            final(self)@.scope == old(self)@.scope,
            final(self)@.outcome == old(self)@.outcome,
            final(self)@.draining == old(self)@.draining.map_values(
                |io: ScopedIo|
                    if io.id == id {
                        ScopedIo { id, stage: IoStage::Completed }
                    } else {
                        io
                    },
            ),
    {
        let mut index: usize = 0;
        let ghost settled = |io: ScopedIo|
            if io.id == id {
                ScopedIo { id, stage: IoStage::Completed }
            } else {
                io
            };
        while index < self.draining.len()
            invariant
                index <= self.draining@.len(),
                self.draining@.len() == old(self).draining@.len(),
                self.scope == old(self).scope,
                self.outcome == old(self).outcome,
                forall|i: int|
                    0 <= i < index ==> #[trigger] self.draining@[i] == settled(
                        old(self).draining@[i],
                    ),
                forall|i: int|
                    index <= i < self.draining@.len() ==> #[trigger] self.draining@[i] == old(self).draining@[i],
                settled == (|io: ScopedIo|
                    if io.id == id {
                        ScopedIo { id, stage: IoStage::Completed }
                    } else {
                        io
                    }),
            decreases self.draining@.len() - index,
        {
            if self.draining[index].id == id {
                self.draining.set(index, ScopedIo { id, stage: IoStage::Completed });
            }
            index = index + 1;
        }
        assert(self.draining@ =~= old(self).draining@.map_values(settled));
    }

    /// Polls a scope whose work is done. It is left when all its I/O is over.
    pub fn drain(&mut self) -> (result: (ScopePoll<R>, Vec<ScopedIo>))
        requires
            old(self)@.outcome is Some,
        ensures
            final(self)@.draining.to_multiset() == incomplete(old(self)@.draining),
            result.1@.to_multiset() == complete(old(self)@.draining),
            final(self)@.scope == old(self)@.scope,
            if final(self)@.draining.len() == 0 {
                result.0 == old(self)@.outcome->0.leaves() && final(self)@.outcome is None
            } else {
                result.0 is Drain && final(self)@.outcome == old(self)@.outcome
            },
    {
        let returned = retain_incomplete(&mut self.draining);
        if self.draining.len() > 0 {
            return (ScopePoll::Drain, returned);
        }
        match self.outcome.take().unwrap() {
            ScopeOutcome::Value(value) => (ScopePoll::Ready(value), returned),
            ScopeOutcome::Panic(payload) => (ScopePoll::Panic(payload), returned),
        }
    }

    /// Cancels what a scope gathered whose work is given up.
    pub fn abandon(&mut self) -> (cancellation: Option<Cancellation>)
        ensures
            final(self)@.scope is None,
            final(self)@.outcome == old(self)@.outcome,
            match old(self)@.scope {
                Some(gathered) => if gathered.completions@.len() > 0 || gathered.waits@.len() > 0 {
                    &&& cancellation is Some
                    &&& cancellation->0.remaining@.to_multiset() == submitted(
                        gathered.completions@,
                    )
                    &&& cancellation->0.finished@.to_multiset() == complete(gathered.completions@)
                    &&& cancellation->0.withdrawn@.to_multiset() == withdrawn(
                        gathered.completions@,
                    )
                    &&& cancellation->0.waits@ == gathered.waits@
                    &&& final(self)@.draining == cancellation->0.remaining@
                } else {
                    cancellation is None && final(self)@.draining == old(self)@.draining
                },
                None => cancellation is None && final(self)@.draining == old(self)@.draining,
            },
    {
        match self.scope.take() {
            Some(gathered) => {
                if gathered.completions.len() == 0 && gathered.waits.len() == 0 {
                    return None;
                }
                let mut gathered = gathered;
                let cancellation = begin_cancel(&mut gathered);
                self.draining = copy_of(&cancellation.remaining);
                Some(cancellation)
            },
            None => None,
        }
    }

    /// Whether the thread has to block until more I/O is over, and what is over
    /// already.
    pub fn must_block(&mut self) -> (result: (bool, Vec<ScopedIo>))
        ensures
            final(self)@.draining.to_multiset() == incomplete(old(self)@.draining),
            result.1@.to_multiset() == complete(old(self)@.draining),
            result.0 == (final(self)@.draining.len() > 0),
            final(self)@.scope == old(self)@.scope,
            final(self)@.outcome == old(self)@.outcome,
    {
        let returned = retain_incomplete(&mut self.draining);
        (self.draining.len() > 0, returned)
    }

    /// Gives the panic to resume when a scope is dropped whose I/O is over, unless
    /// the thread is panicking already.
    pub fn leave(self, panicking: bool) -> (payload: Option<PanicPayload>)
        requires
            self@.draining.len() == 0,
        ensures
            payload == match self@.outcome {
                Some(ScopeOutcome::Panic(payload)) => if panicking {
                    None
                } else {
                    Some(payload)
                },
                _ => None,
            },
    {
        match self.outcome {
            Some(ScopeOutcome::Panic(payload)) => if panicking {
                None
            } else {
                Some(payload)
            },
            _ => None,
        }
    }
}

/// The same operations once more.
fn copy_of(operations: &Vec<ScopedIo>) -> (copy: Vec<ScopedIo>)
    ensures
        copy@ == operations@,
{
    let mut copy: Vec<ScopedIo> = Vec::new();
    let mut index: usize = 0;
    while index < operations.len()
        invariant
            index <= operations@.len(),
            copy@ == operations@.take(index as int),
        decreases operations@.len() - index,
    {
        copy.push(operations[index]);
        index = index + 1;
        assert(copy@ =~= operations@.take(index as int));
    }
    assert(copy@ =~= operations@);
    copy
}

/// Canceling loses no operation: each is with the kernel still, was over before,
/// or was withdrawn before it was submitted.
pub proof fn cancellation_is_complete(operations: Seq<ScopedIo>)
    ensures
        submitted(operations).add(complete(operations)).add(withdrawn(operations))
            == operations.to_multiset(),
{
    assert(submitted(operations).add(complete(operations)).add(withdrawn(operations))
        =~= operations.to_multiset());
}

/// A scope that is left holds no operation that is with the kernel.
pub proof fn scopes_leave_nothing_behind(draining: Seq<ScopedIo>, left: Seq<ScopedIo>)
    requires
        left.to_multiset() == incomplete(draining),
        left.len() == 0,
    ensures
        forall|i: int| 0 <= i < draining.len() ==> !(#[trigger] draining[i]).stage.incomplete(),
{
    broadcast use vstd::seq_lib::group_to_multiset_ensures;

    assert forall|i: int| 0 <= i < draining.len() implies !(
    #[trigger] draining[i]).stage.incomplete() by {
        assert(draining.contains(draining[i]));
        assert(draining.to_multiset().count(draining[i]) > 0);
        if draining[i].stage.incomplete() {
            assert(incomplete(draining).count(draining[i]) > 0);
            assert(left.to_multiset().count(draining[i]) > 0);
            assert(left.contains(draining[i]));
        }
    }
}

/// A cancellation sorts operations by how far they got: what is with the kernel
/// remains, what was not submitted is withdrawn, and the rest is over. None is
/// lost, and the scope holds nothing more.
pub proof fn canceling_sorts_operations(
    gathered: &mut IoScopeCompletions,
    cancellation: Cancellation,
    io: ScopedIo,
)
    requires
        call_ensures(begin_cancel, (gathered,), cancellation),
    ensures
        ({
            let there = old(gathered).completions@.to_multiset().count(io);
            &&& cancellation.remaining@.to_multiset().count(io) == if io.stage is Submitted {
                there
            } else {
                0
            }
            &&& cancellation.withdrawn@.to_multiset().count(io) == if io.stage is Idle {
                there
            } else {
                0
            }
            &&& cancellation.finished@.to_multiset().count(io) == if io.stage is Completed
                || io.stage is Terminated {
                there
            } else {
                0
            }
        }),
        cancellation.waits@ == old(gathered).waits@,
        final(gathered).completions@.len() == 0 && final(gathered).waits@.len() == 0,
{
}

/// Of some operations those are kept that are not over, and the others are given
/// back.
pub proof fn unfinished_operations_are_kept(
    operations: &mut Vec<ScopedIo>,
    returned: Vec<ScopedIo>,
    io: ScopedIo,
)
    requires
        call_ensures(retain_incomplete, (operations,), returned),
    ensures
        ({
            let there = old(operations)@.to_multiset().count(io);
            let over = io.stage is Completed || io.stage is Terminated;
            &&& final(operations)@.to_multiset().count(io) == if over {
                0
            } else {
                there
            }
            &&& returned@.to_multiset().count(io) == if over {
                there
            } else {
                0
            }
        }),
        final(operations)@.len() + returned@.len() == old(operations)@.len(),
{
}

/// A scope is left with what its work came to, at once when nothing of it is with
/// the kernel, and otherwise when all of that is over.
pub proof fn scopes_are_left_with_their_outcome<R>(
    finished: &mut IoScope<R>,
    drained: &mut IoScope<R>,
    value: R,
    gathered: IoScopeCompletions,
    result: (ScopePoll<R>, Cancellation),
    polled: (ScopePoll<R>, Vec<ScopedIo>),
    draining: bool,
    io: ScopedIo,
)
    requires
        old(finished)@.outcome is None,
        call_ensures(
            IoScope::<R>::finish,
            (finished, ScopeOutcome::Value(value), gathered),
            result,
        ),
        call_ensures(IoScope::<R>::is_draining, (final(finished),), draining),
        *old(drained) == *final(finished),
        draining ==> call_ensures(IoScope::<R>::drain, (drained,), polled),
    ensures
        result.0 is Drain <==> result.1.remaining@.len() > 0,
        !(result.0 is Drain) ==> result.0 == ScopePoll::Ready(value),
        draining <==> result.0 is Drain,
        draining ==> {
            &&& polled.0 is Drain <==> final(drained)@.draining.len() > 0
            &&& !(polled.0 is Drain) ==> polled.0 == ScopePoll::Ready(value)
                && final(drained)@.outcome is None
        },
        result.1.remaining@.to_multiset().count(io) == if io.stage is Submitted {
            gathered.completions@.to_multiset().count(io)
        } else {
            0
        },
        result.1.waits@ == gathered.waits@,
{
}

/// Work that panicked leaves the scope with its panic, which is resumed unless
/// the thread is panicking already.
pub proof fn panics_leave_their_scope<R>(
    finished: &mut IoScope<R>,
    scope: IoScope<R>,
    payload: PanicPayload,
    gathered: IoScopeCompletions,
    result: (ScopePoll<R>, Cancellation),
    panicking: bool,
    left: Option<PanicPayload>,
)
    requires
        old(finished)@.outcome is None,
        call_ensures(
            IoScope::<R>::finish,
            (finished, ScopeOutcome::Panic(payload), gathered),
            result,
        ),
        call_ensures(IoScope::<R>::leave, (scope, panicking), left),
    ensures
        result.1.remaining@.len() == 0 ==> result.0 == ScopePoll::<R>::Panic(payload),
        left is Some <==> !panicking && (scope@.outcome matches Some(outcome) && outcome is Panic),
        left matches Some(told) ==> scope@.outcome == Some(ScopeOutcome::<R>::Panic(told)),
{
}

/// What a scope gathered goes to the task while its work runs and comes back when
/// the work waits. A new scope gathered nothing.
pub proof fn scopes_lend_what_they_gathered<R>(
    made: IoScope<R>,
    resumed: &mut IoScope<R>,
    suspended: &mut IoScope<R>,
    lent: Option<IoScopeCompletions>,
    draining: bool,
)
    requires
        call_ensures(IoScope::<R>::new, (), made),
        call_ensures(IoScope::<R>::is_draining, (&made,), draining),
        call_ensures(IoScope::<R>::resume, (resumed,), lent),
        *old(suspended) == *final(resumed),
        call_ensures(IoScope::<R>::suspend, (suspended, lent), ()),
    ensures
        !draining && made@.draining.len() == 0,
        made@.scope matches Some(gathered) && gathered.completions@.len() == 0
            && gathered.waits@.len() == 0,
        lent == old(resumed)@.scope && final(resumed)@.scope is None,
        final(suspended)@ == old(resumed)@,
{
}

/// A completion settles the operation with its number and no other. The thread
/// blocks only while an operation is not over.
pub proof fn completions_settle_their_operation<R>(
    settled: &mut IoScope<R>,
    asked: &mut IoScope<R>,
    id: u64,
    index: int,
    result: (bool, Vec<ScopedIo>),
)
    requires
        0 <= index < old(settled)@.draining.len(),
        call_ensures(IoScope::<R>::settle, (settled, id), ()),
        *old(asked) == *final(settled),
        call_ensures(IoScope::<R>::must_block, (asked,), result),
    ensures
        final(settled)@.draining.len() == old(settled)@.draining.len(),
        ({
            let before = old(settled)@.draining[index];
            let after = final(settled)@.draining[index];
            &&& after.id == before.id
            &&& before.id == id ==> after.stage is Completed
            &&& before.id != id ==> after == before
        }),
        result.0 <==> final(asked)@.draining.len() > 0,
        !result.0 ==> final(settled)@.draining[index].stage is Completed
            || final(settled)@.draining[index].stage is Terminated,
        final(asked)@.outcome == old(settled)@.outcome,
{
    if !result.0 {
        scopes_leave_nothing_behind(final(settled)@.draining, final(asked)@.draining);
    }
}

/// A scope that is given up cancels what it gathered, if there is anything.
pub proof fn abandoned_scopes_cancel_their_work<R>(
    scope: &mut IoScope<R>,
    cancellation: Option<Cancellation>,
    io: ScopedIo,
)
    requires
        call_ensures(IoScope::<R>::abandon, (scope,), cancellation),
    ensures
        final(scope)@.scope is None,
        cancellation is Some <==> (old(scope)@.scope matches Some(gathered)
            && gathered.completions@.len() + gathered.waits@.len() > 0),
        cancellation matches Some(cancellation) ==> {
            let gathered = old(scope)@.scope->0;
            &&& cancellation.waits@ == gathered.waits@
            &&& final(scope)@.draining == cancellation.remaining@
            &&& cancellation.remaining@.to_multiset().count(io) == if io.stage is Submitted {
                gathered.completions@.to_multiset().count(io)
            } else {
                0
            }
        },
{
}

} // verus!
