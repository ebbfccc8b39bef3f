//! The transitions of one account's state: queueing, cancelling, setting
//! the delegate, and the sweep that executes due actions.
use crate::error::ContractError;
use crate::state::{ContractState, CriticalFunction, Pubkey, QueuedFunction};
use vstd::prelude::*;

verus! {

/// The delay every critical function waits before it may be executed.
pub const DEFAULT_DELAY_FOR_CRITICAL_FUNCTION: i64 = 30;

/// The delay that `f` waits: fixed by its kind, never by the caller.
pub open spec fn fixed_delay(f: CriticalFunction) -> i64 {
    match f {
        CriticalFunction::WithdrawAllFunds { .. } => DEFAULT_DELAY_FOR_CRITICAL_FUNCTION,
        CriticalFunction::DeleteAccount => DEFAULT_DELAY_FOR_CRITICAL_FUNCTION,
    }
}

/// The delay that `f` waits.
pub fn delay_for(f: &CriticalFunction) -> (r: i64)
    ensures
        r == fixed_delay(*f),
{
    match f {
        CriticalFunction::WithdrawAllFunds { .. } => DEFAULT_DELAY_FOR_CRITICAL_FUNCTION,
        CriticalFunction::DeleteAccount => DEFAULT_DELAY_FOR_CRITICAL_FUNCTION,
    }
}

/// The record that queueing `function` at `execution_time` for `initiator` adds.
pub open spec fn new_entry(
    function: CriticalFunction,
    execution_time: int,
    initiator: Pubkey,
) -> QueuedFunction {
    QueuedFunction {
        function,
        execution_time: execution_time as i64,
        cancelled: false,
        initiator,
        delegate: None,
    }
}

/// Appends `function` to the queue, due the fixed delay of its kind after
/// `now`.
pub fn queue_critical_function(
    state: &mut ContractState,
    function: CriticalFunction,
    now: i64,
    initiator: Pubkey,
)
    requires
        now <= i64::MAX - DEFAULT_DELAY_FOR_CRITICAL_FUNCTION,
    ensures
        final(state).queued_functions@ == old(state).queued_functions@.push(
            new_entry(function, now + fixed_delay(function), initiator),
        ),
        final(state).delegate == old(state).delegate,
{
    let execution_time = now + delay_for(&function);
    let queued_function = QueuedFunction {
        function,
        execution_time,
        cancelled: false,
        initiator,
        delegate: None,
    };
    state.queued_functions.push(queued_function);
}

/// Whether `caller` may cancel `q`: it is the initiator or the action's own
/// delegate.
pub open spec fn may_cancel(q: QueuedFunction, caller: Pubkey) -> bool {
    caller == q.initiator || q.delegate == Some(caller)
}

/// The queue `q` after a cancellation of the entry at `index` by `caller`.
pub open spec fn cancel_spec(q: Seq<QueuedFunction>, caller: Pubkey, index: int) -> Result<
    Seq<QueuedFunction>,
    ContractError,
> {
    if index < 0 || index >= q.len() {
        Err(ContractError::Range)
    } else if !may_cancel(q[index], caller) {
        Err(ContractError::Authorization)
    } else {
        Ok(q.update(index, QueuedFunction { cancelled: true, ..q[index] }))
    }
}

/// Marks the entry at `function_index` cancelled, if `caller` may cancel it.
/// The entry stays in the queue.
pub fn cancel_function(state: &mut ContractState, caller: &Pubkey, function_index: usize) -> (r:
    Result<(), ContractError>)
    ensures
        match cancel_spec(old(state).queued_functions@, *caller, function_index as int) {
            Ok(q) => r is Ok && final(state).queued_functions@ == q,
            Err(e) => r == Err::<(), ContractError>(e) && *final(state) == *old(state),
        },
        final(state).delegate == old(state).delegate,
{
    if function_index >= state.queued_functions.len() {
        return Err(ContractError::Range);
    }
    let queued = state.queued_functions[function_index];
    let by_delegate = match &queued.delegate {
        Some(d) => d.same_key(caller),
        None => false,
    };
    if !caller.same_key(&queued.initiator) && !by_delegate {
        return Err(ContractError::Authorization);
    }
    let mut updated = queued;
    updated.cancelled = true;
    state.queued_functions.set(function_index, updated);
    Ok(())
}

/// Sets the account-level delegate. Any caller may do so.
pub fn set_delegate(state: &mut ContractState, delegate_pubkey: Pubkey)
    ensures
        final(state).queued_functions@ == old(state).queued_functions@,
        final(state).delegate == Some(delegate_pubkey),
{
    state.delegate = Some(delegate_pubkey);
}

/// Whether `q` is executed by a sweep at time `now`.
pub open spec fn is_due(q: QueuedFunction, now: i64) -> bool {
    !q.cancelled && q.execution_time <= now
}

pub open spec fn due_at(now: i64) -> spec_fn(QueuedFunction) -> bool {
    |q: QueuedFunction| is_due(q, now)
}

pub open spec fn pending_at(now: i64) -> spec_fn(QueuedFunction) -> bool {
    |q: QueuedFunction| !is_due(q, now)
}

pub open spec fn function_of() -> spec_fn(QueuedFunction) -> CriticalFunction {
    |q: QueuedFunction| q.function
}

/// Executes every entry that is due at `now` and not cancelled, in queue
/// order, and removes those entries; the others stay, in their order. Returns
/// the actions executed.
pub fn check_execution(state: &mut ContractState, now: i64) -> (r: Vec<CriticalFunction>)
    ensures
        final(state).queued_functions@ == old(state).queued_functions@.filter(pending_at(now)),
        r@ == old(state).queued_functions@.filter(due_at(now)).map_values(function_of()),
        final(state).delegate == old(state).delegate,
{
    let ghost q = state.queued_functions@;
    let n = state.queued_functions.len();
    let mut kept: Vec<QueuedFunction> = Vec::new();
    let mut executed: Vec<CriticalFunction> = Vec::new();
    let mut i: usize = 0;
    while i < n
        invariant
            0 <= i <= n,
            n == q.len(),
            state.queued_functions@ == q,
            kept@ == q.subrange(0, i as int).filter(pending_at(now)),
            executed@ == q.subrange(0, i as int).filter(due_at(now)).map_values(function_of()),
        decreases n - i,
    {
        let entry = state.queued_functions[i];
        let ghost before = q.subrange(0, i as int);
        let ghost done = before.filter(due_at(now));
        if !entry.cancelled && entry.execution_time <= now {
            executed.push(entry.function);
        } else {
            kept.push(entry);
        }
        i = i + 1;
        proof {
            let pre = q.subrange(0, i as int);
            assert(pre.drop_last() =~= before);
            reveal(Seq::filter);
            assert(pre.filter(pending_at(now)) == (if is_due(entry, now) {
                before.filter(pending_at(now))
            } else {
                before.filter(pending_at(now)).push(entry)
            }));
            if is_due(entry, now) {
                assert(pre.filter(due_at(now)) == done.push(entry));
                assert(done.push(entry).map_values(function_of()) =~= done.map_values(
                    function_of(),
                ).push(entry.function));
            } else {
                assert(pre.filter(due_at(now)) == done);
            }
        }
    }
    assert(q.subrange(0, n as int) =~= q);
    state.queued_functions = kept;
    executed
}

/// The queue after a cancellation attempt: unchanged where it fails.
pub open spec fn after_cancel(q: Seq<QueuedFunction>, caller: Pubkey, index: int) -> Seq<
    QueuedFunction,
> {
    match cancel_spec(q, caller, index) {
        Ok(q1) => q1,
        Err(_) => q,
    }
}

/// Cancelling the same entry twice leaves the queue as cancelling it once,
/// and the second attempt fails or succeeds as the first did.
pub proof fn lemma_cancel_idempotent(q: Seq<QueuedFunction>, caller: Pubkey, index: int)
    ensures
        after_cancel(after_cancel(q, caller, index), caller, index) == after_cancel(
            q,
            caller,
            index,
        ),
        cancel_spec(after_cancel(q, caller, index), caller, index) is Ok <==> cancel_spec(
            q,
            caller,
            index,
        ) is Ok,
{
    if let Ok(q1) = cancel_spec(q, caller, index) {
        assert(q1[index] == QueuedFunction { cancelled: true, ..q[index] });
        assert(q1.update(index, QueuedFunction { cancelled: true, ..q1[index] }) =~= q1);
    }
}

/// A sweep at `now` splits the queue in two: the entries it executes are
/// exactly those due and not cancelled, the entries it keeps exactly the
/// others, each part in queue order.
pub proof fn lemma_sweep_partition(q: Seq<QueuedFunction>, now: i64)
    ensures
        forall|i: int|
            0 <= i < q.filter(pending_at(now)).len() ==> !is_due(
                #[trigger] q.filter(pending_at(now))[i],
                now,
            ),
        forall|i: int|
            0 <= i < q.len() && !is_due(q[i], now) ==> #[trigger] q.filter(
                pending_at(now),
            ).contains(q[i]),
        forall|i: int|
            0 <= i < q.filter(due_at(now)).len() ==> is_due(
                #[trigger] q.filter(due_at(now))[i],
                now,
            ),
        forall|i: int|
            0 <= i < q.len() && is_due(q[i], now) ==> #[trigger] q.filter(due_at(now)).contains(
                q[i],
            ),
        q.filter(pending_at(now)).len() + q.filter(due_at(now)).len() == q.len(),
    decreases q.len(),
{
    broadcast use vstd::seq_lib::group_filter_ensures;

    reveal(Seq::filter);
    if q.len() > 0 {
        lemma_sweep_partition(q.drop_last(), now);
    }
}

} // verus!
