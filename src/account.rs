//! One call on a ledger account: load the state from the account's bytes,
//! carry out the instruction, and write the state back.
use crate::error::ContractError;
use crate::instruction::Instruction;
use crate::queue::{
    cancel_function, cancel_spec, check_execution, due_at, fixed_delay, function_of, new_entry,
    pending_at, queue_critical_function, set_delegate, DEFAULT_DELAY_FOR_CRITICAL_FUNCTION,
};
use crate::state::{
    dec_state, deserialize, enc_state, serialize, ContractState, CriticalFunction, Pubkey,
    QueuedFunction,
};
use vstd::prelude::*;

verus! {

/// The state that an account's bytes hold: none stored yet where there are
/// no bytes.
pub open spec fn load_spec(b: Seq<u8>) -> Option<(Seq<QueuedFunction>, Option<Pubkey>)> {
    if b.len() == 0 {
        Some((Seq::empty(), None))
    } else {
        dec_state(b)
    }
}

/// The account's bytes after the state is written into them: the state's
/// bytes, then what the account held past them. `None` where they do not fit.
pub open spec fn save_spec(b: Seq<u8>, q: Seq<QueuedFunction>, d: Option<Pubkey>) -> Option<
    Seq<u8>,
> {
    if q.len() <= u32::MAX && enc_state(q, d).len() <= b.len() {
        Some(enc_state(q, d) + b.subrange(enc_state(q, d).len() as int, b.len() as int))
    } else {
        None
    }
}

/// Reads the state stored in `data`.
pub fn load(data: &[u8]) -> (r: Result<ContractState, ContractError>)
    ensures
        match load_spec(data@) {
            Some((q, d)) => r matches Ok(s) && s.queued_functions@ == q && s.delegate == d,
            None => r == Err::<ContractState, ContractError>(ContractError::Storage),
        },
{
    if data.len() == 0 {
        return Ok(ContractState::new());
    }
    match deserialize(data) {
        Some(s) => Ok(s),
        None => Err(ContractError::Storage),
    }
}

/// Writes `state` over the start of `data`; leaves `data` as it was where
/// the state does not fit.
pub fn save(state: &ContractState, data: &mut Vec<u8>) -> (r: Result<(), ContractError>)
    ensures
        match save_spec(old(data)@, state.queued_functions@, state.delegate) {
            Some(b) => r is Ok && final(data)@ == b,
            None => r == Err::<(), ContractError>(ContractError::Storage) && final(data)@ == old(
                data,
            )@,
        },
{
    if state.queued_functions.len() > 4294967295 {
        return Err(ContractError::Storage);
    }
    let bytes = serialize(state);
    if bytes.len() > data.len() {
        return Err(ContractError::Storage);
    }
    let ghost start = data@;
    let mut i: usize = 0;
    while i < bytes.len()
        invariant
            0 <= i <= bytes@.len(),
            bytes@.len() <= start.len(),
            data@.len() == start.len(),
            forall|j: int| 0 <= j < i ==> data@[j] == bytes@[j],
            forall|j: int| i <= j < start.len() ==> data@[j] == start[j],
        decreases bytes@.len() - i,
    {
        data.set(i, bytes[i]);
        i = i + 1;
    }
    assert(data@ =~= bytes@ + start.subrange(bytes@.len() as int, start.len() as int));
    Ok(())
}

/// What carrying out `ins` does to queue `q` and delegate `d`: the new queue,
/// the new delegate, and the actions executed.
pub open spec fn apply_spec(
    q: Seq<QueuedFunction>,
    d: Option<Pubkey>,
    caller: Pubkey,
    now: i64,
    ins: Instruction,
) -> Result<(Seq<QueuedFunction>, Option<Pubkey>, Seq<CriticalFunction>), ContractError> {
    match ins {
        Instruction::QueueCriticalFunction { function, .. } => Ok(
            (q.push(new_entry(function, now + fixed_delay(function), caller)), d, Seq::empty()),
        ),
        Instruction::CancelFunction { function_index } => match cancel_spec(
            q,
            caller,
            function_index as int,
        ) {
            Ok(q1) => Ok((q1, d, Seq::empty())),
            Err(e) => Err(e),
        },
        Instruction::CheckExecution => Ok(
            (q.filter(pending_at(now)), d, q.filter(due_at(now)).map_values(function_of())),
        ),
        Instruction::SetDelegate { delegate_pubkey } => Ok((q, Some(delegate_pubkey), Seq::empty())),
    }
}

/// The account's new bytes and the actions executed when `caller` sends
/// `ins` at time `now` to an account holding `b`.
pub open spec fn process_spec(b: Seq<u8>, caller: Pubkey, now: i64, ins: Instruction) -> Result<
    (Seq<u8>, Seq<CriticalFunction>),
    ContractError,
> {
    match load_spec(b) {
        None => Err(ContractError::Storage),
        Some((q, d)) => match apply_spec(q, d, caller, now, ins) {
            Err(e) => Err(e),
            Ok((q1, d1, executed)) => match save_spec(b, q1, d1) {
                Some(b1) => Ok((b1, executed)),
                None => Err(ContractError::Storage),
            },
        },
    }
}

/// Queues `function` for `initiator` on the account whose bytes are `data`:
/// loads the state, appends the entry due the fixed delay of its kind after
/// `now`, and writes the state back. The requested delay has no effect. On
/// failure `data` is left as it was.
pub fn queue_function(
    data: &mut Vec<u8>,
    function: CriticalFunction,
    delay_in_seconds: i64,
    now: i64,
    initiator: &Pubkey,
) -> (r: Result<(), ContractError>)
    requires
        now <= i64::MAX - DEFAULT_DELAY_FOR_CRITICAL_FUNCTION,
    ensures
        match process_spec(
            old(data)@,
            *initiator,
            now,
            Instruction::QueueCriticalFunction { function, delay_in_seconds },
        ) {
            Ok((b, _executed)) => r is Ok && final(data)@ == b,
            Err(e) => r == Err::<(), ContractError>(e) && final(data)@ == old(data)@,
        },
{
    let mut state = match load(data.as_slice()) {
        Ok(s) => s,
        Err(e) => return Err(e),
    };
    queue_critical_function(&mut state, function, now, *initiator);
    save(&state, data)
}

/// Carries out `instruction`, sent by `caller` at time `now`, on the account
/// whose bytes are `data`. Returns the actions executed; on failure `data`
/// is left as it was.
pub fn process_instruction(
    data: &mut Vec<u8>,
    caller: &Pubkey,
    now: i64,
    instruction: &Instruction,
) -> (r: Result<Vec<CriticalFunction>, ContractError>)
    requires
        *instruction is QueueCriticalFunction ==> now <= i64::MAX
            - DEFAULT_DELAY_FOR_CRITICAL_FUNCTION,
    ensures
        match process_spec(old(data)@, *caller, now, *instruction) {
            Ok((b, executed)) => r matches Ok(v) && v@ == executed && final(data)@ == b,
            Err(e) => r == Err::<Vec<CriticalFunction>, ContractError>(e) && final(data)@ == old(
                data,
            )@,
        },
{
    let mut state = match load(data.as_slice()) {
        Ok(s) => s,
        Err(e) => return Err(e),
    };
    let executed = match instruction {
        Instruction::QueueCriticalFunction { function, delay_in_seconds } => {
            queue_critical_function(&mut state, *function, now, *caller);
            Vec::new()
        },
        Instruction::CancelFunction { function_index } => {
            match cancel_function(&mut state, caller, *function_index) {
                Ok(()) => Vec::new(),
                Err(e) => return Err(e),
            }
        },
        Instruction::CheckExecution => check_execution(&mut state, now),
        Instruction::SetDelegate { delegate_pubkey } => {
            set_delegate(&mut state, *delegate_pubkey);
            Vec::new()
        },
    };
    match save(&state, data) {
        Ok(()) => Ok(executed),
        Err(e) => Err(e),
    }
}

/// A cancellation naming an index past the end of the stored queue fails
/// with a range error (and so leaves the account's bytes as they were).
pub proof fn lemma_cancel_out_of_range(
    b: Seq<u8>,
    caller: Pubkey,
    now: i64,
    function_index: usize,
)
    requires
        load_spec(b) matches Some((q, _d)) && function_index >= q.len(),
    ensures
        process_spec(b, caller, now, Instruction::CancelFunction { function_index }) == Err::<
            (Seq<u8>, Seq<CriticalFunction>),
            ContractError,
        >(ContractError::Range),
{
}

/// Two queue instructions that differ only in the requested delay have the
/// same outcome: the entry is due the fixed delay after `now`.
pub proof fn lemma_requested_delay_ignored(
    b: Seq<u8>,
    caller: Pubkey,
    now: i64,
    function: CriticalFunction,
    delay_a: i64,
    delay_b: i64,
)
    ensures
        process_spec(
            b,
            caller,
            now,
            Instruction::QueueCriticalFunction { function, delay_in_seconds: delay_a },
        ) == process_spec(
            b,
            caller,
            now,
            Instruction::QueueCriticalFunction { function, delay_in_seconds: delay_b },
        ),
        fixed_delay(function) == DEFAULT_DELAY_FOR_CRITICAL_FUNCTION,
{
}

} // verus!
