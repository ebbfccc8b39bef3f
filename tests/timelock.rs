use timelock_queue::account::{load, process_instruction, queue_function, save};
use timelock_queue::error::ContractError;
use timelock_queue::instruction::Instruction;
use timelock_queue::queue::{
    cancel_function, check_execution, queue_critical_function, set_delegate,
    DEFAULT_DELAY_FOR_CRITICAL_FUNCTION,
};
use timelock_queue::state::{
    deserialize, serialize, ContractState, CriticalFunction, Pubkey, QueuedFunction,
};

fn key(b: u8) -> Pubkey {
    Pubkey { bytes: [b; 32] }
}

fn withdraw(amount: u64, target: u8) -> CriticalFunction {
    CriticalFunction::WithdrawAllFunds { amount, target_pubkey: key(target) }
}

fn queue_payload(f: &CriticalFunction, delay: i64) -> Vec<u8> {
    let mut v = vec![0u8];
    match f {
        CriticalFunction::WithdrawAllFunds { amount, target_pubkey } => {
            v.push(0);
            v.extend_from_slice(&amount.to_le_bytes());
            v.extend_from_slice(&target_pubkey.bytes);
        }
        CriticalFunction::DeleteAccount => v.push(1),
    }
    v.extend_from_slice(&delay.to_le_bytes());
    v
}

fn cancel_payload(index: u64) -> Vec<u8> {
    let mut v = vec![1u8];
    v.extend_from_slice(&index.to_le_bytes());
    v
}

fn run(data: &mut Vec<u8>, caller: &Pubkey, now: i64, payload: &[u8]) -> Result<Vec<CriticalFunction>, ContractError> {
    let ins = Instruction::unpack(payload)?;
    process_instruction(data, caller, now, &ins)
}

fn entry(f: CriticalFunction, t: i64, cancelled: bool, initiator: u8, delegate: Option<u8>) -> QueuedFunction {
    QueuedFunction {
        function: f,
        execution_time: t,
        cancelled,
        initiator: key(initiator),
        delegate: delegate.map(key),
    }
}

#[test]
fn withdraw_becomes_due_after_fixed_delay() {
    let t: i64 = 1_700_000_000;
    let a = key(1);
    let mut data = vec![0u8; 1024];
    let r = run(&mut data, &a, t, &queue_payload(&withdraw(100, 9), 0));
    assert_eq!(r, Ok(vec![]));
    let s = load(&data).unwrap();
    assert_eq!(s.queued_functions.len(), 1);
    assert_eq!(s.queued_functions[0].execution_time, t + 30);
    assert_eq!(s.queued_functions[0].initiator, a);
    assert!(!s.queued_functions[0].cancelled);
    assert_eq!(s.queued_functions[0].delegate, None);

    let before = data.clone();
    let r = run(&mut data, &a, t + 29, &[2]);
    assert_eq!(r, Ok(vec![]));
    assert_eq!(load(&data).unwrap().queued_functions.len(), 1);
    assert_eq!(data, before);

    let r = run(&mut data, &a, t + 30, &[2]);
    assert_eq!(r, Ok(vec![withdraw(100, 9)]));
    assert_eq!(load(&data).unwrap().queued_functions.len(), 0);
}

#[test]
fn stranger_cannot_cancel() {
    let a = key(1);
    let b = key(2);
    let mut data = vec![0u8; 1024];
    run(&mut data, &a, 50, &queue_payload(&CriticalFunction::DeleteAccount, 5)).unwrap();
    let before = data.clone();
    assert_eq!(run(&mut data, &b, 60, &cancel_payload(0)), Err(ContractError::Authorization));
    assert_eq!(data, before);
    assert!(!load(&data).unwrap().queued_functions[0].cancelled);
    assert_eq!(run(&mut data, &a, 60, &cancel_payload(0)), Ok(vec![]));
    assert!(load(&data).unwrap().queued_functions[0].cancelled);
}

#[test]
fn account_delegate_and_action_delegate_are_independent() {
    let initiator = key(1);
    let d = key(4);
    let e = key(5);
    let mut s = ContractState::new();
    queue_critical_function(&mut s, withdraw(7, 3), 10, initiator);
    set_delegate(&mut s, d);
    s.queued_functions[0].delegate = Some(e);
    let mut t = s.clone();
    assert_eq!(cancel_function(&mut t, &d, 0), Err(ContractError::Authorization));
    assert_eq!(t, s);
    let mut t = s.clone();
    assert_eq!(cancel_function(&mut t, &e, 0), Ok(()));
    assert!(t.queued_functions[0].cancelled);
    let mut t = s.clone();
    assert_eq!(cancel_function(&mut t, &initiator, 0), Ok(()));
    assert!(t.queued_functions[0].cancelled);
    assert_eq!(t.delegate, Some(d));
}

#[test]
fn cancel_out_of_range_leaves_bytes() {
    let a = key(1);
    let mut data = vec![0u8; 512];
    run(&mut data, &a, 0, &queue_payload(&withdraw(1, 2), 0)).unwrap();
    let before = data.clone();
    assert_eq!(run(&mut data, &a, 0, &cancel_payload(1)), Err(ContractError::Range));
    assert_eq!(run(&mut data, &a, 0, &cancel_payload(u64::MAX)), Err(ContractError::Range));
    assert_eq!(data, before);
    let mut s = ContractState::new();
    assert_eq!(cancel_function(&mut s, &a, 0), Err(ContractError::Range));
    assert_eq!(s, ContractState::new());
}

#[test]
fn requested_delay_is_ignored() {
    let a = key(1);
    let mut x = vec![0u8; 256];
    let mut y = vec![0u8; 256];
    let mut z = vec![0u8; 256];
    run(&mut x, &a, 1000, &queue_payload(&withdraw(5, 6), 0)).unwrap();
    run(&mut y, &a, 1000, &queue_payload(&withdraw(5, 6), -1000)).unwrap();
    run(&mut z, &a, 1000, &queue_payload(&withdraw(5, 6), i64::MAX)).unwrap();
    assert_eq!(x, y);
    assert_eq!(x, z);
    assert_eq!(load(&x).unwrap().queued_functions[0].execution_time, 1030);
    assert_eq!(DEFAULT_DELAY_FOR_CRITICAL_FUNCTION, 30);
}

#[test]
fn queue_function_ignores_requested_delay() {
    let a = key(3);
    let mut x = vec![0u8; 256];
    let mut y = vec![0u8; 256];
    assert_eq!(queue_function(&mut x, CriticalFunction::DeleteAccount, 0, 100, &a), Ok(()));
    assert_eq!(queue_function(&mut y, CriticalFunction::DeleteAccount, 7, 100, &a), Ok(()));
    assert_eq!(x, y);
    assert_eq!(
        load(&x).unwrap().queued_functions,
        vec![entry(CriticalFunction::DeleteAccount, 130, false, 3, None)]
    );
    assert_eq!(queue_function(&mut x, withdraw(100, 9), -50, 200, &a), Ok(()));
    let s = load(&x).unwrap();
    assert_eq!(s.queued_functions.len(), 2);
    assert_eq!(s.queued_functions[1], entry(withdraw(100, 9), 230, false, 3, None));
    assert_eq!(s.delegate, None);
}

#[test]
fn queue_function_failure_leaves_bytes() {
    let mut small = vec![0u8; 5];
    assert_eq!(queue_function(&mut small, withdraw(1, 1), 0, 0, &key(1)), Err(ContractError::Storage));
    assert_eq!(small, vec![0u8; 5]);
    let mut bad = vec![7u8, 0, 0, 0, 0, 0, 0, 0];
    assert_eq!(queue_function(&mut bad, withdraw(1, 1), 0, 0, &key(1)), Err(ContractError::Storage));
    assert_eq!(bad, vec![7u8, 0, 0, 0, 0, 0, 0, 0]);
}

#[test]
fn sweep_removes_due_uncancelled_in_order() {
    let mut s = ContractState::new();
    s.queued_functions = vec![
        entry(withdraw(1, 1), 10, false, 1, None),
        entry(withdraw(2, 2), 20, false, 1, None),
        entry(CriticalFunction::DeleteAccount, 5, true, 1, None),
        entry(withdraw(3, 3), 15, false, 1, Some(2)),
        entry(CriticalFunction::DeleteAccount, 15, false, 2, None),
    ];
    s.delegate = Some(key(8));
    let executed = check_execution(&mut s, 15);
    assert_eq!(executed, vec![withdraw(1, 1), withdraw(3, 3), CriticalFunction::DeleteAccount]);
    assert_eq!(
        s.queued_functions,
        vec![
            entry(withdraw(2, 2), 20, false, 1, None),
            entry(CriticalFunction::DeleteAccount, 5, true, 1, None),
        ]
    );
    assert_eq!(s.delegate, Some(key(8)));
    let again = s.clone();
    assert_eq!(check_execution(&mut s, 15), vec![]);
    assert_eq!(s, again);
}

#[test]
fn cancel_twice_same_as_once() {
    let a = key(1);
    let mut data = vec![0u8; 512];
    run(&mut data, &a, 0, &queue_payload(&withdraw(1, 2), 0)).unwrap();
    run(&mut data, &a, 0, &queue_payload(&CriticalFunction::DeleteAccount, 0)).unwrap();
    assert_eq!(run(&mut data, &a, 0, &cancel_payload(1)), Ok(vec![]));
    let once = data.clone();
    assert_eq!(run(&mut data, &a, 0, &cancel_payload(1)), Ok(vec![]));
    assert_eq!(data, once);
    let s = load(&data).unwrap();
    assert!(!s.queued_functions[0].cancelled);
    assert!(s.queued_functions[1].cancelled);
    assert_eq!(run(&mut data, &a, 100, &[2]), Ok(vec![withdraw(1, 2)]));
}

#[test]
fn anyone_may_set_the_account_delegate() {
    let mut data = vec![0u8; 128];
    let mut payload = vec![3u8];
    payload.extend_from_slice(&[6u8; 32]);
    assert_eq!(run(&mut data, &key(9), 0, &payload), Ok(vec![]));
    assert_eq!(load(&data).unwrap().delegate, Some(key(6)));
    payload[1] = 7;
    assert_eq!(run(&mut data, &key(2), 0, &payload), Ok(vec![]));
    assert_eq!(load(&data).unwrap().delegate.unwrap().bytes[0], 7);
}

#[test]
fn unpack_each_instruction() {
    assert_eq!(
        Instruction::unpack(&queue_payload(&withdraw(300, 4), -5)),
        Ok(Instruction::QueueCriticalFunction { function: withdraw(300, 4), delay_in_seconds: -5 })
    );
    assert_eq!(
        Instruction::unpack(&[1, 1, 2, 0, 0, 0, 0, 0, 0, 0xff]),
        Ok(Instruction::CancelFunction { function_index: 513 })
    );
    assert_eq!(Instruction::unpack(&[2, 9, 9]), Ok(Instruction::CheckExecution));
    let mut p = vec![3u8];
    p.extend_from_slice(&[0xab; 32]);
    assert_eq!(Instruction::unpack(&p), Ok(Instruction::SetDelegate { delegate_pubkey: key(0xab) }));
    assert!(Instruction::unpack(&p).unwrap().needs_clock() == false);
    assert!(Instruction::unpack(&[2]).unwrap().needs_clock());
}

#[test]
fn unpack_rejects_malformed() {
    assert_eq!(Instruction::unpack(&[]), Err(ContractError::Decode));
    assert_eq!(Instruction::unpack(&[4]), Err(ContractError::Decode));
    assert_eq!(Instruction::unpack(&[1, 0, 0, 0, 0, 0, 0, 0]), Err(ContractError::Decode));
    assert_eq!(Instruction::unpack(&[3; 32]), Err(ContractError::Decode));
    assert_eq!(Instruction::unpack(&[0, 2, 0, 0, 0, 0, 0, 0, 0, 0]), Err(ContractError::Decode));
    assert_eq!(Instruction::unpack(&[0, 1, 0, 0, 0, 0, 0, 0, 0]), Err(ContractError::Decode));
    let mut p = queue_payload(&withdraw(1, 1), 0);
    p.truncate(p.len() - 1);
    assert_eq!(Instruction::unpack(&p), Err(ContractError::Decode));
}

#[test]
fn state_round_trips() {
    let mut s = ContractState::new();
    s.queued_functions = vec![
        entry(withdraw(u64::MAX, 1), -3, false, 2, Some(3)),
        entry(CriticalFunction::DeleteAccount, i64::MIN, true, 4, None),
    ];
    s.delegate = Some(key(5));
    let mut bytes = serialize(&s);
    assert_eq!(deserialize(&bytes), Some(s.clone()));
    bytes.extend_from_slice(&[0xee; 10]);
    assert_eq!(deserialize(&bytes), Some(s));
    let empty = ContractState::new();
    assert_eq!(serialize(&empty), vec![0, 0, 0, 0, 0]);
    assert_eq!(deserialize(&[0, 0, 0, 0, 0]), Some(empty));
}

#[test]
fn layout_matches_borsh() {
    let mut s = ContractState::new();
    s.queued_functions = vec![entry(withdraw(258, 1), 1030, true, 2, Some(3))];
    s.delegate = Some(key(5));
    let tuple: (Vec<(u8, u64, [u8; 32], i64, bool, [u8; 32], Option<[u8; 32]>)>, Option<[u8; 32]>) =
        (vec![(0, 258, [1; 32], 1030, true, [2; 32], Some([3; 32]))], Some([5; 32]));
    assert_eq!(serialize(&s), borsh::to_vec(&tuple).unwrap());

    let mut s = ContractState::new();
    s.queued_functions = vec![entry(CriticalFunction::DeleteAccount, -1, false, 7, None)];
    let tuple: (Vec<(u8, i64, bool, [u8; 32], Option<[u8; 32]>)>, Option<[u8; 32]>) =
        (vec![(1, -1, false, [7; 32], None)], None);
    assert_eq!(serialize(&s), borsh::to_vec(&tuple).unwrap());
}

#[test]
fn malformed_state_is_a_storage_error() {
    assert_eq!(load(&[1, 0, 0, 0]), Err(ContractError::Storage));
    assert_eq!(load(&[0, 0, 0, 0, 2]), Err(ContractError::Storage));
    assert_eq!(load(&[0, 0, 0]), Err(ContractError::Storage));
    let mut bad_bool = serialize(&{
        let mut s = ContractState::new();
        s.queued_functions = vec![entry(CriticalFunction::DeleteAccount, 0, false, 1, None)];
        s
    });
    bad_bool[4 + 1 + 8] = 2;
    assert_eq!(deserialize(&bad_bool), None);
    let mut data = vec![9u8, 0, 0, 0, 0];
    assert_eq!(run(&mut data, &key(1), 0, &[2]), Err(ContractError::Storage));
    assert_eq!(data, vec![9u8, 0, 0, 0, 0]);
}

#[test]
fn empty_account_reads_as_empty_state() {
    assert_eq!(load(&[]), Ok(ContractState::new()));
    let mut data: Vec<u8> = vec![];
    assert_eq!(run(&mut data, &key(1), 0, &queue_payload(&withdraw(1, 1), 0)), Err(ContractError::Storage));
    assert!(data.is_empty());
}

#[test]
fn save_keeps_the_tail_and_checks_capacity() {
    let s = ContractState::new();
    let mut data = vec![0xaa; 8];
    assert_eq!(save(&s, &mut data), Ok(()));
    assert_eq!(data, vec![0, 0, 0, 0, 0, 0xaa, 0xaa, 0xaa]);
    let mut small = vec![0xbb; 4];
    assert_eq!(save(&s, &mut small), Err(ContractError::Storage));
    assert_eq!(small, vec![0xbb; 4]);
}

#[test]
fn keys_compare_by_bytes() {
    let mut b = [1u8; 32];
    assert!(key(1).same_key(&Pubkey { bytes: b }));
    b[31] = 2;
    assert!(!key(1).same_key(&Pubkey { bytes: b }));
}
