//! The instructions that callers send, and their byte layout.
use crate::bytes::{le_value, read_i64_at, read_u64_at};
use crate::error::ContractError;
use crate::state::{dec_function, dec_key, read_function, read_key, CriticalFunction, Pubkey};
use vstd::prelude::*;

verus! {

/// A decoded instruction.
#[derive(Clone, Copy, Debug, PartialEq, Eq)]
pub enum Instruction {
    /// Schedule `function`. The requested delay is carried but not used: the
    /// delay is fixed by the kind of function.
    QueueCriticalFunction { function: CriticalFunction, delay_in_seconds: i64 },
    /// Cancel the queued action at `function_index`.
    CancelFunction { function_index: usize },
    /// Execute every due action that is not cancelled.
    CheckExecution,
    /// Set the account-level delegate.
    SetDelegate { delegate_pubkey: Pubkey },
}

/// The instruction that `b` stands for: a tag byte, then the fields of that
/// instruction. Bytes past the last field are not read.
pub open spec fn dec_instruction(b: Seq<u8>) -> Option<Instruction> {
    if b.len() == 0 {
        None
    } else if b[0] == 0 {
        match dec_function(b, 1) {
            Some((function, p)) => if p + 8 <= b.len() {
                Some(
                    Instruction::QueueCriticalFunction {
                        function,
                        delay_in_seconds: le_value(b.subrange(p, p + 8)) as i64,
                    },
                )
            } else {
                None
            },
            None => None,
        }
    } else if b[0] == 1 {
        if 9 <= b.len() {
            Some(Instruction::CancelFunction { function_index: le_value(b.subrange(1, 9)) as usize })
        } else {
            None
        }
    } else if b[0] == 2 {
        Some(Instruction::CheckExecution)
    } else if b[0] == 3 {
        match dec_key(b, 1) {
            Some((delegate_pubkey, _p)) => Some(Instruction::SetDelegate { delegate_pubkey }),
            None => None,
        }
    } else {
        None
    }
}

impl Instruction {
    /// Decodes an instruction payload.
    pub fn unpack(input: &[u8]) -> (r: Result<Instruction, ContractError>)
        ensures
            match r {
                Ok(ins) => dec_instruction(input@) == Some(ins),
                Err(e) => dec_instruction(input@) is None && e == ContractError::Decode,
            },
    {
        if input.len() == 0 {
            return Err(ContractError::Decode);
        }
        let tag = input[0];
        if tag == 0 {
            match read_function(input, 1) {
                Some((function, p)) => {
                    if input.len() - p < 8 {
                        return Err(ContractError::Decode);
                    }
                    let delay_in_seconds = read_i64_at(input, p);
                    Ok(Instruction::QueueCriticalFunction { function, delay_in_seconds })
                },
                None => Err(ContractError::Decode),
            }
        } else if tag == 1 {
            if input.len() < 9 {
                return Err(ContractError::Decode);
            }
            let function_index = read_u64_at(input, 1) as usize;
            Ok(Instruction::CancelFunction { function_index })
        } else if tag == 2 {
            Ok(Instruction::CheckExecution)
        } else if tag == 3 {
            match read_key(input, 1) {
                Some((delegate_pubkey, _p)) => Ok(Instruction::SetDelegate { delegate_pubkey }),
                None => Err(ContractError::Decode),
            }
        } else {
            Err(ContractError::Decode)
        }
    }

    /// Whether carrying out the instruction reads the clock.
    pub fn needs_clock(&self) -> (r: bool)
        ensures
            r == (*self is QueueCriticalFunction || *self is CheckExecution),
    {
        match self {
            Instruction::QueueCriticalFunction { .. } | Instruction::CheckExecution => true,
            _ => false,
        }
    }
}

} // verus!
