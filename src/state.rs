//! The persisted state of one ledger account and its byte layout.
//!
//! The layout is borsh's: a `u32` little-endian count followed by that many
//! records, then the optional account-level delegate. An option is a tag
//! byte (0 or 1) followed by the value, an enum a tag byte followed by the
//! variant's fields, a bool one byte (0 or 1), a key its 32 raw bytes.
use crate::bytes::{
    le4_bytes, le4_value, le_bytes, le_value, lemma_i64_round_trip, lemma_le4_round_trip,
    lemma_le_round_trip, read_i64_at, read_u32_at, read_u64_at, write_u32_le, write_u64_le,
};
use vstd::prelude::*;

verus! {

/// The number of raw bytes in an authority key.
pub const KEY_LEN: usize = 32;

/// An authority key: 32 raw bytes.
#[derive(Clone, Copy, Debug, PartialEq, Eq)]
pub struct Pubkey {
    pub bytes: [u8; 32],
}

impl Pubkey {
    /// Whether the two keys hold the same bytes.
    pub fn same_key(&self, other: &Pubkey) -> (r: bool)
        ensures
            r == (*self == *other),
    {
        let mut i: usize = 0;
        while i < KEY_LEN
            invariant
                0 <= i <= KEY_LEN,
                forall|j: int| 0 <= j < i ==> self.bytes@[j] == other.bytes@[j],
            decreases KEY_LEN - i,
        {
            if self.bytes[i] != other.bytes[i] {
                return false;
            }
            i = i + 1;
        }
        proof {
            broadcast use vstd::array::axiom_array_ext_equal;

            assert(self.bytes@ =~= other.bytes@);
            assert(self.bytes == other.bytes);
        }
        true
    }
}

/// A critical action that waits in the queue before it is performed.
#[derive(Clone, Copy, Debug, PartialEq, Eq)]
pub enum CriticalFunction {
    /// Move `amount` lamports out of the account to `target_pubkey`.
    WithdrawAllFunds { amount: u64, target_pubkey: Pubkey },
    /// Tear the account down.
    DeleteAccount,
}

/// One scheduled action.
#[derive(Clone, Copy, Debug, PartialEq, Eq)]
pub struct QueuedFunction {
    pub function: CriticalFunction,
    /// The time from which on the action may be executed.
    pub execution_time: i64,
    /// Set once by a cancellation, never reset.
    pub cancelled: bool,
    /// The caller who queued the action.
    pub initiator: Pubkey,
    /// A second key that may cancel this action.
    pub delegate: Option<Pubkey>,
}

/// The whole state of one ledger account.
#[derive(Clone, Debug, PartialEq, Eq)]
pub struct ContractState {
    /// The scheduled actions in the order they were queued; an action's
    /// index is its handle for cancellation.
    pub queued_functions: Vec<QueuedFunction>,
    /// The account-level delegate.
    pub delegate: Option<Pubkey>,
}

impl ContractState {
    /// A state with no queued action and no delegate.
    pub fn new() -> (r: ContractState)
        ensures
            r.queued_functions@ == Seq::<QueuedFunction>::empty(),
            r.delegate.is_none(),
    {
        ContractState { queued_functions: Vec::new(), delegate: None }
    }
}

pub open spec fn enc_bool(b: bool) -> Seq<u8> {
    if b {
        seq![1u8]
    } else {
        seq![0u8]
    }
}

pub open spec fn enc_key(k: Pubkey) -> Seq<u8> {
    k.bytes@
}

pub open spec fn enc_opt_key(k: Option<Pubkey>) -> Seq<u8> {
    match k {
        None => seq![0u8],
        Some(k) => seq![1u8] + enc_key(k),
    }
}

pub open spec fn enc_function(f: CriticalFunction) -> Seq<u8> {
    match f {
        CriticalFunction::WithdrawAllFunds { amount, target_pubkey } => seq![0u8] + le_bytes(
            amount,
        ) + enc_key(target_pubkey),
        CriticalFunction::DeleteAccount => seq![1u8],
    }
}

pub open spec fn enc_queued(q: QueuedFunction) -> Seq<u8> {
    enc_function(q.function) + le_bytes(q.execution_time as u64) + enc_bool(q.cancelled)
        + enc_key(q.initiator) + enc_opt_key(q.delegate)
}

/// The records of `s`, one after the other.
pub open spec fn enc_queue(s: Seq<QueuedFunction>) -> Seq<u8>
    decreases s.len(),
{
    if s.len() == 0 {
        Seq::empty()
    } else {
        enc_queue(s.drop_last()) + enc_queued(s.last())
    }
}

/// The bytes that stand for a state with queue `q` and delegate `d`.
pub open spec fn enc_state(q: Seq<QueuedFunction>, d: Option<Pubkey>) -> Seq<u8> {
    le4_bytes(q.len() as u32) + enc_queue(q) + enc_opt_key(d)
}

fn append(out: &mut Vec<u8>, src: &[u8])
    ensures
        final(out)@ == old(out)@ + src@,
{
    let mut i: usize = 0;
    while i < src.len()
        invariant
            0 <= i <= src@.len(),
            out@ == old(out)@ + src@.subrange(0, i as int),
        decreases src@.len() - i,
    {
        out.push(src[i]);
        i = i + 1;
        assert(src@.subrange(0, i as int) =~= src@.subrange(0, i - 1) + seq![src@[i - 1]]);
    }
    assert(src@.subrange(0, i as int) =~= src@);
}

fn write_key(out: &mut Vec<u8>, k: &Pubkey)
    ensures
        final(out)@ == old(out)@ + enc_key(*k),
{
    append(out, k.bytes.as_slice());
}

fn write_opt_key(out: &mut Vec<u8>, k: &Option<Pubkey>)
    ensures
        final(out)@ == old(out)@ + enc_opt_key(*k),
{
    match k {
        None => out.push(0u8),
        Some(key) => {
            out.push(1u8);
            write_key(out, key);
            assert(final(out)@ =~= old(out)@ + enc_opt_key(*k));
        },
    }
}

fn write_queued(out: &mut Vec<u8>, q: &QueuedFunction)
    ensures
        final(out)@ == old(out)@ + enc_queued(*q),
{
    let ghost start = out@;
    match &q.function {
        CriticalFunction::WithdrawAllFunds { amount, target_pubkey } => {
            out.push(0u8);
            let a = write_u64_le(*amount);
            append(out, a.as_slice());
            write_key(out, target_pubkey);
        },
        CriticalFunction::DeleteAccount => {
            out.push(1u8);
        },
    }
    assert(out@ =~= start + enc_function(q.function));
    let t = write_u64_le(q.execution_time as u64);
    append(out, t.as_slice());
    out.push(if q.cancelled { 1u8 } else { 0u8 });
    write_key(out, &q.initiator);
    write_opt_key(out, &q.delegate);
    assert(out@ =~= start + enc_queued(*q));
}

/// The bytes that stand for `s`.
pub fn serialize(s: &ContractState) -> (r: Vec<u8>)
    requires
        s.queued_functions@.len() <= u32::MAX,
    ensures
        r@ == enc_state(s.queued_functions@, s.delegate),
{
    let n = s.queued_functions.len();
    let mut out = write_u32_le(n as u32);
    let mut i: usize = 0;
    while i < n
        invariant
            0 <= i <= n,
            n == s.queued_functions@.len(),
            out@ == le4_bytes(n as u32) + enc_queue(s.queued_functions@.subrange(0, i as int)),
        decreases n - i,
    {
        write_queued(&mut out, &s.queued_functions[i]);
        i = i + 1;
        let ghost pre = s.queued_functions@.subrange(0, i as int);
        assert(pre.drop_last() =~= s.queued_functions@.subrange(0, i - 1));
        assert(out@ =~= le4_bytes(n as u32) + enc_queue(pre));
    }
    assert(s.queued_functions@.subrange(0, n as int) =~= s.queued_functions@);
    write_opt_key(&mut out, &s.delegate);
    assert(out@ =~= enc_state(s.queued_functions@, s.delegate));
    out
}

/// The key whose bytes are `s` (of length 32).
pub open spec fn key_from(s: Seq<u8>) -> Pubkey {
    choose|k: Pubkey| k.bytes@ == s
}

pub open spec fn dec_key(b: Seq<u8>, p: int) -> Option<(Pubkey, int)> {
    if 0 <= p && p + 32 <= b.len() {
        Some((key_from(b.subrange(p, p + 32)), p + 32))
    } else {
        None
    }
}

pub open spec fn dec_opt_key(b: Seq<u8>, p: int) -> Option<(Option<Pubkey>, int)> {
    if 0 <= p < b.len() && b[p] == 0 {
        Some((None, p + 1))
    } else if 0 <= p < b.len() && b[p] == 1 {
        match dec_key(b, p + 1) {
            Some((k, p2)) => Some((Some(k), p2)),
            None => None,
        }
    } else {
        None
    }
}

pub open spec fn dec_u64(b: Seq<u8>, p: int) -> Option<(u64, int)> {
    if 0 <= p && p + 8 <= b.len() {
        Some((le_value(b.subrange(p, p + 8)), p + 8))
    } else {
        None
    }
}

pub open spec fn dec_function(b: Seq<u8>, p: int) -> Option<(CriticalFunction, int)> {
    if 0 <= p < b.len() && b[p] == 0 {
        match dec_u64(b, p + 1) {
            Some((amount, p2)) => match dec_key(b, p2) {
                Some((target_pubkey, p3)) => Some(
                    (CriticalFunction::WithdrawAllFunds { amount, target_pubkey }, p3),
                ),
                None => None,
            },
            None => None,
        }
    } else if 0 <= p < b.len() && b[p] == 1 {
        Some((CriticalFunction::DeleteAccount, p + 1))
    } else {
        None
    }
}

pub open spec fn dec_queued(b: Seq<u8>, p: int) -> Option<(QueuedFunction, int)> {
    match dec_function(b, p) {
        Some((function, p1)) => match dec_u64(b, p1) {
            Some((t, p2)) => if p2 < b.len() && (b[p2] == 0 || b[p2] == 1) {
                match dec_key(b, p2 + 1) {
                    Some((initiator, p3)) => match dec_opt_key(b, p3) {
                        Some((delegate, p4)) => Some(
                            (
                                QueuedFunction {
                                    function,
                                    execution_time: t as i64,
                                    cancelled: b[p2] == 1,
                                    initiator,
                                    delegate,
                                },
                                p4,
                            ),
                        ),
                        None => None,
                    },
                    None => None,
                }
            } else {
                None
            },
            None => None,
        },
        None => None,
    }
}

/// Reads `n` records from position `p` on.
pub open spec fn dec_queue(b: Seq<u8>, p: int, n: nat) -> Option<(Seq<QueuedFunction>, int)>
    decreases n,
{
    if n == 0 {
        Some((Seq::empty(), p))
    } else {
        match dec_queue(b, p, (n - 1) as nat) {
            Some((s, p1)) => match dec_queued(b, p1) {
                Some((q, p2)) => Some((s.push(q), p2)),
                None => None,
            },
            None => None,
        }
    }
}

/// The state that the leading bytes of `b` stand for, if they stand for
/// one; bytes past its end are not read.
pub open spec fn dec_state(b: Seq<u8>) -> Option<(Seq<QueuedFunction>, Option<Pubkey>)> {
    if 4 <= b.len() {
        match dec_queue(b, 4, le4_value(b.subrange(0, 4)) as nat) {
            Some((q, p)) => match dec_opt_key(b, p) {
                Some((d, _p2)) => Some((q, d)),
                None => None,
            },
            None => None,
        }
    } else {
        None
    }
}

pub(crate) fn read_key(b: &[u8], pos: usize) -> (r: Option<(Pubkey, usize)>)
    ensures
        match r {
            Some((k, p)) => dec_key(b@, pos as int) == Some((k, p as int)),
            None => dec_key(b@, pos as int) is None,
        },
{
    if pos > b.len() || b.len() - pos < KEY_LEN {
        return None;
    }
    let mut a = [0u8; 32];
    let mut i: usize = 0;
    while i < KEY_LEN
        invariant
            0 <= i <= KEY_LEN,
            pos + KEY_LEN <= b@.len(),
            b@.len() <= usize::MAX,
            forall|j: int| 0 <= j < i ==> a@[j] == b@[pos + j],
        decreases KEY_LEN - i,
    {
        a[i] = b[pos + i];
        i = i + 1;
    }
    let k = Pubkey { bytes: a };
    proof {
        broadcast use vstd::array::axiom_array_ext_equal;

        let s = b@.subrange(pos as int, pos + 32);
        assert(k.bytes@ =~= s);
        let c = key_from(s);
        assert(c.bytes@ == s);
        assert(c.bytes =~= k.bytes);
    }
    Some((k, pos + KEY_LEN))
}

fn read_opt_key(b: &[u8], pos: usize) -> (r: Option<(Option<Pubkey>, usize)>)
    ensures
        match r {
            Some((k, p)) => dec_opt_key(b@, pos as int) == Some((k, p as int)),
            None => dec_opt_key(b@, pos as int) is None,
        },
{
    if pos >= b.len() {
        None
    } else if b[pos] == 0 {
        Some((None, pos + 1))
    } else if b[pos] == 1 {
        match read_key(b, pos + 1) {
            Some((k, p)) => Some((Some(k), p)),
            None => None,
        }
    } else {
        None
    }
}

pub(crate) fn read_function(b: &[u8], pos: usize) -> (r: Option<(CriticalFunction, usize)>)
    ensures
        match r {
            Some((f, p)) => dec_function(b@, pos as int) == Some((f, p as int)),
            None => dec_function(b@, pos as int) is None,
        },
{
    if pos >= b.len() {
        None
    } else if b[pos] == 0 {
        if b.len() - (pos + 1) < 8 {
            return None;
        }
        let amount = read_u64_at(b, pos + 1);
        match read_key(b, pos + 9) {
            Some((target_pubkey, p)) => Some(
                (CriticalFunction::WithdrawAllFunds { amount, target_pubkey }, p),
            ),
            None => None,
        }
    } else if b[pos] == 1 {
        Some((CriticalFunction::DeleteAccount, pos + 1))
    } else {
        None
    }
}

fn read_queued(b: &[u8], pos: usize) -> (r: Option<(QueuedFunction, usize)>)
    ensures
        match r {
            Some((q, p)) => dec_queued(b@, pos as int) == Some((q, p as int)),
            None => dec_queued(b@, pos as int) is None,
        },
{
    let (function, p1) = match read_function(b, pos) {
        Some(x) => x,
        None => return None,
    };
    if b.len() - p1 < 9 {
        return None;
    }
    let t = read_i64_at(b, p1);
    let p2 = p1 + 8;
    let c = b[p2];
    if c != 0 && c != 1 {
        return None;
    }
    let (initiator, p3) = match read_key(b, p2 + 1) {
        Some(x) => x,
        None => return None,
    };
    let (delegate, p4) = match read_opt_key(b, p3) {
        Some(x) => x,
        None => return None,
    };
    Some((QueuedFunction { function, execution_time: t, cancelled: c == 1, initiator, delegate }, p4))
}

/// The state that the leading bytes of `b` stand for; `None` where they
/// stand for none. Bytes past the state's end are not read.
pub fn deserialize(b: &[u8]) -> (r: Option<ContractState>)
    ensures
        match r {
            Some(s) => dec_state(b@) == Some((s.queued_functions@, s.delegate)),
            None => dec_state(b@) is None,
        },
{
    if b.len() < 4 {
        return None;
    }
    let n = read_u32_at(b, 0);
    let mut v: Vec<QueuedFunction> = Vec::new();
    let mut pos: usize = 4;
    let mut i: u32 = 0;
    while i < n
        invariant
            0 <= i <= n,
            n == le4_value(b@.subrange(0, 4)),
            pos <= b@.len(),
            dec_queue(b@, 4, i as nat) == Some((v@, pos as int)),
        decreases n - i,
    {
        match read_queued(b, pos) {
            Some((q, p)) => {
                v.push(q);
                pos = p;
            },
            None => {
                proof {
                    lemma_dec_queue_stops(b@, i as nat, n as nat);
                }
                return None;
            },
        }
        i = i + 1;
    }
    match read_opt_key(b, pos) {
        Some((d, _p)) => Some(ContractState { queued_functions: v, delegate: d }),
        None => None,
    }
}

/// Once a record fails to read, reading more records fails too.
proof fn lemma_dec_queue_stops(b: Seq<u8>, i: nat, n: nat)
    requires
        i < n,
        dec_queue(b, 4, i) matches Some((_s, p)) && dec_queued(b, p) is None,
    ensures
        dec_queue(b, 4, n) is None,
    decreases n - i,
{
    if i + 1 < n {
        lemma_dec_queue_stops(b, i, (n - 1) as nat);
    }
}

/// `b` holds the bytes `x` from position `p` on.
pub open spec fn holds_at(b: Seq<u8>, p: int, x: Seq<u8>) -> bool {
    0 <= p && p + x.len() <= b.len() && b.subrange(p, p + x.len()) == x
}

proof fn lemma_holds_split(b: Seq<u8>, p: int, x: Seq<u8>, y: Seq<u8>)
    requires
        holds_at(b, p, x + y),
    ensures
        holds_at(b, p, x),
        holds_at(b, p + x.len(), y),
{
    let w = b.subrange(p, p + (x + y).len());
    assert forall|j: int| 0 <= j < x.len() implies b.subrange(p, p + x.len())[j] == x[j] by {
        assert(w[j] == (x + y)[j]);
    }
    assert forall|j: int| 0 <= j < y.len() implies b.subrange(
        p + x.len(),
        p + x.len() + y.len(),
    )[j] == y[j] by {
        assert(w[x.len() + j] == (x + y)[x.len() + j]);
    }
    assert(b.subrange(p, p + x.len()) =~= x);
    assert(b.subrange(p + x.len(), p + x.len() + y.len()) =~= y);
}

proof fn lemma_dec_key(b: Seq<u8>, p: int, k: Pubkey)
    requires
        holds_at(b, p, enc_key(k)),
    ensures
        dec_key(b, p) == Some((k, p + 32)),
{
    broadcast use vstd::array::axiom_array_ext_equal;

    let c = key_from(k.bytes@);
    assert(c.bytes@ == k.bytes@);
    assert(c.bytes =~= k.bytes);
}

proof fn lemma_dec_opt_key(b: Seq<u8>, p: int, k: Option<Pubkey>)
    requires
        holds_at(b, p, enc_opt_key(k)),
    ensures
        dec_opt_key(b, p) == Some((k, p + enc_opt_key(k).len())),
{
    assert(b[p] == enc_opt_key(k)[0]);
    if let Some(key) = k {
        lemma_holds_split(b, p, seq![1u8], enc_key(key));
        lemma_dec_key(b, p + 1, key);
    }
}

proof fn lemma_dec_u64(b: Seq<u8>, p: int, n: u64)
    requires
        holds_at(b, p, le_bytes(n)),
    ensures
        dec_u64(b, p) == Some((n, p + 8)),
{
    lemma_le_round_trip(n);
}

proof fn lemma_dec_function(b: Seq<u8>, p: int, f: CriticalFunction)
    requires
        holds_at(b, p, enc_function(f)),
    ensures
        dec_function(b, p) == Some((f, p + enc_function(f).len())),
{
    assert(b[p] == enc_function(f)[0]);
    if let CriticalFunction::WithdrawAllFunds { amount, target_pubkey } = f {
        lemma_holds_split(b, p, seq![0u8] + le_bytes(amount), enc_key(target_pubkey));
        lemma_holds_split(b, p, seq![0u8], le_bytes(amount));
        lemma_le_round_trip(amount);
        lemma_dec_u64(b, p + 1, amount);
        lemma_dec_key(b, p + 9, target_pubkey);
    }
}

proof fn lemma_dec_queued(b: Seq<u8>, p: int, q: QueuedFunction)
    requires
        holds_at(b, p, enc_queued(q)),
    ensures
        dec_queued(b, p) == Some((q, p + enc_queued(q).len())),
{
    let f = enc_function(q.function);
    let t = le_bytes(q.execution_time as u64);
    let c = enc_bool(q.cancelled);
    let i = enc_key(q.initiator);
    let d = enc_opt_key(q.delegate);
    lemma_le_round_trip(q.execution_time as u64);
    lemma_i64_round_trip(q.execution_time);
    lemma_holds_split(b, p, f + t + c + i, d);
    lemma_holds_split(b, p, f + t + c, i);
    lemma_holds_split(b, p, f + t, c);
    lemma_holds_split(b, p, f, t);
    lemma_dec_function(b, p, q.function);
    lemma_dec_u64(b, p + f.len(), q.execution_time as u64);
    let p2 = p + f.len() + 8;
    assert(b[p2] == c[0]);
    lemma_dec_key(b, p2 + 1, q.initiator);
    lemma_dec_opt_key(b, p2 + 33, q.delegate);
}

proof fn lemma_dec_queue(b: Seq<u8>, p: int, s: Seq<QueuedFunction>)
    requires
        holds_at(b, p, enc_queue(s)),
    ensures
        dec_queue(b, p, s.len()) == Some((s, p + enc_queue(s).len())),
    decreases s.len(),
{
    if s.len() > 0 {
        let init = s.drop_last();
        lemma_holds_split(b, p, enc_queue(init), enc_queued(s.last()));
        lemma_dec_queue(b, p, init);
        lemma_dec_queued(b, p + enc_queue(init).len(), s.last());
        assert(init.push(s.last()) =~= s);
    }
}

/// Reading a state back from its bytes, whatever follows them, gives the
/// same state.
pub proof fn lemma_state_round_trip(q: Seq<QueuedFunction>, d: Option<Pubkey>, rest: Seq<u8>)
    requires
        q.len() <= u32::MAX,
    ensures
        dec_state(enc_state(q, d) + rest) == Some((q, d)),
{
    let n = le4_bytes(q.len() as u32);
    let b = enc_state(q, d) + rest;
    lemma_le4_round_trip(q.len() as u32);
    assert(b =~= n + enc_queue(q) + enc_opt_key(d) + rest);
    assert(holds_at(b, 0, n + enc_queue(q) + enc_opt_key(d))) by {
        assert(b.subrange(0, (n + enc_queue(q) + enc_opt_key(d)).len() as int) =~= n + enc_queue(
            q,
        ) + enc_opt_key(d));
    }
    lemma_holds_split(b, 0, n + enc_queue(q), enc_opt_key(d));
    lemma_holds_split(b, 0, n, enc_queue(q));
    lemma_dec_queue(b, 4, q);
    lemma_dec_opt_key(b, 4 + enc_queue(q).len() as int, d);
}

} // verus!
