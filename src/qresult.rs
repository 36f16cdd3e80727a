//! The result record handed to callers for a finished operation.
use vstd::prelude::*;

use crate::memory::{into_sgarray, SgArray};
use crate::operations::OperationResult;
use crate::types::{sockaddr_of, spec_sockaddr_of, spec_zero_sockaddr, QDesc, SockaddrIn};

verus! {

/// The kind of a result record.
#[derive(Clone, Copy, Debug, PartialEq, Eq, Structural)]
pub enum Opcode {
    Connect,
    Accept,
    Push,
    Pop,
    Failed,
}

/// The payload of a result record.
#[derive(Debug)]
pub enum QResultValue {
    /// No payload: a connect, a push, or a failure.
    Empty,
    /// The descriptor of an accepted connection and its peer's address.
    Accept { qd: QDesc, addr: SockaddrIn },
    /// The bytes that were read, with the sender's address if known.
    Sga(SgArray),
}

/// The record that describes a finished operation.
#[derive(Debug)]
pub struct QResult {
    pub opcode: Opcode,
    /// The queue descriptor the operation was issued on.
    pub qd: QDesc,
    /// The token the operation was issued under.
    pub qt: u64,
    pub value: QResultValue,
}

/// `q` is the record for `result` of an operation issued on `qd` under `qt`.
pub open spec fn packs(result: OperationResult, qd: QDesc, qt: u64, q: QResult) -> bool {
    &&& q.qd == qd
    &&& q.qt == qt
    &&& match result {
        OperationResult::Connect => q.opcode == Opcode::Connect && q.value is Empty,
        OperationResult::Accept(new_qd) => {
            &&& q.opcode == Opcode::Accept
            &&& q.value == (QResultValue::Accept { qd: new_qd, addr: spec_zero_sockaddr() })
        },
        OperationResult::Push => q.opcode == Opcode::Push && q.value is Empty,
        OperationResult::Pop(addr, bytes) => {
            &&& q.opcode == Opcode::Pop
            &&& q.value matches QResultValue::Sga(sga)
            &&& sga.segments@.len() == 1
            &&& sga.segments@[0]@ == bytes@
            &&& sga.addr == match addr {
                Some(ep) => Some(spec_sockaddr_of(ep)),
                None => None,
            }
        },
        OperationResult::Failed(_) => q.opcode == Opcode::Failed && q.value is Empty,
    }
}

/// Packs the result of an operation issued on `qd` under `qt` into a record.
/// Read bytes travel as a one-segment array carrying the sender's address.
pub fn pack_result(result: OperationResult, qd: QDesc, qt: u64) -> (r: QResult)
    ensures
        packs(result, qd, qt, r),
{
    match result {
        OperationResult::Connect => QResult {
            opcode: Opcode::Connect,
            qd,
            qt,
            value: QResultValue::Empty,
        },
        OperationResult::Accept(new_qd) => QResult {
            opcode: Opcode::Accept,
            qd,
            qt,
            value: QResultValue::Accept {
                qd: new_qd,
                addr: SockaddrIn { family: 0, port: 0, addr: 0 },
            },
        },
        OperationResult::Push => QResult { opcode: Opcode::Push, qd, qt, value: QResultValue::Empty },
        OperationResult::Pop(addr, bytes) => {
            let saddr: Option<SockaddrIn> = match addr {
                Some(ep) => Some(sockaddr_of(ep)),
                None => None,
            };
            QResult { opcode: Opcode::Pop, qd, qt, value: QResultValue::Sga(into_sgarray(bytes, saddr)) }
        },
        OperationResult::Failed(_) => QResult {
            opcode: Opcode::Failed,
            qd,
            qt,
            value: QResultValue::Empty,
        },
    }
}

} // verus!
