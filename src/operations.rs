//! The five asynchronous operations and the state machine that drives each of
//! them from issue to result.
use vstd::prelude::*;

use crate::fail::Fail;
use crate::types::{Ipv4Endpoint, QDesc, RawFd};

verus! {

/// Size of the buffer that a receive asks for.
pub const RECV_BUFFER_SIZE: usize = 9000;

/// How the kernel is asked for I/O.
#[derive(Clone, Copy, Debug, PartialEq, Eq, Structural)]
pub enum Backend {
    /// Readiness: a non-blocking call is attempted again on every tick until
    /// it stops reporting "not ready".
    Catnap,
    /// Completion: a transfer is submitted once and its completion is awaited.
    Catcollar,
}

/// What a finished operation produced.
#[derive(Debug)]
pub enum OperationResult {
    Connect,
    Accept(QDesc),
    Push,
    Pop(Option<Ipv4Endpoint>, Vec<u8>),
    Failed(Fail),
}

/// An operation together with what it needs to run.
#[derive(Debug)]
pub enum Operation {
    /// Accepts a connection on `fd`; `new_qd` was reserved for it at issue.
    Accept { qd: QDesc, fd: RawFd, new_qd: QDesc },
    Connect { qd: QDesc, fd: RawFd, remote: Ipv4Endpoint },
    /// Writes `buf`, of which the first `sent` bytes are already written.
    Push { qd: QDesc, fd: RawFd, buf: Vec<u8>, sent: usize },
    Pushto { qd: QDesc, fd: RawFd, remote: Ipv4Endpoint, buf: Vec<u8> },
    Pop { qd: QDesc, fd: RawFd },
}

/// How far an operation has come.
#[derive(Debug)]
pub enum Progress {
    /// Waiting to be attempted (readiness) or submitted (completion).
    Idle,
    /// Submitted once; waiting for its completion.
    InFlight,
    /// Finished, with its result and, for an accepted connection, its handle.
    Done(OperationResult, Option<RawFd>),
}

/// A scheduled operation.
#[derive(Debug)]
pub struct Task {
    pub op: Operation,
    pub progress: Progress,
}

/// The I/O that the driver is asked to perform for a task.
#[derive(Debug)]
pub enum IoRequest {
    Accept { fd: RawFd },
    Connect { fd: RawFd, remote: Ipv4Endpoint },
    Send { fd: RawFd, bytes: Vec<u8> },
    SendTo { fd: RawFd, remote: Ipv4Endpoint, bytes: Vec<u8> },
    Recv { fd: RawFd, capacity: usize },
}

/// What the driver observed when it performed an `IoRequest`.
#[derive(Debug)]
pub enum IoOutcome {
    /// Not ready yet; the task stays where it was.
    WouldBlock,
    Accepted(RawFd),
    Connected,
    /// This many bytes were written.
    Sent(usize),
    Received(Option<Ipv4Endpoint>, Vec<u8>),
    /// The system call failed with this error number.
    Failed(i32),
}

impl Operation {
    /// The queue descriptor that the operation was issued on.
    pub open spec fn spec_qd(&self) -> QDesc {
        match *self {
            Operation::Accept { qd, .. } => qd,
            Operation::Connect { qd, .. } => qd,
            Operation::Push { qd, .. } => qd,
            Operation::Pushto { qd, .. } => qd,
            Operation::Pop { qd, .. } => qd,
        }
    }

    /// A push never counts more bytes written than it holds.
    pub open spec fn wf(&self) -> bool {
        self matches Operation::Push { buf, sent, .. } ==> sent <= buf.len()
    }

    /// Whether the backend submits this operation once instead of retrying it.
    pub open spec fn submitted_once(&self, backend: Backend) -> bool {
        backend == Backend::Catcollar && (self is Push || self is Pushto || self is Pop)
    }

    /// The request that performs this operation.
    pub open spec fn requests(&self, req: IoRequest) -> bool {
        match *self {
            Operation::Accept { fd, .. } => req matches IoRequest::Accept { fd: f } && f == fd,
            Operation::Connect { fd, remote, .. } => req matches IoRequest::Connect {
                fd: f,
                remote: r,
            } && f == fd && r == remote,
            Operation::Push { fd, buf, sent, .. } => req matches IoRequest::Send { fd: f, bytes }
                && f == fd && bytes@ == buf@.subrange(sent as int, buf.len() as int),
            Operation::Pushto { fd, remote, buf, .. } => req matches IoRequest::SendTo {
                fd: f,
                remote: r,
                bytes,
            } && f == fd && r == remote && bytes@ == buf@,
            Operation::Pop { fd, .. } => req matches IoRequest::Recv { fd: f, capacity }
                && f == fd && capacity == RECV_BUFFER_SIZE,
        }
    }

    /// The queue descriptor that the operation was issued on.
    pub fn qd(&self) -> (r: QDesc)
        ensures
            r == self.spec_qd(),
    {
        match self {
            Operation::Accept { qd, .. } => *qd,
            Operation::Connect { qd, .. } => *qd,
            Operation::Push { qd, .. } => *qd,
            Operation::Pushto { qd, .. } => *qd,
            Operation::Pop { qd, .. } => *qd,
        }
    }

    /// Whether the backend submits this operation once instead of retrying it.
    pub fn is_submitted_once(&self, backend: Backend) -> (r: bool)
        ensures
            r == self.submitted_once(backend),
    {
        match backend {
            Backend::Catnap => false,
            Backend::Catcollar => match self {
                Operation::Accept { .. } | Operation::Connect { .. } => false,
                _ => true,
            },
        }
    }

    /// Builds the request that performs this operation.
    pub fn request(&self) -> (r: IoRequest)
        requires
            self.wf(),
        ensures
            self.requests(r),
    {
        match self {
            Operation::Accept { fd, .. } => IoRequest::Accept { fd: *fd },
            Operation::Connect { fd, remote, .. } => IoRequest::Connect {
                fd: *fd,
                remote: *remote,
            },
            Operation::Push { fd, buf, sent, .. } => IoRequest::Send {
                fd: *fd,
                bytes: copy_from(buf, *sent),
            },
            Operation::Pushto { fd, remote, buf, .. } => IoRequest::SendTo {
                fd: *fd,
                remote: *remote,
                bytes: buf.clone(),
            },
            Operation::Pop { fd, .. } => IoRequest::Recv { fd: *fd, capacity: RECV_BUFFER_SIZE },
        }
    }
}

impl Task {
    /// The task's operation is well formed.
    pub open spec fn wf(&self) -> bool {
        self.op.wf()
    }

    /// Whether the task has produced its result.
    pub open spec fn is_done(&self) -> bool {
        self.progress is Done
    }

    /// `r` is what the task becomes once `outcome` is applied to it.
    ///
    /// A finished task ignores further outcomes, and so does a pending one for
    /// an outcome that does not belong to its kind of operation. A failed call
    /// finishes the task with that error. Under readiness a short send leaves
    /// the task pending, with the bytes sent so far counted; under completion
    /// the send's completion finishes it.
    pub open spec fn advances_to(self, backend: Backend, outcome: IoOutcome, r: Task) -> bool {
        if self.is_done() {
            r == self
        } else {
            match outcome {
                IoOutcome::WouldBlock => r == self,
                IoOutcome::Failed(e) => {
                    &&& r.op == self.op
                    &&& r.progress matches Progress::Done(OperationResult::Failed(f), None)
                    &&& f.errno == e
                },
                IoOutcome::Accepted(new_fd) => match self.op {
                    Operation::Accept { new_qd, .. } => {
                        &&& r.op == self.op
                        &&& r.progress == Progress::Done(OperationResult::Accept(new_qd), Some(new_fd))
                    },
                    _ => r == self,
                },
                IoOutcome::Connected => if self.op is Connect {
                    r.op == self.op && r.progress == Progress::Done(OperationResult::Connect, None)
                } else {
                    r == self
                },
                IoOutcome::Sent(n) => match self.op {
                    Operation::Push { qd, fd, buf, sent } => if backend == Backend::Catcollar || n
                        >= buf.len() - sent {
                        r.op == self.op && r.progress == Progress::Done(OperationResult::Push, None)
                    } else {
                        &&& r.op == Operation::Push { qd, fd, buf, sent: (sent + n) as usize }
                        &&& r.progress == self.progress
                    },
                    Operation::Pushto { .. } => {
                        r.op == self.op && r.progress == Progress::Done(OperationResult::Push, None)
                    },
                    _ => r == self,
                },
                IoOutcome::Received(addr, bytes) => if self.op is Pop {
                    r.op == self.op && r.progress == Progress::Done(
                        OperationResult::Pop(addr, bytes),
                        None,
                    )
                } else {
                    r == self
                },
            }
        }
    }

    /// Moves the task on by the outcome of its I/O.
    pub fn advance(self, backend: Backend, outcome: IoOutcome) -> (r: Task)
        requires
            self.wf(),
        ensures
            r.wf(),
            r.op.spec_qd() == self.op.spec_qd(),
            (self.op is Accept || r.op is Accept) ==> r.op == self.op,
            self.advances_to(backend, outcome, r),
    {
        if let Progress::Done(..) = self.progress {
            return self;
        }
        match outcome {
            IoOutcome::WouldBlock => self,
            IoOutcome::Failed(e) => Task {
                op: self.op,
                progress: Progress::Done(
                    OperationResult::Failed(Fail::new(e, "operation failed")),
                    None,
                ),
            },
            IoOutcome::Accepted(new_fd) => match self.op {
                Operation::Accept { qd, fd, new_qd } => Task {
                    op: Operation::Accept { qd, fd, new_qd },
                    progress: Progress::Done(OperationResult::Accept(new_qd), Some(new_fd)),
                },
                op => Task { op, progress: self.progress },
            },
            IoOutcome::Connected => match self.op {
                Operation::Connect { qd, fd, remote } => Task {
                    op: Operation::Connect { qd, fd, remote },
                    progress: Progress::Done(OperationResult::Connect, None),
                },
                op => Task { op, progress: self.progress },
            },
            IoOutcome::Sent(n) => match self.op {
                Operation::Push { qd, fd, buf, sent } => {
                    if backend == Backend::Catcollar || n >= buf.len() - sent {
                        Task {
                            op: Operation::Push { qd, fd, buf, sent },
                            progress: Progress::Done(OperationResult::Push, None),
                        }
                    } else {
                        Task { op: Operation::Push { qd, fd, buf, sent: sent + n }, progress: self.progress }
                    }
                },
                Operation::Pushto { qd, fd, remote, buf } => Task {
                    op: Operation::Pushto { qd, fd, remote, buf },
                    progress: Progress::Done(OperationResult::Push, None),
                },
                op => Task { op, progress: self.progress },
            },
            IoOutcome::Received(addr, bytes) => match self.op {
                Operation::Pop { qd, fd } => Task {
                    op: Operation::Pop { qd, fd },
                    progress: Progress::Done(OperationResult::Pop(addr, bytes), None),
                },
                op => Task { op, progress: self.progress },
            },
        }
    }
}

/// The bytes of `buf` from position `from` on.
fn copy_from(buf: &Vec<u8>, from: usize) -> (r: Vec<u8>)
    requires
        from <= buf.len(),
    ensures
        r@ == buf@.subrange(from as int, buf.len() as int),
{
    let mut r: Vec<u8> = Vec::new();
    let mut i: usize = from;
    while i < buf.len()
        invariant
            from <= i <= buf.len(),
            r@ == buf@.subrange(from as int, i as int),
        decreases buf.len() - i,
    {
        r.push(buf[i]);
        i = i + 1;
    }
    r
}

} // verus!
