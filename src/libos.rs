//! The socket engine: queue descriptors, the socket registry, and the
//! scheduled operations, with the backend chosen at construction.
//!
//! The engine performs no system call. Each call either decides on its own or
//! returns what the driver must do; the driver performs it and reports back.
use std::collections::HashMap;
use vstd::prelude::*;

use crate::fail::{fails_with, Fail, EAGAIN, EBADF, EINVAL, ENFILE, ENOTSUP};
use crate::memory::{clone_sgarray, SgArray};
use crate::operations::{Backend, IoOutcome, IoRequest, Operation, OperationResult, Progress, Task};
use crate::qresult::{pack_result, packs, QResult};
use crate::queue::IoQueueTable;
use crate::scheduler::{Scheduler, SchedulerHandle};
use crate::types::{Ipv4Endpoint, QDesc, QToken, QType, RawFd, AF_INET, SOCK_DGRAM, SOCK_STREAM};

verus! {

broadcast use vstd::std_specs::hash::group_hash_axioms;

/// The abstract state of the engine.
pub struct LibOSView {
    pub backend: Backend,
    /// Allocated queue descriptors and their types.
    pub qtable: Map<u32, QType>,
    /// The next queue descriptor to be handed out.
    pub next_qd: nat,
    /// The socket registry: live sockets and their native handles.
    pub sockets: Map<u32, RawFd>,
    /// Scheduled operations, by token.
    pub tasks: Map<u64, Task>,
    /// The next token to be handed out.
    pub next_task: nat,
    /// The most operations scheduled at once.
    pub max_tasks: nat,
}

impl LibOSView {
    /// No further operation can be scheduled.
    pub open spec fn saturated(self) -> bool {
        self.tasks.len() >= self.max_tasks || self.next_task == u64::MAX
    }

    /// Reserves the next queue descriptor for a queue of type `qtype`.
    pub open spec fn reserve(self, qtype: QType) -> LibOSView {
        LibOSView {
            qtable: self.qtable.insert(self.next_qd as u32, qtype),
            next_qd: self.next_qd + 1,
            ..self
        }
    }

    /// Schedules `task` under the next token.
    pub open spec fn schedule(self, task: Task) -> LibOSView {
        LibOSView {
            tasks: self.tasks.insert(self.next_task as u64, task),
            next_task: self.next_task + 1,
            ..self
        }
    }

    /// The registry's handle for `qd`, if it is a live socket.
    pub open spec fn socket_of(self, qd: QDesc) -> Option<RawFd> {
        if self.sockets.contains_key(qd.0) {
            Some(self.sockets[qd.0])
        } else {
            None
        }
    }

    /// The state once the finished task under `key` is taken out: an
    /// accepted connection is registered under its reserved descriptor, and a
    /// reservation whose accept produced no connection is released.
    pub open spec fn taken(self, key: u64) -> LibOSView {
        let t = self.tasks[key];
        let rest = LibOSView { tasks: self.tasks.remove(key), ..self };
        match t.op {
            Operation::Accept { new_qd, .. } => match accepted_fd(t) {
                Some(fd) => LibOSView { sockets: rest.sockets.insert(new_qd.0, fd), ..rest },
                None => LibOSView { qtable: rest.qtable.remove(new_qd.0), ..rest },
            },
            _ => rest,
        }
    }

    /// The handle that token `qt` turns back into, if it names a scheduled
    /// operation.
    pub open spec fn handle_of(self, qt: QToken) -> Option<SchedulerHandle> {
        if self.tasks.contains_key(qt.0) {
            Some(SchedulerHandle(qt.0))
        } else {
            None
        }
    }

    /// The task behind `h` has produced its result.
    pub open spec fn completed(self, h: SchedulerHandle) -> bool {
        self.tasks.contains_key(h.0) && self.tasks[h.0].is_done()
    }
}

/// The native handle that a finished accept produced, if any.
pub open spec fn accepted_fd(t: Task) -> Option<RawFd> {
    match t.progress {
        Progress::Done(_, fd) => fd,
        _ => None,
    }
}

/// A freshly issued task.
pub open spec fn idle(op: Operation) -> Task {
    Task { op, progress: Progress::Idle }
}

/// `after` is `before` with one more task scheduled under the next token, and
/// `r` carries that token.
pub open spec fn scheduled(before: LibOSView, after: LibOSView, r: Result<QToken, Fail>) -> bool {
    &&& r == Ok::<QToken, Fail>(QToken(before.next_task as u64))
    &&& after == before.schedule(after.tasks[before.next_task as u64])
}

/// `task` is a fresh push of `data` on socket `qd`, whose handle is `fd`.
pub open spec fn is_push(task: Task, qd: QDesc, fd: RawFd, data: Seq<u8>) -> bool {
    &&& task.progress is Idle
    &&& task.op matches Operation::Push { qd: q, fd: f, buf, sent }
    &&& q == qd && f == fd && buf@ == data && sent == 0
}

/// `task` is a fresh push of `data` to `remote` on socket `qd`, whose handle
/// is `fd`.
pub open spec fn is_pushto(
    task: Task,
    qd: QDesc,
    fd: RawFd,
    remote: Ipv4Endpoint,
    data: Seq<u8>,
) -> bool {
    &&& task.progress is Idle
    &&& task.op matches Operation::Pushto { qd: q, fd: f, remote: a, buf }
    &&& q == qd && f == fd && a == remote && buf@ == data
}

/// A scheduled operation can be found again from the token it was issued
/// under: the handle that the token turns back into is the one the operation
/// was scheduled under, and it reaches the same task.
pub proof fn lemma_token_round_trip(before: LibOSView, task: Task)
    ensures
        ({
            let after = before.schedule(task);
            let qt = QToken(before.next_task as u64);
            &&& after.handle_of(qt) == Some(SchedulerHandle(qt.0))
            &&& after.tasks[SchedulerHandle(qt.0).0] == task
        }),
{
}

/// Once an accept has run and its result is taken, a connection that was
/// accepted is registered under the descriptor reserved for it, bound to the
/// accepted handle; if the accept failed instead, the reserved descriptor is
/// no longer allocated.
pub proof fn lemma_accept_outcome(
    s: LibOSView,
    key: u64,
    qd: QDesc,
    fd: RawFd,
    new_qd: QDesc,
    outcome: IoOutcome,
    done: Task,
)
    requires
        s.tasks.contains_key(key),
        s.tasks[key] == idle(Operation::Accept { qd, fd, new_qd }),
        s.tasks[key].advances_to(s.backend, outcome, done),
    ensures
        ({
            let after = LibOSView { tasks: s.tasks.insert(key, done), ..s }.taken(key);
            match outcome {
                IoOutcome::Accepted(new_fd) => after.sockets.contains_key(new_qd.0)
                    && after.sockets[new_qd.0] == new_fd,
                IoOutcome::Failed(_) => !after.qtable.contains_key(new_qd.0),
                _ => true,
            }
        }),
{
}

/// The engine.
pub struct NetworkLibOS {
    backend: Backend,
    qtable: IoQueueTable,
    sockets: HashMap<u32, RawFd>,
    scheduler: Scheduler<Task>,
}

impl View for NetworkLibOS {
    type V = LibOSView;

    closed spec fn view(&self) -> LibOSView {
        LibOSView {
            backend: self.backend,
            qtable: self.qtable.entries(),
            next_qd: self.qtable.next_id(),
            sockets: self.sockets@,
            tasks: self.scheduler.tasks(),
            next_task: self.scheduler.next_key(),
            max_tasks: self.scheduler.capacity(),
        }
    }
}

impl NetworkLibOS {
    /// Every registered socket and every reserved accept descriptor was handed
    /// out by the descriptor table, and every task is well formed.
    pub closed spec fn wf(&self) -> bool {
        &&& self.qtable.wf()
        &&& self.scheduler.wf()
        &&& forall|k: u32| #[trigger]
            self.sockets@.contains_key(k) ==> k < self.qtable.next_id()
        &&& forall|t: u64| #[trigger]
            self.scheduler.tasks().contains_key(t) ==> self.scheduler.tasks()[t].wf()
                && (self.scheduler.tasks()[t].op matches Operation::Accept { new_qd, .. }
                ==> new_qd.0 < self.qtable.next_id())
    }

    /// Creates an engine on the given backend that holds at most `max_tasks`
    /// scheduled operations.
    pub fn new(backend: Backend, max_tasks: usize) -> (r: NetworkLibOS)
        ensures
            r.wf(),
            r@.backend == backend,
            r@.qtable == Map::<u32, QType>::empty(),
            r@.next_qd == 0,
            r@.sockets == Map::<u32, RawFd>::empty(),
            r@.tasks == Map::<u64, Task>::empty(),
            r@.next_task == 0,
            r@.max_tasks == max_tasks,
    {
        NetworkLibOS {
            backend,
            qtable: IoQueueTable::new(),
            sockets: HashMap::new(),
            scheduler: Scheduler::new(max_tasks),
        }
    }

    /// Decides which socket `socket(domain, typ, protocol)` creates: only IPv4
    /// stream and datagram sockets are supported. Nothing is allocated here.
    pub fn socket(&self, domain: i32, typ: i32, _protocol: i32) -> (r: Result<QType, Fail>)
        ensures
            domain != AF_INET ==> fails_with(r, ENOTSUP),
            domain == AF_INET && typ == SOCK_STREAM ==> r == Ok::<QType, Fail>(QType::TcpSocket),
            domain == AF_INET && typ == SOCK_DGRAM ==> r == Ok::<QType, Fail>(QType::UdpSocket),
            domain == AF_INET && typ != SOCK_STREAM && typ != SOCK_DGRAM ==> fails_with(r, ENOTSUP),
    {
        if domain != AF_INET {
            return Err(Fail::new(ENOTSUP, "communication domain not supported"));
        }
        if typ == SOCK_STREAM {
            Ok(QType::TcpSocket)
        } else if typ == SOCK_DGRAM {
            Ok(QType::UdpSocket)
        } else {
            Err(Fail::new(ENOTSUP, "socket type not supported"))
        }
    }

    /// Takes in the outcome of creating a native socket of type `qtype`: on
    /// success, allocates a fresh queue descriptor and registers the handle
    /// under it. A failed creation, or an exhausted descriptor table, changes
    /// nothing.
    pub fn register_socket(&mut self, qtype: QType, created: Result<RawFd, i32>) -> (r: Result<
        QDesc,
        Fail,
    >)
        requires
            old(self).wf(),
        ensures
            final(self).wf(),
            match created {
                Err(errno) => fails_with(r, errno) && final(self)@ == old(self)@,
                Ok(fd) => if old(self)@.next_qd == u32::MAX {
                    fails_with(r, ENFILE) && final(self)@ == old(self)@
                } else {
                    r matches Ok(qd) && {
                        &&& qd.0 == old(self)@.next_qd
                        &&& !old(self)@.qtable.contains_key(qd.0)
                        &&& !old(self)@.sockets.contains_key(qd.0)
                        &&& final(self)@ == (LibOSView {
                            sockets: old(self)@.sockets.insert(qd.0, fd),
                            ..old(self)@.reserve(qtype)
                        })
                    }
                },
            },
    {
        match created {
            Ok(fd) => match self.qtable.allocate(qtype) {
                Some(qd) => {
                    self.sockets.insert(qd.0, fd);
                    Ok(qd)
                },
                None => Err(Fail::new(ENFILE, "too many queue descriptors")),
            },
            Err(errno) => Err(Fail::new(errno, "failed to create socket")),
        }
    }

    /// The native handle of a live socket.
    fn lookup(&self, qd: QDesc) -> (r: Option<RawFd>)
        ensures
            r == self@.socket_of(qd),
    {
        match self.sockets.get(&qd.0) {
            Some(fd) => Some(*fd),
            None => None,
        }
    }

    /// The native handle that `bind` acts on.
    pub fn bind(&self, qd: QDesc) -> (r: Result<RawFd, Fail>)
        ensures
            match self@.socket_of(qd) {
                Some(fd) => r == Ok::<RawFd, Fail>(fd),
                None => fails_with(r, EBADF),
            },
    {
        match self.lookup(qd) {
            Some(fd) => Ok(fd),
            None => Err(Fail::new(EBADF, "invalid queue descriptor")),
        }
    }

    /// The native handle that `listen` acts on.
    pub fn listen(&self, qd: QDesc) -> (r: Result<RawFd, Fail>)
        ensures
            match self@.socket_of(qd) {
                Some(fd) => r == Ok::<RawFd, Fail>(fd),
                None => fails_with(r, EBADF),
            },
    {
        match self.lookup(qd) {
            Some(fd) => Ok(fd),
            None => Err(Fail::new(EBADF, "invalid queue descriptor")),
        }
    }

    /// Removes a socket from the registry and hands back its native handle,
    /// which the caller closes exactly once. The queue descriptor itself stays
    /// allocated and is never handed out again.
    pub fn close(&mut self, qd: QDesc) -> (r: Result<RawFd, Fail>)
        requires
            old(self).wf(),
        ensures
            final(self).wf(),
            match old(self)@.socket_of(qd) {
                Some(fd) => {
                    &&& r == Ok::<RawFd, Fail>(fd)
                    &&& final(self)@ == (LibOSView {
                        sockets: old(self)@.sockets.remove(qd.0),
                        ..old(self)@
                    })
                },
                None => fails_with(r, EBADF) && final(self)@ == old(self)@,
            },
    {
        match self.sockets.remove(&qd.0) {
            Some(fd) => Ok(fd),
            None => {
                assert(self.sockets@ =~= old(self).sockets@);
                Err(Fail::new(EBADF, "invalid queue descriptor"))
            },
        }
    }

    /// Schedules an operation under the next token.
    fn schedule_task(&mut self, op: Operation) -> (r: Result<QToken, Fail>)
        requires
            old(self).wf(),
            op.wf(),
            op matches Operation::Accept { new_qd, .. } ==> new_qd.0 < old(self)@.next_qd,
        ensures
            final(self).wf(),
            old(self)@.saturated() ==> fails_with(r, EAGAIN) && final(self)@ == old(self)@,
            !old(self)@.saturated() ==> r == Ok::<QToken, Fail>(QToken(old(self)@.next_task as u64))
                && final(self)@ == old(self)@.schedule(idle(op)),
    {
        let task = Task { op, progress: Progress::Idle };
        match self.scheduler.insert(task) {
            Some(h) => Ok(QToken(h.into_raw())),
            None => Err(Fail::new(EAGAIN, "cannot schedule co-routine")),
        }
    }

    /// Schedules accepting a connection on a listening socket. A queue
    /// descriptor for the connection is reserved at once; if the operation
    /// cannot be scheduled, the reservation is released before the error is
    /// returned.
    pub fn accept(&mut self, qd: QDesc) -> (r: Result<QToken, Fail>)
        requires
            old(self).wf(),
        ensures
            final(self).wf(),
            match old(self)@.socket_of(qd) {
                None => fails_with(r, EBADF) && final(self)@ == old(self)@,
                Some(fd) => if old(self)@.next_qd == u32::MAX {
                    fails_with(r, ENFILE) && final(self)@ == old(self)@
                } else if old(self)@.saturated() {
                    &&& fails_with(r, EAGAIN)
                    &&& final(self)@ == (LibOSView { next_qd: old(self)@.next_qd + 1, ..old(self)@ })
                    &&& !final(self)@.qtable.contains_key(old(self)@.next_qd as u32)
                } else {
                    &&& r == Ok::<QToken, Fail>(QToken(old(self)@.next_task as u64))
                    &&& final(self)@ == old(self)@.reserve(QType::TcpSocket).schedule(
                        idle(Operation::Accept { qd, fd, new_qd: QDesc(old(self)@.next_qd as u32) }),
                    )
                },
            },
    {
        let fd: RawFd = match self.lookup(qd) {
            Some(fd) => fd,
            None => return Err(Fail::new(EBADF, "invalid queue descriptor")),
        };
        let new_qd: QDesc = match self.qtable.allocate(QType::TcpSocket) {
            Some(new_qd) => new_qd,
            None => return Err(Fail::new(ENFILE, "too many queue descriptors")),
        };
        match self.schedule_task(Operation::Accept { qd, fd, new_qd }) {
            Ok(qt) => Ok(qt),
            Err(e) => {
                self.qtable.free(new_qd);
                assert(self.qtable.entries() =~= old(self).qtable.entries());
                assert(!old(self).qtable.entries().contains_key(new_qd.0));
                Err(e)
            },
        }
    }

    /// Schedules connecting a socket to a remote endpoint.
    pub fn connect(&mut self, qd: QDesc, remote: Ipv4Endpoint) -> (r: Result<QToken, Fail>)
        requires
            old(self).wf(),
        ensures
            final(self).wf(),
            match old(self)@.socket_of(qd) {
                None => fails_with(r, EBADF) && final(self)@ == old(self)@,
                Some(fd) => if old(self)@.saturated() {
                    fails_with(r, EAGAIN) && final(self)@ == old(self)@
                } else {
                    &&& r == Ok::<QToken, Fail>(QToken(old(self)@.next_task as u64))
                    &&& final(self)@ == old(self)@.schedule(
                        idle(Operation::Connect { qd, fd, remote }),
                    )
                },
            },
    {
        match self.lookup(qd) {
            Some(fd) => self.schedule_task(Operation::Connect { qd, fd, remote }),
            None => Err(Fail::new(EBADF, "invalid queue descriptor")),
        }
    }

    /// Schedules writing the bytes of `sga` to a socket. A malformed or empty
    /// buffer is rejected before the queue descriptor is looked at.
    pub fn push(&mut self, qd: QDesc, sga: &SgArray) -> (r: Result<QToken, Fail>)
        requires
            old(self).wf(),
        ensures
            final(self).wf(),
            sga.segments@.len() != 1 ==> fails_with(r, EINVAL) && final(self)@ == old(self)@,
            sga.segments@.len() == 1 && sga.segments@[0]@.len() == 0 ==> fails_with(r, EINVAL)
                && final(self)@ == old(self)@,
            sga.segments@.len() == 1 && sga.segments@[0]@.len() > 0 ==> match old(
                self,
            )@.socket_of(qd) {
                None => fails_with(r, EBADF) && final(self)@ == old(self)@,
                Some(fd) => if old(self)@.saturated() {
                    fails_with(r, EAGAIN) && final(self)@ == old(self)@
                } else {
                    &&& scheduled(old(self)@, final(self)@, r)
                    &&& is_push(
                        final(self)@.tasks[old(self)@.next_task as u64],
                        qd,
                        fd,
                        sga.segments@[0]@,
                    )
                },
            },
    {
        let buf: Vec<u8> = match clone_sgarray(sga) {
            Ok(buf) => buf,
            Err(e) => return Err(e),
        };
        if buf.len() == 0 {
            return Err(Fail::new(EINVAL, "zero-length buffer"));
        }
        match self.lookup(qd) {
            Some(fd) => self.schedule_task(Operation::Push { qd, fd, buf, sent: 0 }),
            None => Err(Fail::new(EBADF, "invalid queue descriptor")),
        }
    }

    /// Schedules sending the bytes of `sga` to `remote`. A malformed or empty
    /// buffer is rejected before the queue descriptor is looked at.
    pub fn pushto(&mut self, qd: QDesc, sga: &SgArray, remote: Ipv4Endpoint) -> (r: Result<
        QToken,
        Fail,
    >)
        requires
            old(self).wf(),
        ensures
            final(self).wf(),
            sga.segments@.len() != 1 ==> fails_with(r, EINVAL) && final(self)@ == old(self)@,
            sga.segments@.len() == 1 && sga.segments@[0]@.len() == 0 ==> fails_with(r, EINVAL)
                && final(self)@ == old(self)@,
            sga.segments@.len() == 1 && sga.segments@[0]@.len() > 0 ==> match old(
                self,
            )@.socket_of(qd) {
                None => fails_with(r, EBADF) && final(self)@ == old(self)@,
                Some(fd) => if old(self)@.saturated() {
                    fails_with(r, EAGAIN) && final(self)@ == old(self)@
                } else {
                    &&& scheduled(old(self)@, final(self)@, r)
                    &&& is_pushto(
                        final(self)@.tasks[old(self)@.next_task as u64],
                        qd,
                        fd,
                        remote,
                        sga.segments@[0]@,
                    )
                },
            },
    {
        let buf: Vec<u8> = match clone_sgarray(sga) {
            Ok(buf) => buf,
            Err(e) => return Err(e),
        };
        if buf.len() == 0 {
            return Err(Fail::new(EINVAL, "zero-length buffer"));
        }
        match self.lookup(qd) {
            Some(fd) => self.schedule_task(Operation::Pushto { qd, fd, remote, buf }),
            None => Err(Fail::new(EBADF, "invalid queue descriptor")),
        }
    }

    /// Schedules reading from a socket.
    pub fn pop(&mut self, qd: QDesc) -> (r: Result<QToken, Fail>)
        requires
            old(self).wf(),
        ensures
            final(self).wf(),
            match old(self)@.socket_of(qd) {
                None => fails_with(r, EBADF) && final(self)@ == old(self)@,
                Some(fd) => if old(self)@.saturated() {
                    fails_with(r, EAGAIN) && final(self)@ == old(self)@
                } else {
                    &&& r == Ok::<QToken, Fail>(QToken(old(self)@.next_task as u64))
                    &&& final(self)@ == old(self)@.schedule(idle(Operation::Pop { qd, fd }))
                },
            },
    {
        match self.lookup(qd) {
            Some(fd) => self.schedule_task(Operation::Pop { qd, fd }),
            None => Err(Fail::new(EBADF, "invalid queue descriptor")),
        }
    }

    /// Turns a token back into the handle of its scheduled operation.
    pub fn schedule(&self, qt: QToken) -> (r: Result<SchedulerHandle, Fail>)
        ensures
            match self@.handle_of(qt) {
                Some(h) => r == Ok::<SchedulerHandle, Fail>(h),
                None => fails_with(r, EINVAL),
            },
    {
        match self.scheduler.from_raw_handle(qt.0) {
            Some(h) => Ok(h),
            None => Err(Fail::new(EINVAL, "invalid queue token")),
        }
    }

    /// Whether the operation behind `h` has produced its result.
    pub fn has_completed(&self, h: SchedulerHandle) -> (r: bool)
        ensures
            r == self@.completed(h),
    {
        match self.scheduler.get(h) {
            Some(task) => match task.progress {
                Progress::Done(..) => true,
                _ => false,
            },
            None => false,
        }
    }

    /// The I/O that the driver should perform next for the operation behind
    /// `h`, if it is waiting for one. Under completion a write, a send, or a
    /// read is handed out once and then awaits its completion; every other
    /// request is handed out again on each call until its outcome arrives.
    pub fn poll_request(&mut self, h: SchedulerHandle) -> (r: Option<IoRequest>)
        requires
            old(self).wf(),
        ensures
            final(self).wf(),
            old(self)@.tasks.contains_key(h.0) && old(self)@.tasks[h.0].progress is Idle ==> {
                let op = old(self)@.tasks[h.0].op;
                &&& r matches Some(req) && op.requests(req)
                &&& if op.submitted_once(old(self)@.backend) {
                    final(self)@ == (LibOSView {
                        tasks: old(self)@.tasks.insert(h.0, Task { op, progress: Progress::InFlight }),
                        ..old(self)@
                    })
                } else {
                    final(self)@ == old(self)@
                }
            },
            !(old(self)@.tasks.contains_key(h.0) && old(self)@.tasks[h.0].progress is Idle) ==> r is None
                && final(self)@ == old(self)@,
    {
        let (req, once): (IoRequest, bool) = match self.scheduler.get(h) {
            Some(task) => match task.progress {
                Progress::Idle => (task.op.request(), task.op.is_submitted_once(self.backend)),
                _ => return None,
            },
            None => return None,
        };
        if once {
            let task: Task = self.scheduler.take(h);
            self.scheduler.put(h, Task { op: task.op, progress: Progress::InFlight });
            assert(self.scheduler.tasks() =~= old(self).scheduler.tasks().insert(
                h.0,
                Task { op: old(self)@.tasks[h.0].op, progress: Progress::InFlight },
            ));
        }
        Some(req)
    }

    /// Applies what the driver observed for the operation behind `h`; a
    /// handle with no scheduled operation changes nothing.
    pub fn complete(&mut self, h: SchedulerHandle, outcome: IoOutcome)
        requires
            old(self).wf(),
        ensures
            final(self).wf(),
            old(self)@.tasks.contains_key(h.0) ==> {
                &&& final(self)@ == (LibOSView {
                    tasks: old(self)@.tasks.insert(h.0, final(self)@.tasks[h.0]),
                    ..old(self)@
                })
                &&& old(self)@.tasks[h.0].advances_to(
                    old(self)@.backend,
                    outcome,
                    final(self)@.tasks[h.0],
                )
            },
            !old(self)@.tasks.contains_key(h.0) ==> final(self)@ == old(self)@,
    {
        if self.scheduler.get(h).is_none() {
            return;
        }
        let task: Task = self.scheduler.take(h);
        let next: Task = task.advance(self.backend, outcome);
        self.scheduler.put(h, next);
        assert(self.scheduler.tasks() =~= old(self).scheduler.tasks().insert(
            h.0,
            self.scheduler.tasks()[h.0],
        ));
    }

    /// Takes out the finished operation behind `h`: its queue descriptor and
    /// result. A finished accept registers its connection under the reserved
    /// descriptor, or releases the reservation if it produced none.
    pub fn take_result(&mut self, h: SchedulerHandle) -> (r: (QDesc, OperationResult))
        requires
            old(self).wf(),
            old(self)@.completed(h),
        ensures
            final(self).wf(),
            final(self)@ == old(self)@.taken(h.0),
            r.0 == old(self)@.tasks[h.0].op.spec_qd(),
            old(self)@.tasks[h.0].progress matches Progress::Done(res, _) && r.1 == res,
    {
        let Task { op, progress } = self.scheduler.take(h);
        let qd: QDesc = op.qd();
        match progress {
            Progress::Done(res, new_fd) => {
                if let Operation::Accept { new_qd, .. } = op {
                    match new_fd {
                        Some(fd) => {
                            self.sockets.insert(new_qd.0, fd);
                        },
                        None => {
                            self.qtable.free(new_qd);
                        },
                    }
                }
                (qd, res)
            },
            _ => {
                assert(false);
                (qd, OperationResult::Connect)
            },
        }
    }

    /// Takes out the finished operation behind `h` and packs its result, with
    /// the token `qt` it was issued under, into a result record.
    pub fn pack_result(&mut self, h: SchedulerHandle, qt: QToken) -> (r: Result<QResult, Fail>)
        requires
            old(self).wf(),
            old(self)@.completed(h),
        ensures
            final(self).wf(),
            final(self)@ == old(self)@.taken(h.0),
            r matches Ok(q) && (old(self)@.tasks[h.0].progress matches Progress::Done(res, _)
                && packs(res, old(self)@.tasks[h.0].op.spec_qd(), qt.0, q)),
    {
        let (qd, res): (QDesc, OperationResult) = self.take_result(h);
        Ok(pack_result(res, qd, qt.0))
    }
}

} // verus!
