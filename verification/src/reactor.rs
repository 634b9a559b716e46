//! The reactor's decision core.
//!
//! The event loop itself — polling, accepting, reading and writing sockets —
//! is outside work; every decision it takes stands here, over the connection
//! table.  Each entry point takes a token and what the outside world
//! observed, updates the table, and returns a directive telling the caller
//! what to do with the socket: register or re-register an interest, submit a
//! job, or deregister and drop.  A connection that reaches the closed state
//! is removed from the table in the same step, and a job result whose token
//! is no longer live is discarded without touching anything.

use vstd::prelude::*;

verus! {

use crate::conn::ConnState;
use crate::conn::Connection;
use crate::conn::FlushProgress;
use crate::conn::Interest;
use crate::conn::ReadAdvance;
use crate::table::ConnTable;
use crate::table::Token;
use crate::wire::find_crlf;
use crate::wire::vec_range;
use vstd::utf8::decode_utf8;
use vstd::utf8::valid_utf8;

/// A unit of blocking work: which connection asked, and its request line.
pub struct Job {
    /// The connection the answer belongs to.
    pub token: Token,
    /// The request line the connection sent.
    pub request_line: String,
}

/// What a worker produced for a job.
pub enum JobOutcome {
    /// Ready-to-send response bytes.
    Response(Vec<u8>),
    /// Not even an error page could be produced; close the connection.
    Failed,
}

/// A finished job's result, consumed once by the reactor.
pub struct JobResult {
    /// The token the job was submitted under.
    pub token: Token,
    /// What the worker produced.
    pub outcome: JobOutcome,
}

/// What the caller must do with a socket after feeding read bytes in.
pub enum ReadDirective {
    /// The token names no live connection awaiting a request; do nothing.
    Ignored,
    /// No complete request line yet: keep the readable registration.
    NeedMore,
    /// A request line is complete: clear the socket's readiness interest
    /// and hand the job to the worker pool.
    Dispatch(Job),
    /// The connection closed and left the table: deregister and drop the
    /// socket.
    CloseNow,
}

/// What the caller must do with a socket after a job result was handled.
#[derive(Clone, Copy, PartialEq, Eq, Structural, Debug)]
pub enum ApplyDirective {
    /// The token no longer names a connection awaiting work; nothing
    /// happened.
    Discarded,
    /// The response is loaded: register the socket writable.
    RegisterWritable,
    /// The connection closed and left the table: deregister and drop the
    /// socket.
    CloseNow,
}

/// What the caller must do with a socket after reporting written bytes.
#[derive(Clone, Copy, PartialEq, Eq, Structural, Debug)]
pub enum WriteDirective {
    /// The token names no live connection awaiting a flush; do nothing.
    Ignored,
    /// Bytes remain: keep the writable registration.
    KeepWriting,
    /// The response is out and keep-alive held: re-register readable.
    RearmReadable,
    /// The connection closed and left the table: deregister and drop the
    /// socket.
    CloseNow,
}

/// The reactor's mutable state: the table of live connections.
pub struct ReactorCore {
    /// The connection table; only the reactor thread touches it.
    pub table: ConnTable,
}

impl ReactorCore {
    /// Well-formedness: the table is sound and every live connection is
    /// well formed and not closed — a closed connection never outlives the
    /// step that closed it.
    pub open spec fn wf(self) -> bool {
        &&& self.table.wf()
        &&& forall|t: Token|
            #[trigger] self.table.valid(t) ==> self.table.conn_at(t).wf()
                && self.table.conn_at(t).state != ConnState::Closed
    }

    /// Whether `t` names a live connection.
    pub open spec fn valid(self, t: Token) -> bool {
        self.table.valid(t)
    }

    /// The connection `t` names.
    pub open spec fn conn_at(self, t: Token) -> Connection {
        self.table.conn_at(t)
    }

    /// Whether `t` is dead for good.
    pub open spec fn dead(self, t: Token) -> bool {
        self.table.dead(t)
    }

    /// Whether a job result for `t` would be applied now: the token is
    /// live and its connection awaits work.
    pub open spec fn applies(self, t: Token) -> bool {
        self.valid(t) && self.conn_at(t).state == ConnState::AwaitingWork
    }

    /// A reactor with no connections.
    pub fn new() -> (core: ReactorCore)
        ensures
            core.wf(),
            forall|t: Token| !core.valid(t),
    {
        ReactorCore { table: ConnTable::new() }
    }

    /// An accepted socket enters the table: a fresh connection awaiting its
    /// first request.  The caller registers the socket readable under the
    /// returned token, which collides with no token ever issued.
    pub fn on_accept(&mut self) -> (t: Token)
        requires
            old(self).wf(),
        ensures
            final(self).wf(),
            final(self).valid(t),
            !old(self).valid(t),
            !old(self).dead(t),
            final(self).conn_at(t).state == ConnState::AwaitingRequest,
            final(self).conn_at(t).interest == Interest::Readable,
            final(self).conn_at(t).read_buffer@.len() == 0,
            final(self).conn_at(t).write_buffer@.len() == 0,
            !final(self).conn_at(t).keep_alive,
            !final(self).conn_at(t).job_in_flight,
            forall|u: Token|
                u != t ==> (#[trigger] final(self).valid(u)) == old(self).valid(u),
            forall|u: Token|
                u != t && old(self).valid(u) ==> (#[trigger] final(self).conn_at(u)) == old(
                    self,
                ).conn_at(u),
            forall|u: Token| old(self).dead(u) ==> #[trigger] final(self).dead(u),
    {
        let c = Connection::new();
        let t = self.table.insert(c);
        proof {
            assert forall|u: Token| #[trigger] self.table.valid(u) implies self.table.conn_at(
                u,
            ).wf() && self.table.conn_at(u).state != ConnState::Closed by {
                if u != t {
                    assert(old(self).table.valid(u));
                }
            }
        }
        t
    }

    /// Received bytes reach a connection.  When they complete the request
    /// line the connection moves to awaiting work and the job comes back in
    /// the directive; a malformed line closes and removes the connection.
    #[verifier::rlimit(60)]
    pub fn on_readable_data(&mut self, t: Token, chunk: &Vec<u8>) -> (r: ReadDirective)
        requires
            old(self).wf(),
        ensures
            final(self).wf(),
            ({
                if !old(self).valid(t) {
                    &&& r is Ignored
                    &&& *final(self) == *old(self)
                } else if old(self).conn_at(t).state != ConnState::AwaitingRequest {
                    &&& r is Ignored
                    &&& final(self).valid(t)
                    &&& final(self).conn_at(t) == old(self).conn_at(t)
                } else {
                    let buf = old(self).conn_at(t).read_buffer@ + chunk@;
                    let k = find_crlf(buf, 0);
                    if k < 0 {
                        &&& r is NeedMore
                        &&& final(self).valid(t)
                        &&& final(self).conn_at(t).state == ConnState::AwaitingRequest
                        &&& final(self).conn_at(t).read_buffer@ == buf
                        &&& final(self).conn_at(t).interest == Interest::Readable
                    } else if valid_utf8(buf.subrange(0, k)) {
                        &&& r matches ReadDirective::Dispatch(job) && job.token == t
                            && job.request_line@ == decode_utf8(buf.subrange(0, k))
                        &&& final(self).valid(t)
                        &&& final(self).conn_at(t).state == ConnState::AwaitingWork
                        &&& final(self).conn_at(t).interest == Interest::Idle
                        &&& final(self).conn_at(t).job_in_flight
                        &&& final(self).applies(t)
                    } else {
                        &&& r is CloseNow
                        &&& !final(self).valid(t)
                        &&& final(self).dead(t)
                    }
                }
            }),
            forall|u: Token|
                u.index != t.index ==> (#[trigger] final(self).valid(u)) == old(self).valid(u),
            forall|u: Token|
                u.index != t.index && old(self).valid(u) ==> (#[trigger] final(self).conn_at(u))
                    == old(self).conn_at(u),
            forall|u: Token| old(self).dead(u) ==> #[trigger] final(self).dead(u),
    {
        let mut c = match self.table.take(t) {
            Option::Some(c) => c,
            Option::None => {
                return ReadDirective::Ignored;
            },
        };
        let ghost mid = *self;
        if c.state != ConnState::AwaitingRequest {
            self.table.put(t, c);
            proof {
                Self::lemma_preserve_compose(*old(self), mid, *self, t);
                self.lemma_wf_after_slot_update(*old(self), t);
            }
            return ReadDirective::Ignored;
        }
        match c.on_data(chunk) {
            ReadAdvance::Incomplete => {
                self.table.put(t, c);
                proof {
                    Self::lemma_preserve_compose(*old(self), mid, *self, t);
                    self.lemma_wf_after_slot_update(*old(self), t);
                }
                ReadDirective::NeedMore
            },
            ReadAdvance::Submitted(line) => {
                self.table.put(t, c);
                proof {
                    Self::lemma_preserve_compose(*old(self), mid, *self, t);
                    self.lemma_wf_after_slot_update(*old(self), t);
                }
                ReadDirective::Dispatch(Job { token: t, request_line: line })
            },
            ReadAdvance::Malformed => {
                self.table.release(t);
                proof {
                    Self::lemma_preserve_compose(*old(self), mid, *self, t);
                    self.lemma_wf_after_slot_update(*old(self), t);
                }
                ReadDirective::CloseNow
            },
        }
    }

    /// The peer closed, or reading or writing failed: the connection
    /// closes and leaves the table in this same step.  Returns whether the
    /// token still named a live connection.
    pub fn on_conn_error(&mut self, t: Token) -> (r: bool)
        requires
            old(self).wf(),
        ensures
            final(self).wf(),
            r == old(self).valid(t),
            !final(self).valid(t),
            r ==> final(self).dead(t),
            !r ==> *final(self) == *old(self),
            forall|u: Token|
                u.index != t.index ==> (#[trigger] final(self).valid(u)) == old(self).valid(u),
            forall|u: Token|
                u.index != t.index && old(self).valid(u) ==> (#[trigger] final(self).conn_at(u))
                    == old(self).conn_at(u),
            forall|u: Token| old(self).dead(u) ==> #[trigger] final(self).dead(u),
    {
        match self.table.take(t) {
            Option::Some(_c) => {
                let ghost mid = *self;
                self.table.release(t);
                proof {
                    Self::lemma_preserve_compose(*old(self), mid, *self, t);
                    self.lemma_wf_after_slot_update(*old(self), t);
                }
                true
            },
            Option::None => false,
        }
    }

    /// A job result arrives.  A result whose token no longer names a
    /// connection awaiting work is discarded without any effect — in
    /// particular one whose token's generation has changed.  Otherwise the
    /// response is loaded, the connection awaits its flush, and the caller
    /// registers the socket writable — once, since the connection no longer
    /// awaits work afterwards.
    pub fn on_job_result(&mut self, result: JobResult) -> (d: ApplyDirective)
        requires
            old(self).wf(),
        ensures
            final(self).wf(),
            ({
                let t = result.token;
                if !old(self).valid(t) {
                    &&& d == ApplyDirective::Discarded
                    &&& *final(self) == *old(self)
                } else if old(self).conn_at(t).state != ConnState::AwaitingWork {
                    &&& d == ApplyDirective::Discarded
                    &&& final(self).valid(t)
                    &&& final(self).conn_at(t) == old(self).conn_at(t)
                } else {
                    match result.outcome {
                        JobOutcome::Response(bytes) => {
                            &&& d == ApplyDirective::RegisterWritable
                            &&& final(self).valid(t)
                            &&& final(self).conn_at(t).state == ConnState::AwaitingFlush
                            &&& final(self).conn_at(t).interest == Interest::Writable
                            &&& final(self).conn_at(t).write_buffer@ == bytes@
                            &&& !final(self).conn_at(t).job_in_flight
                            &&& !final(self).applies(t)
                        },
                        JobOutcome::Failed => {
                            &&& d == ApplyDirective::CloseNow
                            &&& !final(self).valid(t)
                            &&& final(self).dead(t)
                        },
                    }
                }
            }),
            forall|u: Token|
                u.index != result.token.index ==> (#[trigger] final(self).valid(u)) == old(
                    self,
                ).valid(u),
            forall|u: Token|
                u.index != result.token.index && old(self).valid(u) ==> (#[trigger] final(self).conn_at(u)) == old(self).conn_at(u),
            forall|u: Token| old(self).dead(u) ==> #[trigger] final(self).dead(u),
    {
        let t = result.token;
        let mut c = match self.table.take(t) {
            Option::Some(c) => c,
            Option::None => {
                return ApplyDirective::Discarded;
            },
        };
        let ghost mid = *self;
        if c.state != ConnState::AwaitingWork {
            self.table.put(t, c);
            proof {
                Self::lemma_preserve_compose(*old(self), mid, *self, t);
                self.lemma_wf_after_slot_update(*old(self), t);
            }
            return ApplyDirective::Discarded;
        }
        match result.outcome {
            JobOutcome::Response(bytes) => {
                c.apply_result(bytes);
                self.table.put(t, c);
                proof {
                    Self::lemma_preserve_compose(*old(self), mid, *self, t);
                    self.lemma_wf_after_slot_update(*old(self), t);
                }
                ApplyDirective::RegisterWritable
            },
            JobOutcome::Failed => {
                self.table.release(t);
                proof {
                    Self::lemma_preserve_compose(*old(self), mid, *self, t);
                    self.lemma_wf_after_slot_update(*old(self), t);
                }
                ApplyDirective::CloseNow
            },
        }
    }

    /// The bytes a writable socket should send: a copy of the connection's
    /// remaining write buffer.  Nothing changes; the caller reports what
    /// was written through `on_wrote`.
    pub fn on_writable(&self, t: Token) -> (r: Option<Vec<u8>>)
        requires
            self.wf(),
        ensures
            match r {
                Option::Some(bytes) => self.valid(t) && self.conn_at(t).state
                    == ConnState::AwaitingFlush && bytes@ == self.conn_at(t).write_buffer@,
                Option::None => !self.valid(t) || self.conn_at(t).state
                    != ConnState::AwaitingFlush,
            },
    {
        match self.table.get(t) {
            Option::Some(c) => {
                if c.state == ConnState::AwaitingFlush {
                    let n = c.write_buffer.len();
                    let bytes = vec_range(&c.write_buffer, 0, n);
                    proof {
                        assert(bytes@ =~= c.write_buffer@);
                    }
                    Option::Some(bytes)
                } else {
                    Option::None
                }
            },
            Option::None => Option::None,
        }
    }

    /// The socket took `n` bytes of the write buffer, or failed (`failed`
    /// covers a write error and a zero-length write alike).  On a drained
    /// buffer the connection either resets for the next request under
    /// keep-alive or closes and leaves the table.
    #[verifier::rlimit(60)]
    pub fn on_wrote(&mut self, t: Token, n: usize, failed: bool) -> (r: WriteDirective)
        requires
            old(self).wf(),
            old(self).valid(t) && old(self).conn_at(t).state == ConnState::AwaitingFlush
                && !failed ==> n <= old(self).conn_at(t).write_buffer@.len(),
        ensures
            final(self).wf(),
            ({
                if !old(self).valid(t) {
                    &&& r is Ignored
                    &&& *final(self) == *old(self)
                } else if old(self).conn_at(t).state != ConnState::AwaitingFlush {
                    &&& r is Ignored
                    &&& final(self).valid(t)
                    &&& final(self).conn_at(t) == old(self).conn_at(t)
                } else if failed {
                    &&& r is CloseNow
                    &&& !final(self).valid(t)
                    &&& final(self).dead(t)
                } else {
                    let wb = old(self).conn_at(t).write_buffer@;
                    let rest = wb.subrange(n as int, wb.len() as int);
                    if rest.len() > 0 {
                        &&& r is KeepWriting
                        &&& final(self).valid(t)
                        &&& final(self).conn_at(t).state == ConnState::AwaitingFlush
                        &&& final(self).conn_at(t).write_buffer@ == rest
                        &&& final(self).conn_at(t).interest == Interest::Writable
                    } else if old(self).conn_at(t).keep_alive {
                        &&& r is RearmReadable
                        &&& final(self).valid(t)
                        &&& final(self).conn_at(t).state == ConnState::AwaitingRequest
                        &&& final(self).conn_at(t).interest == Interest::Readable
                        &&& final(self).conn_at(t).read_buffer@.len() == 0
                        &&& final(self).conn_at(t).write_buffer@.len() == 0
                    } else {
                        &&& r is CloseNow
                        &&& !final(self).valid(t)
                        &&& final(self).dead(t)
                    }
                }
            }),
            forall|u: Token|
                u.index != t.index ==> (#[trigger] final(self).valid(u)) == old(self).valid(u),
            forall|u: Token|
                u.index != t.index && old(self).valid(u) ==> (#[trigger] final(self).conn_at(u))
                    == old(self).conn_at(u),
            forall|u: Token| old(self).dead(u) ==> #[trigger] final(self).dead(u),
    {
        let mut c = match self.table.take(t) {
            Option::Some(c) => c,
            Option::None => {
                return WriteDirective::Ignored;
            },
        };
        let ghost mid = *self;
        if c.state != ConnState::AwaitingFlush {
            self.table.put(t, c);
            proof {
                Self::lemma_preserve_compose(*old(self), mid, *self, t);
                self.lemma_wf_after_slot_update(*old(self), t);
            }
            return WriteDirective::Ignored;
        }
        if failed {
            self.table.release(t);
            proof {
                Self::lemma_preserve_compose(*old(self), mid, *self, t);
                self.lemma_wf_after_slot_update(*old(self), t);
            }
            return WriteDirective::CloseNow;
        }
        match c.on_wrote(n) {
            FlushProgress::StillFlushing => {
                self.table.put(t, c);
                proof {
                    Self::lemma_preserve_compose(*old(self), mid, *self, t);
                    self.lemma_wf_after_slot_update(*old(self), t);
                }
                WriteDirective::KeepWriting
            },
            FlushProgress::ResetForNextRequest => {
                self.table.put(t, c);
                proof {
                    Self::lemma_preserve_compose(*old(self), mid, *self, t);
                    self.lemma_wf_after_slot_update(*old(self), t);
                }
                WriteDirective::RearmReadable
            },
            FlushProgress::Finished => {
                self.table.release(t);
                proof {
                    Self::lemma_preserve_compose(*old(self), mid, *self, t);
                    self.lemma_wf_after_slot_update(*old(self), t);
                }
                WriteDirective::CloseNow
            },
        }
    }

    /// After an operation that only touched `t`'s slot, well-formedness
    /// follows from the previous state's: the connection now at `t`, if
    /// any, is checked where it was put, and every other live connection
    /// was live before with the same record.
    proof fn lemma_wf_after_slot_update(self, pre: ReactorCore, t: Token)
        requires
            pre.wf(),
            self.table.wf(),
            self.valid(t) ==> self.conn_at(t).wf() && self.conn_at(t).state != ConnState::Closed,
            forall|u: Token|
                u.index != t.index ==> (#[trigger] self.valid(u)) == pre.valid(u),
            forall|u: Token|
                u.index != t.index && pre.valid(u) ==> (#[trigger] self.conn_at(u)) == pre.conn_at(
                    u,
                ),
            forall|u: Token| u.index == t.index && u != t ==> !(#[trigger] self.valid(u)),
        ensures
            self.wf(),
    {
        assert forall|u: Token| #[trigger] self.table.valid(u) implies self.table.conn_at(u).wf()
            && self.table.conn_at(u).state != ConnState::Closed by {
            assert(self.valid(u));
            if u.index == t.index {
                assert(u == t);
            } else {
                assert(pre.valid(u));
                assert(self.conn_at(u) == pre.conn_at(u));
            }
        }
    }

    /// Chains the untouched-slot guarantees of two consecutive table
    /// operations on the same slot.
    proof fn lemma_preserve_compose(pre: ReactorCore, mid: ReactorCore, post: ReactorCore, t: Token)
        requires
            forall|u: Token|
                u.index != t.index ==> (#[trigger] mid.valid(u)) == pre.valid(u),
            forall|u: Token|
                u.index != t.index && pre.valid(u) ==> (#[trigger] mid.conn_at(u)) == pre.conn_at(
                    u,
                ),
            forall|u: Token|
                u.index != t.index ==> (#[trigger] post.valid(u)) == mid.valid(u),
            forall|u: Token|
                u.index != t.index && mid.valid(u) ==> (#[trigger] post.conn_at(u)) == mid.conn_at(
                    u,
                ),
            forall|u: Token| pre.dead(u) ==> #[trigger] mid.dead(u),
            forall|u: Token| mid.dead(u) ==> #[trigger] post.dead(u),
        ensures
            forall|u: Token|
                u.index != t.index ==> (#[trigger] post.valid(u)) == pre.valid(u),
            forall|u: Token|
                u.index != t.index && pre.valid(u) ==> (#[trigger] post.conn_at(u)) == pre.conn_at(
                    u,
                ),
            forall|u: Token| pre.dead(u) ==> #[trigger] post.dead(u),
    {
        assert forall|u: Token|
            u.index != t.index implies (#[trigger] post.valid(u)) == pre.valid(u) by {
            assert(mid.valid(u) == pre.valid(u));
        }
        assert forall|u: Token|
            u.index != t.index && pre.valid(u) implies (#[trigger] post.conn_at(u))
            == pre.conn_at(u) by {
            assert(mid.valid(u) == pre.valid(u));
            assert(mid.conn_at(u) == pre.conn_at(u));
        }
        assert forall|u: Token| pre.dead(u) implies #[trigger] post.dead(u) by {
            assert(mid.dead(u));
        }
    }

    /// Law: two distinct live tokens never share a slot, so operations on
    /// one connection leave every other live connection untouched.
    pub proof fn lemma_live_tokens_distinct(self, t1: Token, t2: Token)
        requires
            self.valid(t1),
            self.valid(t2),
            t1 != t2,
        ensures
            t1.index != t2.index,
    {
    }

    /// Law: once a job result has been applied, the connection awaits its
    /// flush, so a second result for the same token no longer applies and
    /// would be discarded — the writable registration happens exactly once
    /// per applied result.
    pub proof fn lemma_result_applied_once(self, t: Token)
        requires
            self.valid(t),
            self.conn_at(t).state == ConnState::AwaitingFlush,
        ensures
            !self.applies(t),
    {
    }
}

} // verus!
