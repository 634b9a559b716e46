//! The per-connection state machine.
//!
//! A connection moves through four states: awaiting a request (registered
//! readable), awaiting the worker pool's result (registered for nothing),
//! awaiting the flush of its response (registered writable), and closed.
//! Every transition keeps the record well formed: the registered interest,
//! the in-flight-job flag and the buffers always agree with the state, and a
//! connection is never interested in reading and writing at once.

use vstd::prelude::*;

verus! {

use crate::wire::find_crlf;
use crate::wire::scan_crlf;
use crate::wire::vec_range;
use vstd::utf8::valid_utf8;
use vstd::utf8::decode_utf8;

/// Where a connection stands between request and response.
#[derive(Clone, Copy, PartialEq, Eq, Structural, Debug)]
pub enum ConnState {
    /// Reading until the request line is complete.
    AwaitingRequest,
    /// A job is with the worker pool; the socket is not polled.
    AwaitingWork,
    /// Writing the response out.
    AwaitingFlush,
    /// Terminal; the record is removed the same step this is reached.
    Closed,
}

/// The readiness interest a connection is registered for.  A connection
/// holds exactly one of these at any time, so it is never registered both
/// readable and writable.
#[derive(Clone, Copy, PartialEq, Eq, Structural, Debug)]
pub enum Interest {
    Readable,
    Writable,
    Idle,
}

/// What feeding received bytes to a connection produced.
pub enum ReadAdvance {
    /// No complete request line yet; keep reading.
    Incomplete,
    /// A complete request line, ready to become a job.
    Submitted(String),
    /// The request line is not valid UTF-8; the connection closed.
    Malformed,
}

/// What advancing the flush of a response produced.
#[derive(Clone, Copy, PartialEq, Eq, Structural, Debug)]
pub enum FlushProgress {
    /// Bytes remain; stay registered writable.
    StillFlushing,
    /// The response is out and keep-alive is set: ready for a new request.
    ResetForNextRequest,
    /// The response is out; the connection closed.
    Finished,
}

/// One connection's record: buffers, state, and bookkeeping flags.
pub struct Connection {
    /// Bytes received and not yet consumed as a request line.
    pub read_buffer: Vec<u8>,
    /// Response bytes not yet written to the socket.
    pub write_buffer: Vec<u8>,
    /// Where the connection stands.
    pub state: ConnState,
    /// Whether the connection resets for another request after a flush.
    pub keep_alive: bool,
    /// Whether a job for this connection is with the worker pool.
    pub job_in_flight: bool,
    /// The readiness interest the connection is registered for.
    pub interest: Interest,
}

impl Connection {
    /// Well-formedness: interest, flags and buffers agree with the state.
    /// While a request is awaited no complete line sits unprocessed in the
    /// read buffer, and the write buffer is only populated once a job's
    /// result has been applied.
    pub open spec fn wf(self) -> bool {
        match self.state {
            ConnState::AwaitingRequest => self.interest == Interest::Readable
                && !self.job_in_flight && self.write_buffer@.len() == 0 && find_crlf(
                self.read_buffer@,
                0,
            ) < 0,
            ConnState::AwaitingWork => self.interest == Interest::Idle && self.job_in_flight
                && self.read_buffer@.len() == 0 && self.write_buffer@.len() == 0,
            ConnState::AwaitingFlush => self.interest == Interest::Writable
                && !self.job_in_flight && self.read_buffer@.len() == 0,
            ConnState::Closed => self.interest == Interest::Idle,
        }
    }

    /// A fresh connection: awaiting its first request, registered readable,
    /// with empty buffers and keep-alive off.
    pub fn new() -> (c: Connection)
        ensures
            c.wf(),
            c.state == ConnState::AwaitingRequest,
            c.read_buffer@.len() == 0,
            c.write_buffer@.len() == 0,
            !c.keep_alive,
            !c.job_in_flight,
            c.interest == Interest::Readable,
    {
        Connection {
            read_buffer: Vec::new(),
            write_buffer: Vec::new(),
            state: ConnState::AwaitingRequest,
            keep_alive: false,
            job_in_flight: false,
            interest: Interest::Readable,
        }
    }

    /// Sets the keep-alive flag; nothing else changes.
    pub fn set_keep_alive(&mut self, v: bool)
        ensures
            *final(self) == (Connection { keep_alive: v, ..*old(self) }),
    {
        self.keep_alive = v;
    }

    /// Feeds received bytes in.  When the buffer then holds a complete
    /// request line, the line is taken out, the buffer is cleared, and the
    /// connection awaits the job's result; a line that is not valid UTF-8
    /// closes the connection instead.
    pub fn on_data(&mut self, chunk: &Vec<u8>) -> (r: ReadAdvance)
        requires
            old(self).wf(),
            old(self).state == ConnState::AwaitingRequest,
        ensures
            final(self).wf(),
            final(self).keep_alive == old(self).keep_alive,
            ({
                let buf = old(self).read_buffer@ + chunk@;
                let k = find_crlf(buf, 0);
                if k < 0 {
                    &&& r is Incomplete
                    &&& final(self).state == ConnState::AwaitingRequest
                    &&& final(self).read_buffer@ == buf
                    &&& final(self).interest == Interest::Readable
                    &&& !final(self).job_in_flight
                } else {
                    let line = buf.subrange(0, k);
                    if valid_utf8(line) {
                        &&& r matches ReadAdvance::Submitted(s) && s@ == decode_utf8(line)
                        &&& final(self).state == ConnState::AwaitingWork
                        &&& final(self).job_in_flight
                        &&& final(self).read_buffer@.len() == 0
                        &&& final(self).interest == Interest::Idle
                    } else {
                        &&& r is Malformed
                        &&& final(self).state == ConnState::Closed
                        &&& final(self).interest == Interest::Idle
                    }
                }
            }),
    {
        let mut i: usize = 0;
        let n = chunk.len();
        while i < n
            invariant
                i <= n,
                n == chunk@.len(),
                self.read_buffer@ == old(self).read_buffer@ + chunk@.subrange(0, i as int),
                *self == (Connection { read_buffer: self.read_buffer, ..*old(self) }),
            decreases n - i,
        {
            self.read_buffer.push(chunk[i]);
            proof {
                assert(self.read_buffer@ =~= old(self).read_buffer@ + chunk@.subrange(
                    0,
                    i + 1,
                ));
            }
            i += 1;
        }
        proof {
            assert(self.read_buffer@ =~= old(self).read_buffer@ + chunk@);
        }
        match scan_crlf(&self.read_buffer, 0) {
            Option::None => ReadAdvance::Incomplete,
            Option::Some(k) => {
                let line = vec_range(&self.read_buffer, 0, k);
                self.read_buffer = Vec::new();
                match bytes_to_string(line) {
                    Option::Some(s) => {
                        self.state = ConnState::AwaitingWork;
                        self.job_in_flight = true;
                        self.interest = Interest::Idle;
                        ReadAdvance::Submitted(s)
                    },
                    Option::None => {
                        self.state = ConnState::Closed;
                        self.interest = Interest::Idle;
                        ReadAdvance::Malformed
                    },
                }
            },
        }
    }

    /// Loads a job's response bytes into the write buffer: the connection
    /// now awaits its flush, registered writable, with no job in flight.
    pub fn apply_result(&mut self, response: Vec<u8>)
        requires
            old(self).wf(),
            old(self).state == ConnState::AwaitingWork,
        ensures
            final(self).wf(),
            final(self).state == ConnState::AwaitingFlush,
            final(self).interest == Interest::Writable,
            final(self).write_buffer@ == response@,
            !final(self).job_in_flight,
            final(self).keep_alive == old(self).keep_alive,
            final(self).read_buffer@.len() == 0,
    {
        self.write_buffer = response;
        self.state = ConnState::AwaitingFlush;
        self.interest = Interest::Writable;
        self.job_in_flight = false;
    }

    /// Closes the connection: a peer close or an I/O error lands here from
    /// any state.
    pub fn close(&mut self)
        ensures
            final(self).wf(),
            final(self).state == ConnState::Closed,
            final(self).interest == Interest::Idle,
            final(self).keep_alive == old(self).keep_alive,
    {
        self.state = ConnState::Closed;
        self.interest = Interest::Idle;
    }

    /// Records that `n` bytes of the write buffer reached the socket.  When
    /// the buffer drains, the connection either resets for the next request
    /// (keep-alive) or closes.
    pub fn on_wrote(&mut self, n: usize) -> (r: FlushProgress)
        requires
            old(self).wf(),
            old(self).state == ConnState::AwaitingFlush,
            n <= old(self).write_buffer@.len(),
        ensures
            final(self).wf(),
            final(self).keep_alive == old(self).keep_alive,
            ({
                let rest = old(self).write_buffer@.subrange(
                    n as int,
                    old(self).write_buffer@.len() as int,
                );
                if rest.len() > 0 {
                    &&& r == FlushProgress::StillFlushing
                    &&& final(self).state == ConnState::AwaitingFlush
                    &&& final(self).write_buffer@ == rest
                    &&& final(self).interest == Interest::Writable
                } else if old(self).keep_alive {
                    &&& r == FlushProgress::ResetForNextRequest
                    &&& final(self).state == ConnState::AwaitingRequest
                    &&& final(self).interest == Interest::Readable
                    &&& final(self).read_buffer@.len() == 0
                    &&& final(self).write_buffer@.len() == 0
                } else {
                    &&& r == FlushProgress::Finished
                    &&& final(self).state == ConnState::Closed
                    &&& final(self).interest == Interest::Idle
                }
            }),
    {
        let rest = self.write_buffer.split_off(n);
        self.write_buffer = rest;
        if self.write_buffer.len() > 0 {
            FlushProgress::StillFlushing
        } else if self.keep_alive {
            self.read_buffer = Vec::new();
            self.state = ConnState::AwaitingRequest;
            self.interest = Interest::Readable;
            FlushProgress::ResetForNextRequest
        } else {
            self.state = ConnState::Closed;
            self.interest = Interest::Idle;
            FlushProgress::Finished
        }
    }
}

/// Relies on `String::from_utf8`: it returns `Ok` exactly when the bytes
/// are valid UTF-8, and then decodes those bytes without changing them.
#[verifier::external_body]
fn bytes_to_string(v: Vec<u8>) -> (r: Option<String>)
    ensures
        match r {
            Option::Some(s) => valid_utf8(v@) && s@ == decode_utf8(v@),
            Option::None => !valid_utf8(v@),
        },
{
    match String::from_utf8(v) {
        Ok(s) => Option::Some(s),
        Err(_) => Option::None,
    }
}

} // verus!
