//! The life of one accepted connection of a storage daemon.
//!
//! A connection alternates between waiting for a frame and writing the answer
//! to it, until the peer closes, a read or write fails, or the peer stays
//! silent for too long. The reads and writes themselves are the caller's: it
//! tells `Connection::advance` what happened and does what it is told next.
//! Frames are served as `daemon` describes, so the store is reached only
//! while a frame is being answered.
//!
//! Every connection costs its daemon a thread and a receive buffer, so a
//! daemon also needs to bound how many it serves at once: `Admission` keeps
//! that count.

use vstd::prelude::*;
use crate::daemon::{
    acknowledged, changes_store, engine_failed, general_locked_out, general_step, serve_general,
    serve_statement, statement_locked_out, statement_step,
};
use crate::store::{BucketStore, Entries, StoreFault};

verus! {

/// Seconds a connection may stay silent before the daemon closes it.
pub const READ_TIMEOUT_SECS: u64 = 30;

/// Which of the two daemons a connection belongs to.
#[derive(Clone, Copy, Debug, PartialEq, Eq, Structural)]
pub enum Role {
    /// The general store: ten buckets, read, write and remove.
    General,
    /// The statement store: one bucket, read only.
    Statement,
}

/// Where a connection stands.
#[derive(Clone, Copy, Debug, PartialEq, Eq, Structural)]
pub enum Phase {
    /// Waiting for the next frame.
    Reading,
    /// A frame was answered and the answer is being written.
    Writing,
    /// Over. Nothing more is read or written.
    Closed,
}

/// What happened on the connection since the last step.
#[derive(Debug)]
pub enum Event {
    /// A read returned these bytes. A read of no bytes is the peer closing.
    Frame(Vec<u8>),
    /// The peer closed its end.
    EndOfStream,
    /// A read failed.
    ReadFailed,
    /// No frame arrived within `READ_TIMEOUT_SECS`.
    TimedOut,
    /// The answer was written in full.
    Written,
    /// Writing the answer failed.
    WriteFailed,
}

/// What the caller is to do next.
#[derive(Debug)]
pub enum Action {
    /// Read the next frame.
    Read,
    /// Write these bytes back.
    Write(Vec<u8>),
    /// Close the connection.
    Close,
}

/// The outcome of one step.
#[derive(Debug)]
pub struct Step {
    /// What to do next.
    pub action: Action,
    /// The engine failure behind an error status, if there was one.
    pub fault: Option<StoreFault>,
    /// Why the flush after a write or removal failed, if it did.
    pub flush_fault: Option<StoreFault>,
}

/// One accepted connection.
#[derive(Debug)]
pub struct Connection {
    /// The daemon it belongs to.
    pub role: Role,
    /// Where it stands.
    pub phase: Phase,
}

/// True when `event` brings a frame to answer: a read that returned bytes.
pub open spec fn brings_frame(event: Event) -> bool {
    event matches Event::Frame(bytes) && bytes@.len() > 0
}

/// The phase that follows `phase` on `event`. A frame moves a reading
/// connection to writing, a completed write moves it back to reading, and
/// everything else closes it, for good.
pub open spec fn phase_after(phase: Phase, event: Event) -> Phase {
    match phase {
        Phase::Reading => if brings_frame(event) {
            Phase::Writing
        } else {
            Phase::Closed
        },
        Phase::Writing => if event is Written {
            Phase::Reading
        } else {
            Phase::Closed
        },
        Phase::Closed => Phase::Closed,
    }
}

/// How a daemon of `role` may answer `frame`, from a store holding `before`
/// and leaving it holding `after`.
pub open spec fn served_by(
    role: Role,
    before: Entries,
    frame: Seq<u8>,
    reply: Seq<u8>,
    after: Entries,
) -> bool {
    match role {
        Role::General => general_step(before, frame, reply, after),
        Role::Statement => statement_step(before, frame, reply, after),
    }
}

/// How a daemon of `role` answers `frame` when the store's lock could not be
/// taken.
pub open spec fn locked_out(role: Role, frame: Seq<u8>) -> Seq<u8> {
    match role {
        Role::General => general_locked_out(frame),
        Role::Statement => statement_locked_out(frame),
    }
}

impl Connection {
    /// A connection that was just accepted. It starts out reading.
    pub fn accept(role: Role) -> (connection: Connection)
        ensures
            connection.role == role,
            connection.phase == Phase::Reading,
    {
        Connection { role, phase: Phase::Reading }
    }

    /// True once the connection is over.
    pub fn is_closed(&self) -> (closed: bool)
        ensures
            closed == (self.phase == Phase::Closed),
    {
        match self.phase {
            Phase::Closed => true,
            _ => false,
        }
    }

    /// Takes one step: given what happened, says what to do next.
    ///
    /// `store` is the shared store if its lock could be taken, `None` if not.
    /// The new phase is `phase_after` of the old one. A connection that moves
    /// to writing was reading and got a frame: the action is to write the
    /// answer to it, and that answer is the one the daemon of this role
    /// gives; a fault is reported with it exactly when the answer reports an
    /// engine failure, and an acknowledged write or removal whose flush did
    /// not fail is on disk. A connection that moves to reading is told to
    /// read, one that closes is told to close. The store is left untouched by
    /// every step that does not answer a frame.
    pub fn advance(&mut self, store: Option<&mut BucketStore>, event: Event) -> (step: Step)
        ensures
            final(self).role == old(self).role,
            final(self).phase == phase_after(old(self).phase, event),
            match final(self).phase {
                Phase::Reading => step.action is Read,
                Phase::Closed => step.action is Close,
                Phase::Writing => {
                    &&& step.action matches Action::Write(reply)
                    &&& event matches Event::Frame(frame)
                    &&& match store {
                        Some(held) => {
                            &&& served_by(old(self).role, held@, frame@, reply@, final(held)@)
                            &&& old(self).role == Role::General && changes_store(frame@)
                                && acknowledged(reply@) && step.flush_fault is None
                                ==> final(held).flushed()
                        },
                        None => reply@ == locked_out(old(self).role, frame@),
                    }
                    &&& step.fault is Some <==> engine_failed(reply@)
                },
            },
            final(self).phase != Phase::Writing ==> {
                &&& step.fault is None
                &&& step.flush_fault is None
                &&& store matches Some(held) ==> *final(held) == *held
            },
    {
        match self.phase {
            Phase::Reading => {
                match event {
                    Event::Frame(frame) => {
                        if frame.len() == 0 {
                            self.phase = Phase::Closed;
                            return Step { action: Action::Close, fault: None, flush_fault: None };
                        }
                        let served = match self.role {
                            Role::General => serve_general(store, frame.as_slice()),
                            Role::Statement => serve_statement(store, frame.as_slice()),
                        };
                        self.phase = Phase::Writing;
                        Step {
                            action: Action::Write(served.reply),
                            fault: served.fault,
                            flush_fault: served.flush_fault,
                        }
                    },
                    _ => {
                        self.phase = Phase::Closed;
                        Step { action: Action::Close, fault: None, flush_fault: None }
                    },
                }
            },
            Phase::Writing => {
                match event {
                    Event::Written => {
                        self.phase = Phase::Reading;
                        Step { action: Action::Read, fault: None, flush_fault: None }
                    },
                    _ => {
                        self.phase = Phase::Closed;
                        Step { action: Action::Close, fault: None, flush_fault: None }
                    },
                }
            },
            Phase::Closed => Step { action: Action::Close, fault: None, flush_fault: None },
        }
    }
}

/// Keeps count of the connections a daemon is serving, so that it can turn
/// new ones away once it serves as many as it is prepared to.
#[derive(Debug)]
pub struct Admission {
    limit: usize,
    active: usize,
}

impl Admission {
    #[verifier::type_invariant]
    spec fn within_limit(self) -> bool {
        self.active <= self.limit
    }

    /// The largest number of connections served at once.
    pub closed spec fn limit(self) -> nat {
        self.limit as nat
    }

    /// The number of connections being served.
    pub closed spec fn active(self) -> nat {
        self.active as nat
    }

    /// A gate that lets `limit` connections in at a time, with none inside.
    pub fn new(limit: usize) -> (gate: Admission)
        ensures
            gate.limit() == limit,
            gate.active() == 0,
    {
        Admission { limit, active: 0 }
    }

    /// The number of connections being served.
    pub fn in_service(&self) -> (count: usize)
        ensures
            count == self.active(),
            count <= self.limit(),
    {
        proof {
            use_type_invariant(self);
        }
        self.active
    }

    /// Lets one more connection in, if there is room.
    ///
    /// Returns true and counts the connection when fewer than the limit are
    /// being served; returns false and changes nothing otherwise.
    pub fn try_enter(&mut self) -> (entered: bool)
        ensures
            final(self).limit() == old(self).limit(),
            entered == (old(self).active() < old(self).limit()),
            final(self).active() == if entered {
                old(self).active() + 1
            } else {
                old(self).active()
            },
    {
        proof {
            use_type_invariant(&*self);
        }
        if self.active < self.limit {
            self.active = self.active + 1;
            true
        } else {
            false
        }
    }

    /// Counts one connection out. With none inside, nothing changes.
    pub fn leave(&mut self)
        ensures
            final(self).limit() == old(self).limit(),
            final(self).active() == if old(self).active() > 0 {
                old(self).active() - 1
            } else {
                0
            },
    {
        proof {
            use_type_invariant(&*self);
        }
        if self.active > 0 {
            self.active = self.active - 1;
        }
    }
}

/// A closed connection stays closed, whatever happens on it.
pub proof fn closed_is_final(event: Event)
    ensures
        phase_after(Phase::Closed, event) == Phase::Closed,
{
}

/// A connection is closed by the peer closing, by a failed or timed-out read
/// and by a failed write, in whichever phase they arrive; it goes on only
/// from reading to writing on a frame and from writing to reading on a
/// completed write.
pub proof fn connection_ends(phase: Phase, event: Event)
    ensures
        event is EndOfStream || event is ReadFailed || event is TimedOut || event is WriteFailed
            ==> phase_after(phase, event) == Phase::Closed,
        phase_after(phase, event) == Phase::Writing <==> phase == Phase::Reading && brings_frame(
            event,
        ),
        phase_after(phase, event) == Phase::Reading <==> phase == Phase::Writing
            && event is Written,
{
}

} // verus!
