//! The gateway's client for one storage daemon.
//!
//! A connector keeps one stream to its daemon and reuses it for every
//! request. A stream that has been idle for longer than the reuse time is
//! not trusted: the next request opens a fresh one first. One request is one
//! full write followed by one read, and whatever that read returns is the
//! response.
//!
//! The stream itself lives with the caller, who also holds the lock that
//! makes requests to one daemon take turns. `Connector::advance` is told what
//! happened and answers with what to do next; time is whatever monotonic
//! clock the caller reads, in nanoseconds.
//!
//! A request that cannot be completed ends in an error and never in a panic.
//! Failing to connect is `Retryable`: nothing was sent, and the next request
//! starts with a new attempt. A failure after the stream was opened is
//! `Fatal` for the request: the daemon may or may not have seen it, and the
//! stream can no longer be trusted to pair responses with requests, so it is
//! dropped and the next request reconnects.

use vstd::prelude::*;
use crate::protocol::{parse_general, Command, RequestView, Status};

verus! {

/// How long a stream may sit unused and still be reused: twenty seconds, in
/// nanoseconds.
pub const REUSE_TTL_NANOS: u64 = 20_000_000_000;

/// Where the general store listens.
pub fn general_socket() -> (path: &'static str)
    ensures
        path@ == "/tmp/sentinel/star.sock"@,
{
    "/tmp/sentinel/star.sock"
}

/// Where the statement store listens.
pub fn statement_socket() -> (path: &'static str)
    ensures
        path@ == "/tmp/sentinel/store.sock"@,
{
    "/tmp/sentinel/store.sock"
}

/// A path set aside for a third daemon. Nothing listens there.
pub fn reserved_socket() -> (path: &'static str)
    ensures
        path@ == "/tmp/sentinel/sonar.sock"@,
{
    "/tmp/sentinel/sonar.sock"
}

/// Why a request could not be completed.
#[derive(Clone, Copy, Debug, PartialEq, Eq, Structural)]
pub enum SendError {
    /// The daemon could not be reached. Nothing was sent; trying again is safe.
    Retryable,
    /// The exchange broke off after the stream was opened, or the connector
    /// was driven out of turn. The request may or may not have been carried
    /// out.
    Fatal,
}

/// Where a connector stands within a request.
#[derive(Clone, Copy, Debug, PartialEq, Eq, Structural)]
pub enum Turn {
    /// Between requests.
    Idle,
    /// A fresh stream is being opened.
    Connecting,
    /// The request is being written.
    Sending,
    /// The response is being read.
    Receiving,
}

/// What happened since the last step.
#[derive(Debug)]
pub enum Signal {
    /// A request is to be sent; the clock reads `now`.
    Begin { now: u64 },
    /// The stream was opened.
    Connected,
    /// The stream could not be opened.
    ConnectFailed,
    /// The request was written and flushed; the clock reads `now`.
    Sent { now: u64 },
    /// Writing the request failed.
    SendFailed,
    /// The read returned these bytes.
    Received(Vec<u8>),
    /// The read failed.
    ReceiveFailed,
}

/// What the caller is to do next.
#[derive(Debug)]
pub enum Order {
    /// Drop the stream held, if any, and open a new one to the socket path.
    Connect,
    /// Write the whole request to the stream and flush it.
    Send,
    /// Read once from the stream.
    Receive,
    /// The request is complete: these bytes are the response.
    Deliver(Vec<u8>),
    /// The request failed.
    Fail(SendError),
}

/// The part of a connector that changes from step to step.
pub struct Link {
    /// Whether a stream is held that has not failed.
    pub live: bool,
    /// The clock reading when a request was last written.
    pub last_used: u64,
    /// Where the connector stands.
    pub turn: Turn,
}

/// What a step produces besides the new `Link`.
pub enum Outcome {
    Connect,
    Send,
    Receive,
    Deliver(Seq<u8>),
    Fail(SendError),
}

impl Link {
    /// Time since the stream was last used, as the clock at `now` shows it. A
    /// clock that reads earlier than the last use shows none.
    pub open spec fn idle_for(self, now: u64) -> int {
        if now >= self.last_used {
            now - self.last_used
        } else {
            0
        }
    }

    /// A request that begins at `now` cannot use the stream held: there is
    /// none, or it has been idle for longer than the reuse time.
    pub open spec fn stale(self, now: u64) -> bool {
        !self.live || self.idle_for(now) > REUSE_TTL_NANOS
    }

    /// The connector between requests again, without a stream.
    pub open spec fn dropped(self) -> Link {
        Link { live: false, last_used: self.last_used, turn: Turn::Idle }
    }

    /// The state after `signal`.
    pub open spec fn after(self, signal: Signal) -> Link {
        match (self.turn, signal) {
            (Turn::Idle, Signal::Begin { now }) => if self.stale(now) {
                Link { live: false, last_used: self.last_used, turn: Turn::Connecting }
            } else {
                Link { live: true, last_used: self.last_used, turn: Turn::Sending }
            },
            (Turn::Connecting, Signal::Connected) => Link {
                live: true,
                last_used: self.last_used,
                turn: Turn::Sending,
            },
            (Turn::Sending, Signal::Sent { now }) => Link {
                live: true,
                last_used: now,
                turn: Turn::Receiving,
            },
            (Turn::Receiving, Signal::Received(bytes)) => Link {
                live: true,
                last_used: self.last_used,
                turn: Turn::Idle,
            },
            _ => self.dropped(),
        }
    }

    /// What the caller is told after `signal`.
    pub open spec fn outcome(self, signal: Signal) -> Outcome {
        match (self.turn, signal) {
            (Turn::Idle, Signal::Begin { now }) => if self.stale(now) {
                Outcome::Connect
            } else {
                Outcome::Send
            },
            (Turn::Connecting, Signal::Connected) => Outcome::Send,
            (Turn::Connecting, Signal::ConnectFailed) => Outcome::Fail(SendError::Retryable),
            (Turn::Sending, Signal::Sent { now }) => Outcome::Receive,
            (Turn::Receiving, Signal::Received(bytes)) => Outcome::Deliver(bytes@),
            _ => Outcome::Fail(SendError::Fatal),
        }
    }
}

impl View for Order {
    type V = Outcome;

    open spec fn view(&self) -> Outcome {
        match *self {
            Order::Connect => Outcome::Connect,
            Order::Send => Outcome::Send,
            Order::Receive => Outcome::Receive,
            Order::Deliver(bytes) => Outcome::Deliver(bytes@),
            Order::Fail(error) => Outcome::Fail(error),
        }
    }
}

/// The client side of the connection to one daemon.
#[derive(Debug)]
pub struct Connector {
    path: String,
    live: bool,
    last_used: u64,
    turn: Turn,
}

impl View for Connector {
    type V = Link;

    closed spec fn view(&self) -> Link {
        Link { live: self.live, last_used: self.last_used, turn: self.turn }
    }
}

impl Connector {
    /// The socket path the connector was made for.
    pub closed spec fn target(&self) -> Seq<char> {
        self.path@
    }

    /// A connector for the daemon at `path` whose stream the caller has just
    /// opened, with the clock reading `now`.
    pub fn new(path: String, now: u64) -> (connector: Connector)
        ensures
            connector.target() == path@,
            connector@ == (Link { live: true, last_used: now, turn: Turn::Idle }),
    {
        Connector { path, live: true, last_used: now, turn: Turn::Idle }
    }

    /// A connector for the daemon at `path` that holds no stream yet. Its
    /// first request opens one.
    pub fn detached(path: String) -> (connector: Connector)
        ensures
            connector.target() == path@,
            connector@ == (Link { live: false, last_used: 0, turn: Turn::Idle }),
    {
        Connector { path, live: false, last_used: 0, turn: Turn::Idle }
    }

    /// The socket path to connect to.
    pub fn path(&self) -> (path: &str)
        ensures
            path@ == self.target(),
    {
        self.path.as_str()
    }

    /// Where the connector stands.
    pub fn turn(&self) -> (turn: Turn)
        ensures
            turn == self@.turn,
    {
        self.turn
    }

    /// Whether a request that begins at `now` has to open a fresh stream.
    pub fn stale(&self, now: u64) -> (stale: bool)
        ensures
            stale == self@.stale(now),
    {
        if !self.live {
            true
        } else if now >= self.last_used {
            now - self.last_used > REUSE_TTL_NANOS
        } else {
            false
        }
    }

    /// Takes one step: given what happened, says what to do next.
    ///
    /// The new state is `Link::after` and the order is `Link::outcome` of the
    /// old state and the signal. In particular the bytes delivered are
    /// exactly the bytes received, a signal that does not fit the turn fails
    /// the request, and every failure leaves the connector between requests
    /// without a stream. The socket path never changes.
    pub fn advance(&mut self, signal: Signal) -> (order: Order)
        ensures
            final(self)@ == old(self)@.after(signal),
            order@ == old(self)@.outcome(signal),
            final(self).target() == old(self).target(),
    {
        match (self.turn, signal) {
            (Turn::Idle, Signal::Begin { now }) => {
                if self.stale(now) {
                    self.live = false;
                    self.turn = Turn::Connecting;
                    Order::Connect
                } else {
                    self.turn = Turn::Sending;
                    Order::Send
                }
            },
            (Turn::Connecting, Signal::Connected) => {
                self.live = true;
                self.turn = Turn::Sending;
                Order::Send
            },
            (Turn::Connecting, Signal::ConnectFailed) => {
                self.live = false;
                self.turn = Turn::Idle;
                Order::Fail(SendError::Retryable)
            },
            (Turn::Sending, Signal::Sent { now }) => {
                self.live = true;
                self.last_used = now;
                self.turn = Turn::Receiving;
                Order::Receive
            },
            (Turn::Receiving, Signal::Received(bytes)) => {
                self.live = true;
                self.turn = Turn::Idle;
                Order::Deliver(bytes)
            },
            _ => {
                self.live = false;
                self.turn = Turn::Idle;
                Order::Fail(SendError::Fatal)
            },
        }
    }
}

/// States a connector can be in: it is sending or receiving only over a
/// stream it holds, and connecting only without one.
pub open spec fn link_wf(link: Link) -> bool {
    match link.turn {
        Turn::Idle => true,
        Turn::Connecting => !link.live,
        Turn::Sending => link.live,
        Turn::Receiving => link.live,
    }
}

/// Every step keeps the connector in such a state.
pub proof fn advance_keeps_wf(link: Link, signal: Signal)
    requires
        link_wf(link),
    ensures
        link_wf(link.after(signal)),
{
}

/// Stream reuse. Take a connector whose request was written at `sent_at` and
/// answered, and begin the next request at `now`.
///
/// If no more than the reuse time has passed, the request is written to the
/// stream already held: the first order is `Send`, with no `Connect` before
/// it. If more has passed, the first order is `Connect`, and `Send` follows
/// only once the fresh stream is reported open.
pub proof fn reuse_within_ttl(link: Link, sent_at: u64, response: Vec<u8>, now: u64)
    requires
        link.turn == Turn::Sending,
        sent_at <= now,
    ensures
        ({
            let idle = link.after(Signal::Sent { now: sent_at }).after(Signal::Received(response));
            &&& idle.turn == Turn::Idle && idle.live && idle.last_used == sent_at
            &&& now - sent_at <= REUSE_TTL_NANOS ==> {
                &&& idle.outcome(Signal::Begin { now }) == Outcome::Send
                &&& idle.after(Signal::Begin { now }).turn == Turn::Sending
                &&& idle.after(Signal::Begin { now }).live
            }
            &&& now - sent_at > REUSE_TTL_NANOS ==> {
                &&& idle.outcome(Signal::Begin { now }) == Outcome::Connect
                &&& idle.after(Signal::Begin { now }).turn == Turn::Connecting
                &&& !idle.after(Signal::Begin { now }).live
                &&& idle.after(Signal::Begin { now }).outcome(Signal::Connected) == Outcome::Send
            }
        }),
{
}

/// A request is only ever written to a stream that is held, and a stream is
/// only ever opened at the start of a request: `Send` is ordered on `Begin`
/// with a fresh enough stream or on `Connected`, and `Connect` on `Begin`
/// alone. Every failure leaves the connector between requests without a
/// stream, and the only failure that is safe to retry is a failed connect.
pub proof fn orders_in_turn(link: Link, signal: Signal)
    ensures
        link.outcome(signal) == Outcome::Connect ==> link.turn == Turn::Idle && signal is Begin,
        link.outcome(signal) == Outcome::Send ==> link.after(signal).live && (link.turn
            == Turn::Connecting && signal is Connected || link.turn == Turn::Idle
            && signal is Begin),
        link.outcome(signal) is Fail ==> link.after(signal) == link.dropped(),
        link.outcome(signal) == Outcome::Fail(SendError::Retryable) <==> link.turn
            == Turn::Connecting && signal is ConnectFailed,
{
}

/// Requests to one daemon take turns: while a request is under way a second
/// one is refused, so every response delivered answers the request that was
/// begun last.
pub proof fn one_request_at_a_time(link: Link, now: u64)
    requires
        link.turn != Turn::Idle,
    ensures
        link.outcome(Signal::Begin { now }) == Outcome::Fail(SendError::Fatal),
        link.after(Signal::Begin { now }).turn == Turn::Idle,
{
}

/// The frame the gateway's diagnostic endpoint sends to the general store: a
/// read of key 1, 2, .. 16 in bucket 1, with two bytes trailing.
pub fn probe_frame() -> (frame: Vec<u8>)
    ensures
        frame@ == seq![1u8, 1, 1, 2, 3, 4, 5, 6, 7, 8, 9, 10, 11, 12, 13, 14, 15, 16, 16, 16],
        parse_general(frame@) == Ok::<RequestView, Status>(
            RequestView {
                command: Command::Get,
                bucket: 1,
                key: seq![1u8, 2, 3, 4, 5, 6, 7, 8, 9, 10, 11, 12, 13, 14, 15, 16],
                payload: seq![16u8, 16],
            },
        ),
{
    let frame: Vec<u8> = vec![1u8, 1, 1, 2, 3, 4, 5, 6, 7, 8, 9, 10, 11, 12, 13, 14, 15, 16, 16, 16];
    proof {
        let bytes = frame@;
        assert(bytes.len() == 20);
        assert(bytes.subrange(2, 18) =~= seq![
            1u8,
            2,
            3,
            4,
            5,
            6,
            7,
            8,
            9,
            10,
            11,
            12,
            13,
            14,
            15,
            16,
        ]);
        assert(bytes.subrange(18, 20) =~= seq![16u8, 16]);
    }
    frame
}

} // verus!
