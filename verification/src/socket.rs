//! The loopback socket for calls from the server to the client.
//!
//! The socket joins three things: the queue on which outbound requests wait
//! for the transport, the table of calls that wait for a response, and the
//! lifecycle of the session. It splits into two halves that work without
//! each other, one that yields requests and one that accepts responses. Both
//! halves give way once the session has exited; what they do is decided here
//! from the state that they observe.
//!
//! The socket is generic in what it joins: `Q` is the queue, `T` the handle
//! of the table and `L` the handle of the lifecycle, each as the runtime
//! around the library provides them.

use vstd::prelude::*;

verus! {

/// How far the session has come. A session moves through these states in
/// order and never back.
#[derive(Debug, Clone, Copy, PartialEq, Eq, Hash, Structural)]
pub enum State {
    /// The session is being set up.
    Initializing,
    /// The session is set up and in use.
    Initialized,
    /// The session is being shut down.
    ShuttingDown,
    /// The session is over.
    Exited,
}

/// The failure of a half that was used after the session had exited. It is
/// final: nothing is retried after it.
#[derive(Debug, Clone, Copy, PartialEq, Eq, Structural)]
pub struct ExitedError;

/// What the request half does when it is asked for the next request.
#[derive(Debug, Clone, Copy, PartialEq, Eq, Structural)]
pub enum StreamStep {
    /// It reports the end of the requests, whatever its queue still holds.
    Finished,
    /// It asks its queue for the next request.
    PollQueue,
}

/// The socket before it is split.
#[derive(Debug)]
pub struct ClientSocket<Q, T, L> {
    pub rx: Q,
    pub pending: T,
    pub state: L,
}

/// The half that yields the requests to send to the client.
#[derive(Debug)]
#[must_use]
pub struct ClientRequestStream<Q, L> {
    pub rx: Q,
    pub state: L,
}

/// The half that takes the responses of the client back in.
#[derive(Debug)]
pub struct ClientResponseSink<T, L> {
    pub pending: T,
    pub state: L,
}

impl<Q, T, L: Clone> ClientSocket<Q, T, L> {
    /// Splits the socket into its two halves. The request half gets the
    /// queue, the response half the table; each gets a handle of the
    /// lifecycle.
    pub fn split(self) -> (halves: (ClientRequestStream<Q, L>, ClientResponseSink<T, L>))
        ensures
            halves.0.rx == self.rx,
            cloned(self.state, halves.0.state),
            halves.1.pending == self.pending,
            halves.1.state == self.state,
    {
        let ClientSocket { rx, pending, state } = self;
        (ClientRequestStream { rx, state: state.clone() }, ClientResponseSink { pending, state })
    }
}

impl State {
    /// The place of the state in the course of a session.
    pub open spec fn rank(self) -> nat {
        match self {
            State::Initializing => 0,
            State::Initialized => 1,
            State::ShuttingDown => 2,
            State::Exited => 3,
        }
    }

    /// The state as one byte, for a cell that tasks share: its rank.
    pub fn code(&self) -> (code: u8)
        ensures
            code == self.rank(),
    {
        match self {
            State::Initializing => 0,
            State::Initialized => 1,
            State::ShuttingDown => 2,
            State::Exited => 3,
        }
    }

    /// The state that a byte stands for. A byte that is the code of no state
    /// reads as the last state, so that a cell that was overwritten stops the
    /// socket instead of keeping it open.
    pub fn from_code(code: u8) -> (state: State)
        ensures
            state.rank() == if code < 3 {
                code
            } else {
                3
            },
    {
        match code {
            0 => State::Initializing,
            1 => State::Initialized,
            2 => State::ShuttingDown,
            _ => State::Exited,
        }
    }

    /// Whether the session is over. No state follows this one.
    pub fn is_exited(&self) -> (exited: bool)
        ensures
            exited == (*self == State::Exited),
            exited == (forall|next: State| next.rank() <= self.rank()),
    {
        proof {
            if *self != State::Exited {
                assert(!(State::Exited.rank() <= self.rank()));
            }
        }
        match self {
            State::Exited => true,
            _ => false,
        }
    }
}

/// Decides what the request half does when it is asked for the next request,
/// from the lifecycle state that it observes and from whether its queue has
/// ended. It reports the end once the session has exited, even if requests
/// are still queued, and once the queue has ended.
pub fn stream_step(state: State, queue_ended: bool) -> (step: StreamStep)
    ensures
        step == if state == State::Exited || queue_ended {
            StreamStep::Finished
        } else {
            StreamStep::PollQueue
        },
{
    if state.is_exited() || queue_ended {
        StreamStep::Finished
    } else {
        StreamStep::PollQueue
    }
}

/// Decides whether the response half takes another response, from the
/// lifecycle state that it observes. It refuses once the session has exited.
pub fn sink_ready(state: State) -> (ready: Result<(), ExitedError>)
    ensures
        ready is Err <==> state == State::Exited,
{
    if state.is_exited() {
        Err(ExitedError)
    } else {
        Ok(())
    }
}

} // verus!
