//! The server's settings and the decisions of its accept loop.

use vstd::prelude::*;
use vstd::string::StringExecFns;

verus! {

/// How long the accept loop sleeps when no connection is ready, in milliseconds.
/// Shutdown is noticed at the latest one interval after it was requested.
pub const POLL_INTERVAL_MILLIS: u64 = 20;

/// Where the server listens, which directory it serves and how many workers it runs.
#[derive(Debug)]
pub struct WebServer {
    addr: String,
    root: String,
    threads: usize,
}

/// A server's settings as plain values.
pub struct WebServerView {
    pub addr: Seq<char>,
    pub root: Seq<char>,
    pub threads: nat,
}

/// The number of workers a server runs when `threads` were asked for: at least one.
pub open spec fn worker_count(threads: nat) -> nat {
    if threads == 0 {
        1
    } else {
        threads
    }
}

impl View for WebServer {
    type V = WebServerView;

    closed spec fn view(&self) -> WebServerView {
        WebServerView { addr: self.addr@, root: self.root@, threads: self.threads as nat }
    }
}

impl WebServer {
    #[verifier::type_invariant]
    spec fn has_a_worker(&self) -> bool {
        self.threads >= 1
    }

    /// Settings for a server on `addr` that serves the files under `root` with
    /// `threads` workers, or with one where none was asked for.
    pub fn new(addr: &str, root: &str, threads: usize) -> (server: Self)
        ensures
            server@ == (WebServerView {
                addr: addr@,
                root: root@,
                threads: worker_count(threads as nat),
            }),
    {
        let threads: usize = if threads == 0 {
            1
        } else {
            threads
        };
        WebServer { addr: String::from_str(addr), root: String::from_str(root), threads }
    }

    /// The address to listen on.
    pub fn addr(&self) -> (addr: &str)
        ensures
            addr@ == self@.addr,
    {
        self.addr.as_str()
    }

    /// The directory whose files are served.
    pub fn root(&self) -> (root: &str)
        ensures
            root@ == self@.root,
    {
        self.root.as_str()
    }

    /// The size of the worker pool; never zero.
    pub fn threads(&self) -> (threads: usize)
        ensures
            threads == self@.threads,
            threads >= 1,
    {
        proof {
            use_type_invariant(self);
        }
        self.threads
    }
}

/// The two states of the accept loop. `Stopped` is final.
#[derive(Clone, Copy, Debug, PartialEq, Eq)]
pub enum LoopState {
    Accepting,
    Stopped,
}

/// How one non-blocking attempt to accept a connection ended.
#[derive(Clone, Copy, Debug, PartialEq, Eq)]
pub enum Accepted {
    /// A connection is ready.
    Connection,
    /// No connection is ready yet.
    WouldBlock,
    /// The listener failed in any other way.
    Failed,
}

/// What the loop does after an attempt to accept.
#[derive(Clone, Copy, Debug, PartialEq, Eq)]
pub enum Step {
    /// Hand the connection to the worker pool as one job, and go on.
    Dispatch,
    /// Sleep for the poll interval, and go on.
    Sleep,
    /// Leave the loop: drop the listener, dispose of the pool, and report success.
    Stop,
    /// Leave the loop: drop the listener, dispose of the pool, and report the failure.
    Fail,
}

/// The state after the shutdown flag was looked at, at the top of an iteration.
pub open spec fn after_observe(state: LoopState, shutdown: bool) -> LoopState {
    if shutdown {
        LoopState::Stopped
    } else {
        state
    }
}

/// The step that follows an attempt to accept.
pub open spec fn step_for(state: LoopState, outcome: Accepted) -> Step {
    match state {
        LoopState::Stopped => Step::Stop,
        LoopState::Accepting => match outcome {
            Accepted::Connection => Step::Dispatch,
            Accepted::WouldBlock => Step::Sleep,
            Accepted::Failed => Step::Fail,
        },
    }
}

/// The state after an attempt to accept.
pub open spec fn after_accept(state: LoopState, outcome: Accepted) -> LoopState {
    match step_for(state, outcome) {
        Step::Dispatch | Step::Sleep => LoopState::Accepting,
        Step::Stop | Step::Fail => LoopState::Stopped,
    }
}

/// The accept loop's state machine. The caller owns the listener and the pool and
/// does what each step names; the decisions are taken here.
pub struct AcceptLoop {
    state: LoopState,
}

impl View for AcceptLoop {
    type V = LoopState;

    closed spec fn view(&self) -> LoopState {
        self.state
    }
}

impl AcceptLoop {
    /// A loop that is accepting.
    pub fn new() -> (accept_loop: Self)
        ensures
            accept_loop@ == LoopState::Accepting,
    {
        AcceptLoop { state: LoopState::Accepting }
    }

    /// The state the loop is in.
    pub fn state(&self) -> (state: LoopState)
        ensures
            state == self@,
    {
        self.state
    }

    /// Begins an iteration with the shutdown flag as it was just read. Returns whether
    /// to go on and try to accept; once it has returned `false` the loop is over.
    pub fn observe(&mut self, shutdown: bool) -> (go_on: bool)
        ensures
            final(self)@ == after_observe(old(self)@, shutdown),
            go_on == (final(self)@ == LoopState::Accepting),
    {
        if shutdown {
            self.state = LoopState::Stopped;
        }
        match self.state {
            LoopState::Accepting => true,
            LoopState::Stopped => false,
        }
    }

    /// Takes the outcome of one attempt to accept and says what to do with it.
    pub fn accepted(&mut self, outcome: Accepted) -> (step: Step)
        ensures
            step == step_for(old(self)@, outcome),
            final(self)@ == after_accept(old(self)@, outcome),
    {
        match self.state {
            LoopState::Stopped => Step::Stop,
            LoopState::Accepting => match outcome {
                Accepted::Connection => Step::Dispatch,
                Accepted::WouldBlock => Step::Sleep,
                Accepted::Failed => {
                    self.state = LoopState::Stopped;
                    Step::Fail
                },
            },
        }
    }
}

/// A stopped loop stays stopped, whatever the flag and the listener do afterwards, and
/// never again dispatches a connection.
pub proof fn stopped_is_final(shutdown: bool, outcome: Accepted)
    ensures
        after_observe(LoopState::Stopped, shutdown) == LoopState::Stopped,
        after_accept(LoopState::Stopped, outcome) == LoopState::Stopped,
        step_for(LoopState::Stopped, outcome) == Step::Stop,
{
}

/// An accepting loop stops in exactly two ways: the shutdown flag is seen set, or an
/// attempt to accept fails with anything but would-block.
pub proof fn loop_stops_on_shutdown_or_failure(shutdown: bool, outcome: Accepted)
    ensures
        after_observe(LoopState::Accepting, shutdown) == LoopState::Stopped <==> shutdown,
        after_accept(LoopState::Accepting, outcome) == LoopState::Stopped <==> outcome
            == Accepted::Failed,
{
}

} // verus!
