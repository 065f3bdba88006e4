//! The one-shot parameter channel: its well-known endpoint name, the bounded
//! peer-wait policy, and the single-use lifecycle of a channel.
//!
//! The channel itself is a named local byte-stream endpoint that the
//! operating system provides; this module decides when a connect attempt
//! counts as success, how many attempts are allowed, and which lifecycle
//! transitions a channel may take.

use vstd::prelude::*;

verus! {

/// Attempts the peer-wait loop makes before giving up.
pub const MAX_CONNECT_ATTEMPTS: usize = 30;
/// Delay between two connect attempts, in milliseconds.
pub const CONNECT_RETRY_DELAY_MS: u64 = 100;
/// How long the channel stays open after the record is written, in
/// milliseconds, so the injected code can read and act on it.
pub const SETTLE_DELAY_MS: u64 = 3000;
/// Error code the connect call leaves when the peer is already connected;
/// the one outcome that counts as success.
pub const ERROR_PIPE_CONNECTED: u32 = 535;

/// The well-known name of the channel endpoint, constant for the process
/// lifetime; the injected module connects to this exact name.
pub fn channel_name() -> (r: &'static str)
    ensures
        r@ == "\\\\.\\pipe\\excludefromcapture_pipedlldata"@,
{
    "\\\\.\\pipe\\excludefromcapture_pipedlldata"
}

/// What one connect attempt on the non-blocking endpoint reported.
#[derive(Clone, Copy, PartialEq, Eq, Structural, Debug)]
pub struct ConnectAttempt {
    /// The connect call itself returned success.
    pub accepted: bool,
    /// The error code left after the call.
    pub last_error: u32,
}

/// An attempt counts as a connection exactly when the connect call failed
/// with "peer already connected": on a non-blocking outbound endpoint that
/// is how an arrived peer shows itself. Every other outcome keeps polling.
pub open spec fn spec_attempt_connected(a: ConnectAttempt) -> bool {
    !a.accepted && a.last_error == ERROR_PIPE_CONNECTED
}

/// Whether one connect attempt found the peer connected.
pub fn attempt_connected(a: &ConnectAttempt) -> (b: bool)
    ensures
        b == spec_attempt_connected(*a),
{
    !a.accepted && a.last_error == ERROR_PIPE_CONNECTED
}

/// How many attempts the wait consumes from a given run of outcomes: the
/// budget and the outcomes on hand both bound it.
pub open spec fn spec_wait_budget(outcomes: Seq<ConnectAttempt>) -> int {
    if outcomes.len() < MAX_CONNECT_ATTEMPTS {
        outcomes.len() as int
    } else {
        MAX_CONNECT_ATTEMPTS as int
    }
}

/// The wait succeeds on the run exactly when some attempt within budget
/// finds the peer connected.
pub open spec fn spec_wait_connects(outcomes: Seq<ConnectAttempt>) -> bool {
    exists|i: int| 0 <= i < spec_wait_budget(outcomes) && spec_attempt_connected(outcomes[i])
}

/// Result of the peer-wait loop: whether a peer connected, and how many
/// attempts were spent.
#[derive(Clone, Copy, PartialEq, Eq, Structural, Debug)]
pub struct WaitOutcome {
    pub connected: bool,
    pub attempts_used: usize,
}

/// The peer-wait loop over the outcomes the endpoint would report on each
/// successive attempt, in order. It stops at the first attempt that finds
/// the peer connected, and gives up once the attempt budget, or the run of
/// outcomes, is exhausted. At most `MAX_CONNECT_ATTEMPTS` attempts are ever
/// made, each preceded by one retry delay, so the caller waits about three
/// seconds in the worst case.
pub fn wait_for_peer(outcomes: &Vec<ConnectAttempt>) -> (r: WaitOutcome)
    ensures
        r.attempts_used <= MAX_CONNECT_ATTEMPTS,
        r.attempts_used <= outcomes@.len(),
        r.connected == spec_wait_connects(outcomes@),
        r.connected ==> {
            &&& r.attempts_used >= 1
            &&& spec_attempt_connected(outcomes@[r.attempts_used - 1])
            &&& forall|j: int| 0 <= j < r.attempts_used - 1 ==> !spec_attempt_connected(outcomes@[j])
        },
        !r.connected ==> r.attempts_used == spec_wait_budget(outcomes@),
{
    let mut i: usize = 0;
    let budget: usize = if outcomes.len() < MAX_CONNECT_ATTEMPTS {
        outcomes.len()
    } else {
        MAX_CONNECT_ATTEMPTS
    };
    while i < budget
        invariant
            0 <= i <= budget,
            budget == spec_wait_budget(outcomes@),
            budget <= outcomes@.len(),
            forall|j: int| 0 <= j < i ==> !spec_attempt_connected(outcomes@[j]),
        decreases budget - i,
    {
        if attempt_connected(&outcomes[i]) {
            return WaitOutcome { connected: true, attempts_used: i + 1 };
        }
        i = i + 1;
    }
    WaitOutcome { connected: false, attempts_used: budget }
}

/// Lifecycle of the one-shot channel, terminal on the first successful
/// write or on failure.
#[derive(Clone, Copy, PartialEq, Eq, Structural, Debug)]
pub enum ChannelState {
    /// The endpoint exists; the injector has not been launched yet.
    Created,
    /// Polling for the injected code to connect.
    WaitingForPeerConnect,
    /// A peer connected; exactly one record may now be written.
    Connected,
    /// The single record was written; the channel only settles and closes.
    DataWritten,
    /// The endpoint is released; nothing more may happen on it.
    Closed,
}

/// A channel with its single-use bookkeeping: how many parameter records
/// have been written over it.
#[derive(Clone, Copy, PartialEq, Eq, Structural, Debug)]
pub struct ChannelSession {
    pub state: ChannelState,
    pub records_written: u32,
}

impl ChannelSession {
    /// Single-use invariant: at most one record is ever written, a record
    /// exists exactly from the write on, and a written channel never returns
    /// to an earlier lifecycle state.
    pub open spec fn wf(self) -> bool {
        &&& self.records_written <= 1
        &&& (self.state is DataWritten ==> self.records_written == 1)
        &&& (self.state is Created || self.state is WaitingForPeerConnect
            || self.state is Connected ==> self.records_written == 0)
    }

    /// A fresh channel, created before the injector is launched so the
    /// injected code cannot connect before anyone listens.
    pub fn create() -> (r: ChannelSession)
        ensures
            r.wf(),
            r.state is Created,
            r.records_written == 0,
    {
        ChannelSession { state: ChannelState::Created, records_written: 0 }
    }

    /// The injector is launched; the channel starts polling for its peer.
    pub fn begin_wait(&mut self)
        requires
            old(self).wf(),
            old(self).state is Created,
        ensures
            final(self).wf(),
            final(self).state is WaitingForPeerConnect,
            final(self).records_written == old(self).records_written,
    {
        self.state = ChannelState::WaitingForPeerConnect;
    }

    /// The peer-wait loop finished: a connection moves the channel on, an
    /// exhausted budget tears it down.
    pub fn finish_wait(&mut self, connected: bool)
        requires
            old(self).wf(),
            old(self).state is WaitingForPeerConnect,
        ensures
            final(self).wf(),
            connected ==> final(self).state is Connected,
            !connected ==> final(self).state is Closed,
            final(self).records_written == old(self).records_written,
    {
        if connected {
            self.state = ChannelState::Connected;
        } else {
            self.state = ChannelState::Closed;
        }
    }

    /// The one write of the parameter record: a full write moves the channel
    /// to its written state, a short or failed write tears it down. Either
    /// way the channel is spent: no path leads back to a writable state.
    pub fn write_record(&mut self, ok: bool)
        requires
            old(self).wf(),
            old(self).state is Connected,
        ensures
            final(self).wf(),
            ok ==> final(self).state is DataWritten && final(self).records_written == 1,
            !ok ==> final(self).state is Closed && final(self).records_written == 0,
            old(self).records_written == 0,
    {
        if ok {
            self.state = ChannelState::DataWritten;
            self.records_written = 1;
        } else {
            self.state = ChannelState::Closed;
        }
    }

    /// Release the endpoint. The record count is untouched: closing cannot
    /// unwrite or rewrite anything.
    pub fn close(&mut self)
        requires
            old(self).wf(),
        ensures
            final(self).wf(),
            final(self).state is Closed,
            final(self).records_written == old(self).records_written,
    {
        self.state = ChannelState::Closed;
    }
}

} // verus!
