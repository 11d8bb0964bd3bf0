use vstd::prelude::*;
use vstd::string::StringExecFns;
use crate::error::BridgeError;
use crate::headers::{connect_planned, opt_str_view, plan_connect, ConnectPlan};

verus! {

/// What a connect attempt leaves behind: the new session when the handshake
/// succeeded, none otherwise.
pub open spec fn connect_outcome<S>(outcome: Result<S, BridgeError>) -> Option<S> {
    match outcome {
        Ok(s) => Some(s),
        Err(_) => None,
    }
}

/// The first half of a disconnect: either it is already over (nothing was
/// live), or the session taken out must be cancelled.
pub enum Disconnect<S> {
    /// No session was live: the disconnect succeeded with nothing to do.
    AlreadyIdle,
    /// Cancel this session, then report how that went to `finish_disconnect`.
    Cancel(S),
}

/// What a disconnect from state `state` begins with.
pub open spec fn disconnect_step<S>(state: Option<S>) -> Disconnect<S> {
    match state {
        Some(s) => Disconnect::Cancel(s),
        None => Disconnect::AlreadyIdle,
    }
}

/// At most one live session: `Idle` holds none, `Connected` holds one.
/// Only the worker that runs the commands owns and changes it.
pub struct Connection<S> {
    session: Option<S>,
}

impl<S> View for Connection<S> {
    type V = Option<S>;

    closed spec fn view(&self) -> Option<S> {
        self.session
    }
}

impl<S> Connection<S> {
    /// A connection in state `Idle`.
    pub fn new() -> (r: Connection<S>)
        ensures
            r@ is None,
    {
        Connection { session: None }
    }

    /// Whether a session is established.
    pub fn is_connected(&self) -> (r: bool)
        ensures
            r == self@ is Some,
    {
        self.session.is_some()
    }

    /// Puts the connection in `Idle` and hands back the session that was live,
    /// if any, for the caller to cancel. Both a new connect (before it starts, so
    /// that a failed attempt leaves no stale session) and a disconnect begin so.
    pub fn take_session(&mut self) -> (r: Option<S>)
        ensures
            r == old(self)@,
            final(self)@ is None,
    {
        self.session.take()
    }

    /// Ends a connect attempt: on success the new session becomes the live one;
    /// on failure the state is `Idle` and the error is handed back. Nothing in
    /// between is ever kept.
    pub fn finish_connect(&mut self, outcome: Result<S, BridgeError>) -> (r: Result<(), BridgeError>)
        ensures
            final(self)@ == connect_outcome(outcome),
            outcome is Ok ==> r is Ok,
            outcome matches Err(e) ==> r == Err::<(), BridgeError>(e),
    {
        match outcome {
            Ok(s) => {
                self.session = Some(s);
                Ok(())
            },
            Err(e) => {
                self.session = None;
                Err(e)
            },
        }
    }

    /// Begins a disconnect: the connection is `Idle` afterwards; the session
    /// that was live, if any, is handed back to be cancelled. From `Idle` the
    /// disconnect is a successful no-op.
    pub fn begin_disconnect(&mut self) -> (r: Disconnect<S>)
        ensures
            r == disconnect_step(old(self)@),
            final(self)@ is None,
    {
        match self.session.take() {
            Some(s) => Disconnect::Cancel(s),
            None => Disconnect::AlreadyIdle,
        }
    }

    /// Begins a connect: the live session, if any, is taken out to be
    /// cancelled (so a failed attempt never leaves a stale session behind), and
    /// the inputs are checked as `plan_connect` says.
    pub fn begin_connect(&mut self, url: &str, headers: Option<&str>, legacy_transport: bool) -> (r: (
        Option<S>,
        Result<ConnectPlan, BridgeError>,
    ))
        ensures
            r.0 == old(self)@,
            final(self)@ is None,
            connect_planned(url@, opt_str_view(headers), legacy_transport, r.1),
    {
        let previous = self.session.take();
        (previous, plan_connect(url, headers, legacy_transport))
    }

    /// The live session, for listing or calling tools; `NotConnected` while
    /// `Idle`. The state is never changed by this.
    pub fn session(&self) -> (r: Result<&S, BridgeError>)
        ensures
            self@ is None <==> r == Err::<&S, BridgeError>(BridgeError::NotConnected),
            self@ matches Some(s) ==> r == Ok::<&S, BridgeError>(&s),
    {
        match &self.session {
            Some(s) => Ok(s),
            None => Err(BridgeError::NotConnected),
        }
    }
}

/// The outcome of a disconnect, given how cancelling went: `None` when
/// nothing was live (a successful no-op), else the outcome of cancelling the
/// session, whose failure is reported with its text. The state is `Idle`
/// either way.
pub fn finish_disconnect(cancel: Option<Result<(), String>>) -> (r: Result<(), BridgeError>)
    ensures
        cancel is None ==> r is Ok,
        cancel matches Some(Ok(())) ==> r is Ok,
        cancel matches Some(Err(m)) ==> r matches Err(BridgeError::Protocol(t)) && t@ == "Failed to disconnect: "@ + m@,
{
    match cancel {
        None => Ok(()),
        Some(Ok(())) => Ok(()),
        Some(Err(m)) => Err(BridgeError::Protocol(String::from_str("Failed to disconnect: ").concat(m.as_str()))),
    }
}

/// Disconnecting is idempotent: after any disconnect the connection is
/// `Idle`, and a disconnect from `Idle` has nothing to cancel, so repeating it
/// changes nothing and succeeds.
pub proof fn lemma_disconnect_idempotent<S>(state: Option<S>)
    ensures
        disconnect_step::<S>(None) is AlreadyIdle,
        state is None ==> disconnect_step(state) is AlreadyIdle,
        state matches Some(s) ==> disconnect_step(state) == Disconnect::Cancel(s),
{
}

/// A connect never leaves a half-built session behind: once the previous
/// session was taken and the attempt finished, the state is either `Idle` or
/// connected to exactly the session the attempt produced.
pub proof fn lemma_connect_all_or_nothing<S>(outcome: Result<S, BridgeError>)
    ensures
        connect_outcome(outcome) is None || (outcome is Ok && connect_outcome(outcome) == Some(outcome->Ok_0)),
        outcome is Err ==> connect_outcome(outcome) is None,
{
}

} // verus!
