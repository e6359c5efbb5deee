//! Printer session lifecycle: the state machine that governs connect, send
//! and disconnect over the single transport a session owns.
//!
//! The session holds the target address and a connected/disconnected flag; the
//! transport itself (a TCP-like byte stream) is owned and driven by the
//! caller. Every decision the lifecycle makes is a verified function here:
//! whether a live transport must be torn down before a reconnect, which
//! operations are refused while disconnected, and how a transport outcome
//! (connection opened or refused, write completed or failed) moves the session
//! to its next state. The caller performs the network action and hands the
//! outcome back.
//!
//! Disconnect policy is strict: disconnecting an already-disconnected session
//! reports [`PrinterError::NotConnected`] rather than being a silent no-op,
//! and the contracts below state exactly that.

use vstd::prelude::*;

use crate::codec::Command;
use crate::codec::spec_render;

verus! {

/// Failures a session operation can report.
#[derive(Clone, Copy, Debug, PartialEq, Eq, Structural)]
pub enum PrinterError {
    /// Establishing the transport failed.
    ConnectionError,
    /// An operation requiring a live transport found none.
    NotConnected,
    /// A write to an established transport failed partway or fully.
    WriteError,
}

/// The mathematical state of a printer session: the target address and
/// whether a transport is currently live.
#[verifier::ext_equal]
pub struct SessionState {
    pub ip: Seq<char>,
    pub port: u16,
    pub connected: bool,
}

/// The state of a session that has just been created: addressed, but with no
/// transport open.
pub open spec fn fresh_session(ip: Seq<char>, port: u16) -> SessionState {
    SessionState { ip, port, connected: false }
}

/// Gate for write-class operations: they proceed only on a connected session
/// and are refused with `NotConnected` otherwise, never silently ignored.
pub open spec fn send_gate(s: SessionState) -> Result<(), PrinterError> {
    if s.connected {
        Ok(())
    } else {
        Err(PrinterError::NotConnected)
    }
}

/// A new transport may be opened only while no transport is live: reconnecting
/// demands a full teardown of the prior transport first, so it cannot leak.
pub open spec fn may_open_transport(s: SessionState) -> bool {
    !s.connected
}

/// The session state after a disconnect: the transport handle is gone,
/// whatever the starting state was.
pub open spec fn after_disconnect(s: SessionState) -> SessionState {
    SessionState { connected: false, ..s }
}

/// What disconnect reports under the strict policy: success when a transport
/// was live, `NotConnected` when none was.
pub open spec fn disconnect_result(s: SessionState) -> Result<(), PrinterError> {
    if s.connected {
        Ok(())
    } else {
        Err(PrinterError::NotConnected)
    }
}

/// The session state after an attempt to open a transport: connected exactly
/// when the attempt succeeded; on failure no partially-initialized handle is
/// retained.
pub open spec fn after_connect_attempt(s: SessionState, opened: bool) -> SessionState {
    SessionState { connected: opened, ..s }
}

/// What a connect attempt reports: success, or `ConnectionError` when the
/// underlying network operation failed.
pub open spec fn connect_attempt_result(opened: bool) -> Result<(), PrinterError> {
    if opened {
        Ok(())
    } else {
        Err(PrinterError::ConnectionError)
    }
}

/// The session state after a write attempt on a connected session: a failed
/// write marks the session disconnected, so a dead transport is never left
/// looking live.
pub open spec fn after_write_attempt(s: SessionState, wrote_all: bool) -> SessionState {
    SessionState { connected: s.connected && wrote_all, ..s }
}

/// What a write attempt reports: success when the full payload was written,
/// `WriteError` otherwise; no partial-success state is exposed.
pub open spec fn write_attempt_result(wrote_all: bool) -> Result<(), PrinterError> {
    if wrote_all {
        Ok(())
    } else {
        Err(PrinterError::WriteError)
    }
}

/// Reply handling for status queries. Reading the device's status byte is an
/// explicit extension point, not yet implemented: a query is written to the
/// transport and any reply the device sends is left unread. This marker makes
/// that visible to callers, so silence cannot be mistaken for a real reply.
#[derive(Clone, Copy, Debug, PartialEq, Eq, Structural)]
pub enum ResponseSupport {
    NotImplemented,
}

/// A printer session: one target endpoint, at most one live transport at a
/// time. Created disconnected; a transport outcome reported by the caller
/// moves it between states.
#[derive(Debug)]
pub struct Printer {
    ip: String,
    port: u16,
    connected: bool,
}

impl View for Printer {
    type V = SessionState;

    closed spec fn view(&self) -> SessionState {
        SessionState { ip: self.ip@, port: self.port, connected: self.connected }
    }
}

impl Printer {
    /// Create a session addressed at `ip:port`, with no transport open. Pure;
    /// always succeeds; does not connect.
    pub fn new(ip: String, port: u16) -> (r: Self)
        ensures
            r@ == fresh_session(ip@, port),
    {
        Printer { ip, port, connected: false }
    }

    /// Whether a transport is currently live.
    pub fn is_connected(&self) -> (r: bool)
        ensures
            r == self@.connected,
    {
        self.connected
    }

    /// The target host, for the caller that opens the transport.
    pub fn ip(&self) -> (r: &String)
        ensures
            r@ == self@.ip,
    {
        &self.ip
    }

    /// The target port, for the caller that opens the transport.
    pub fn port(&self) -> (r: u16)
        ensures
            r == self@.port,
    {
        self.port
    }

    /// Whether a reconnect must first tear the live transport down. True
    /// exactly when a transport is live: connect is safe to call repeatedly,
    /// but never on top of an undisposed transport.
    pub fn needs_disconnect_before_connect(&self) -> (r: bool)
        ensures
            r == !may_open_transport(self@),
    {
        self.connected
    }

    /// Record the outcome of an attempt to open a transport to `ip:port`.
    /// Requires that no transport is live (a prior one must have been torn
    /// down first). On success the session is connected; on failure it stays
    /// disconnected and reports `ConnectionError`.
    pub fn complete_connect(&mut self, opened: bool) -> (r: Result<(), PrinterError>)
        requires
            may_open_transport(old(self)@),
        ensures
            final(self)@ == after_connect_attempt(old(self)@, opened),
            r == connect_attempt_result(opened),
    {
        self.connected = opened;
        if opened {
            Ok(())
        } else {
            Err(PrinterError::ConnectionError)
        }
    }

    /// Tear the session down under the strict policy: when a transport is
    /// live, clear it and succeed (the caller shuts the transport itself
    /// down); when none is, report `NotConnected`. Either way the session
    /// ends disconnected.
    pub fn disconnect(&mut self) -> (r: Result<(), PrinterError>)
        ensures
            final(self)@ == after_disconnect(old(self)@),
            r == disconnect_result(old(self)@),
    {
        if self.connected {
            self.connected = false;
            Ok(())
        } else {
            Err(PrinterError::NotConnected)
        }
    }

    /// Admission for a write-class operation before it touches the transport:
    /// succeeds exactly when a transport is live, and refuses with
    /// `NotConnected` otherwise.
    pub fn require_connected(&self) -> (r: Result<(), PrinterError>)
        ensures
            r == send_gate(self@),
    {
        if self.connected {
            Ok(())
        } else {
            Err(PrinterError::NotConnected)
        }
    }

    /// Record the outcome of a write on the live transport. A completed write
    /// leaves the session connected; a failed one reports `WriteError` and
    /// marks the session disconnected, so the flag stays consistent with a
    /// transport that can no longer be trusted.
    pub fn complete_send(&mut self, wrote_all: bool) -> (r: Result<(), PrinterError>)
        requires
            old(self)@.connected,
        ensures
            final(self)@ == after_write_attempt(old(self)@, wrote_all),
            r == write_attempt_result(wrote_all),
    {
        if wrote_all {
            Ok(())
        } else {
            self.connected = false;
            Err(PrinterError::WriteError)
        }
    }

    /// The compute half of executing a command: pass the send gate, then
    /// render the command. On a connected session this returns exactly the
    /// command's wire bytes for the caller to write; on a disconnected one it
    /// refuses with `NotConnected` and renders nothing.
    pub fn prepare_command(&self, command: &Command) -> (r: Result<Vec<u8>, PrinterError>)
        ensures
            self@.connected ==> (r matches Ok(bytes) && bytes@ == spec_render(command@)),
            !self@.connected ==> r == Err::<Vec<u8>, PrinterError>(PrinterError::NotConnected),
    {
        if self.connected {
            Ok(command.raw())
        } else {
            Err(PrinterError::NotConnected)
        }
    }

    /// The session's capability for reading a device reply to a query:
    /// explicitly not implemented yet.
    pub fn response_support(&self) -> (r: ResponseSupport)
        ensures
            r == ResponseSupport::NotImplemented,
    {
        ResponseSupport::NotImplemented
    }
}

/// A fresh session is not connected, and a write-class operation on it is
/// refused with `NotConnected`.
pub proof fn lemma_fresh_session_rejects_send(ip: Seq<char>, port: u16)
    ensures
        !fresh_session(ip, port).connected,
        send_gate(fresh_session(ip, port)) == Err::<(), PrinterError>(PrinterError::NotConnected),
{
}

/// After a disconnect the session is not connected, and a subsequent
/// write-class operation is refused with `NotConnected`.
pub proof fn lemma_disconnected_session_rejects_send(s: SessionState)
    ensures
        !after_disconnect(s).connected,
        send_gate(after_disconnect(s)) == Err::<(), PrinterError>(PrinterError::NotConnected),
{
}

/// A connected session admits no second transport until the live one is torn
/// down, and may open one immediately after its disconnect: a reconnect can
/// never leak the prior transport.
pub proof fn lemma_reconnect_requires_teardown(s: SessionState)
    requires
        s.connected,
    ensures
        !may_open_transport(s),
        may_open_transport(after_disconnect(s)),
{
}

/// A write that fails on a connected session surfaces `WriteError` and leaves
/// the session disconnected, while a completed write leaves it connected: the
/// connected flag stays consistent either way.
pub proof fn lemma_write_outcome_keeps_flag_consistent(s: SessionState)
    requires
        s.connected,
    ensures
        write_attempt_result(false) == Err::<(), PrinterError>(PrinterError::WriteError),
        !after_write_attempt(s, false).connected,
        write_attempt_result(true) == Ok::<(), PrinterError>(()),
        after_write_attempt(s, true).connected,
{
}

} // verus!
