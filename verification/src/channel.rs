//! The borrowed channel to one worker process.
//!
//! The pool hands out an exclusively owned operation handle per exchange.
//! The byte transport behind it is the pool's concern; the handle models it
//! as a script of incoming events (what the worker will produce, in order,
//! including transport failures) and a log of outgoing messages, plus the
//! point, if any, at which sending fails.  The protocol logic is thereby
//! checked against every schedule the transport could produce; a host fills
//! the script from the real channel.

use vstd::prelude::*;

use crate::messages::{IncomingMessage, OutgoingMessage};

verus! {

/// A transport-level failure of the channel itself, as opposed to anything
/// the worker said: the process is presumed unhealthy.
#[derive(Clone, Copy, Debug, PartialEq, Eq)]
pub enum TransportError {
    /// The channel closed before the exchange was over.
    ChannelClosed,
    /// A frame arrived that could not be decoded.
    Decode,
    /// The surrounding pool imposed a timeout on the operation.
    Timeout,
}

/// How the worker process ended, once waited for or killed.
#[derive(Clone, Copy, Debug, PartialEq, Eq)]
pub struct ExitStatus {
    /// The exit code, or `None` when the process was ended by a signal.
    pub code: Option<i32>,
}

/// One scripted event on the incoming side: either a message from the
/// worker or a transport failure in its place.
#[derive(Debug, PartialEq, Eq)]
pub enum RecvEvent {
    Message(IncomingMessage),
    Fault(TransportError),
}

/// An exclusively owned capability for one exchange with one pooled worker
/// process.  Dropping it returns the slot to the pool; a handle whose
/// `reuse_disallowed` flag was raised is disposed of instead.
#[derive(Debug)]
pub struct OperationHandle {
    /// What the worker will produce, front first.
    pub incoming: Vec<RecvEvent>,
    /// Every message handed to the channel so far, in order.
    pub sent: Vec<OutgoingMessage>,
    /// When `Some(k)`, the send of the `k`-th outgoing message fails and the
    /// channel refuses everything from there on.
    pub send_fault_at: Option<usize>,
    /// Raised when the channel state became unknown; the pool must not hand
    /// this process to another exchange.
    pub reuse_disallowed: bool,
    /// What waiting for (or killing) the process reports.
    pub exit: ExitStatus,
    /// When set, waiting for the process itself fails.
    pub wait_fails: bool,
}

/// Holds when the next send on `h` is the one the script fails.
pub open spec fn send_blocked(h: OperationHandle) -> bool {
    match h.send_fault_at {
        Some(k) => k as int == h.sent@.len(),
        None => false,
    }
}

impl OperationHandle {
    /// A fresh handle over a scripted worker: nothing sent yet, reuse still
    /// allowed, every send accepted, a clean wait reporting exit code 0.
    pub fn over_script(incoming: Vec<RecvEvent>) -> (h: OperationHandle)
        ensures
            h.incoming@ == incoming@,
            h.sent@.len() == 0,
            h.send_fault_at is None,
            !h.reuse_disallowed,
            h.exit == (ExitStatus { code: Some(0) }),
            !h.wait_fails,
    {
        OperationHandle {
            incoming,
            sent: Vec::new(),
            send_fault_at: None,
            reuse_disallowed: false,
            exit: ExitStatus { code: Some(0) },
            wait_fails: false,
        }
    }

    /// Hands one message to the channel.  The message reaches the worker
    /// exactly when the scripted send fault is not due.
    pub fn send(&mut self, m: OutgoingMessage) -> (r: Result<(), TransportError>)
        ensures
            final(self).incoming@ == old(self).incoming@,
            final(self).send_fault_at == old(self).send_fault_at,
            final(self).reuse_disallowed == old(self).reuse_disallowed,
            final(self).exit == old(self).exit,
            final(self).wait_fails == old(self).wait_fails,
            send_blocked(*old(self)) ==> r == Err::<(), TransportError>(TransportError::ChannelClosed)
                && final(self).sent@ == old(self).sent@,
            !send_blocked(*old(self)) ==> r == Ok::<(), TransportError>(())
                && final(self).sent@ == old(self).sent@.push(m),
    {
        let blocked = match self.send_fault_at {
            Some(k) => k == self.sent.len(),
            None => false,
        };
        if blocked {
            Err(TransportError::ChannelClosed)
        } else {
            self.sent.push(m);
            Ok(())
        }
    }

    /// Takes the next incoming event: the scripted message or fault, or a
    /// closed-channel failure once the script is exhausted.
    pub fn recv(&mut self) -> (r: Result<IncomingMessage, TransportError>)
        ensures
            final(self).sent@ == old(self).sent@,
            final(self).send_fault_at == old(self).send_fault_at,
            final(self).reuse_disallowed == old(self).reuse_disallowed,
            final(self).exit == old(self).exit,
            final(self).wait_fails == old(self).wait_fails,
            old(self).incoming@.len() == 0 ==> final(self).incoming@ == old(self).incoming@
                && r == Err::<IncomingMessage, TransportError>(TransportError::ChannelClosed),
            old(self).incoming@.len() > 0 ==> final(self).incoming@ == old(self).incoming@.drop_first()
                && (match old(self).incoming@[0] {
                    RecvEvent::Message(m) => r == Ok::<IncomingMessage, TransportError>(m),
                    RecvEvent::Fault(e) => r == Err::<IncomingMessage, TransportError>(e),
                }),
    {
        if self.incoming.len() == 0 {
            return Err(TransportError::ChannelClosed);
        }
        let event = self.incoming.remove(0);
        proof {
            assert(old(self).incoming@.remove(0) =~= old(self).incoming@.drop_first());
        }
        match event {
            RecvEvent::Message(m) => Ok(m),
            RecvEvent::Fault(e) => Err(e),
        }
    }

    /// Marks the process unreusable: its channel state is unknown, so the
    /// pool must not hand it to another exchange.
    pub fn disallow_reuse(&mut self)
        ensures
            final(self).incoming@ == old(self).incoming@,
            final(self).sent@ == old(self).sent@,
            final(self).send_fault_at == old(self).send_fault_at,
            final(self).reuse_disallowed,
            final(self).exit == old(self).exit,
            final(self).wait_fails == old(self).wait_fails,
    {
        self.reuse_disallowed = true;
    }

    /// Waits for the process to exit, or forcibly terminates it, and reports
    /// how it ended.  Consumes the handle: the slot is given up either way.
    pub fn wait_or_kill(self) -> (r: Result<ExitStatus, TransportError>)
        ensures
            self.wait_fails ==> r == Err::<ExitStatus, TransportError>(TransportError::ChannelClosed),
            !self.wait_fails ==> r == Ok::<ExitStatus, TransportError>(self.exit),
    {
        if self.wait_fails {
            Err(TransportError::ChannelClosed)
        } else {
            Ok(self.exit)
        }
    }
}

} // verus!
