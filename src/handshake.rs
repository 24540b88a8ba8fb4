use vstd::prelude::*;
use crate::error::{Error, Result};

verus! {

/// The rendezvous between a thread that waits in a connect or reconnect and
/// the engine's connect-result callback. Each handshake gets a token; a result
/// is forwarded with the token of the handshake that was open when it came,
/// so that one which comes after its handshake ended is told apart and
/// dropped.
pub struct Handshake {
    pending: Option<u64>,
    next: u64,
}

/// What a handshake slot holds: the open handshake's token, if any, and the
/// token that the next handshake gets.
pub struct HandshakeView {
    pub pending: Option<u64>,
    pub next: u64,
}

impl View for Handshake {
    type V = HandshakeView;

    closed spec fn view(&self) -> HandshakeView {
        HandshakeView { pending: self.pending, next: self.next }
    }
}

/// The token after `t`, wrapping around at the largest value.
pub open spec fn token_after(t: u64) -> u64 {
    if t == u64::MAX {
        0
    } else {
        (t + 1) as u64
    }
}

/// The slot after a `begin`: unchanged while a handshake is open.
pub open spec fn begin_next(h: HandshakeView) -> HandshakeView {
    if h.pending is Some {
        h
    } else {
        HandshakeView { pending: Some(h.next), next: token_after(h.next) }
    }
}

/// What the connect-result callback hands to the waiting thread for `code`:
/// the code with the open handshake's token, or nothing when none is open.
pub open spec fn forward_spec(h: HandshakeView, code: i32) -> Option<(u64, i32)> {
    match h.pending {
        Some(t) => Some((t, code)),
        None => None,
    }
}

/// Whether `msg` is the result of the open handshake `token`.
pub open spec fn accepts(h: HandshakeView, token: u64, msg: (u64, i32)) -> bool {
    h.pending == Some(token) && msg.0 == token
}

/// The slot after the handshake `token` ended.
pub open spec fn close_next(h: HandshakeView, token: u64) -> HandshakeView {
    if h.pending == Some(token) {
        HandshakeView { pending: None, ..h }
    } else {
        h
    }
}

impl Handshake {
    /// No handshake open.
    pub fn new() -> (r: Self)
        ensures
            r@ == (HandshakeView { pending: None, next: 0 }),
    {
        Handshake { pending: None, next: 0 }
    }

    /// Opens a handshake and returns its token. Fails with
    /// `AlreadyConnected` while another is open.
    pub fn begin(&mut self) -> (r: Result<u64>)
        ensures
            final(self)@ == begin_next(old(self)@),
            old(self)@.pending is Some <==> r is Err,
            r is Err ==> r matches Err(Error::AlreadyConnected),
            r is Ok ==> r == Ok::<u64, Error>(old(self)@.next),
    {
        if self.pending.is_some() {
            Err(Error::AlreadyConnected)
        } else {
            let t = self.next;
            self.pending = Some(t);
            self.next = if t == u64::MAX {
                0
            } else {
                t + 1
            };
            Ok(t)
        }
    }

    /// The decision of the connect-result callback: the message to hand to
    /// the waiting thread, or nothing, in which case the result is dropped.
    pub fn forward(&self, code: i32) -> (r: Option<(u64, i32)>)
        ensures
            r == forward_spec(self@, code),
    {
        match self.pending {
            Some(t) => Some((t, code)),
            None => None,
        }
    }

    /// Takes a message that the waiting thread received for the handshake
    /// `token`. Returns its code, and closes the handshake, where it belongs to
    /// that handshake; returns nothing, and changes nothing, where it is a
    /// stale result of an earlier one.
    pub fn accept(&mut self, token: u64, msg: (u64, i32)) -> (r: Option<i32>)
        ensures
            accepts(old(self)@, token, msg) ==> r == Some(msg.1) && final(self)@ == close_next(
                old(self)@,
                token,
            ),
            !accepts(old(self)@, token, msg) ==> r is None && final(self)@ == old(self)@,
    {
        if self.pending == Some(token) && msg.0 == token {
            self.pending = None;
            Some(msg.1)
        } else {
            None
        }
    }

    /// Closes the handshake `token` without a result, as on a timeout.
    pub fn close(&mut self, token: u64)
        ensures
            final(self)@ == close_next(old(self)@, token),
    {
        if self.pending == Some(token) {
            self.pending = None;
        }
    }

    /// Whether a handshake is open.
    pub fn is_open(&self) -> (r: bool)
        ensures
            r == self@.pending is Some,
    {
        self.pending.is_some()
    }

    /// Whether the open handshake is `token`.
    pub fn is_open_for(&self, token: u64) -> (r: bool)
        ensures
            r == (self@.pending == Some(token)),
    {
        self.pending == Some(token)
    }
}

} // verus!
