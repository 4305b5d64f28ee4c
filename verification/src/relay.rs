use vstd::prelude::*;

verus! {

/// What the relay loop must do next after an event on one direction.
#[derive(Debug, Clone, Copy, PartialEq, Eq, Structural)]
pub enum RelayDirective {
    /// Keep copying on the directions still open.
    Proceed,
    /// A clean EOF from the client: shut down writes toward the
    /// destination so in-flight data can drain (half-close).
    ShutdownDestWrite,
    /// A clean EOF from the destination: shut down writes toward the
    /// client (half-close).
    ShutdownClientWrite,
    /// A hard I/O error: stop the relay at once.
    Stop,
}

/// The relay's bookkeeping: which directions are still copying, and how
/// many bytes each direction has moved.  The relay is done once both
/// directions have completed; a hard error closes both at once.
#[derive(Debug, Clone, Copy, PartialEq, Eq, Structural)]
pub struct RelayState {
    /// The client-to-destination direction has not yet seen EOF.
    pub client_open: bool,
    /// The destination-to-client direction has not yet seen EOF.
    pub dest_open: bool,
    /// Bytes moved from the client to the destination.
    pub to_dest: u64,
    /// Bytes moved from the destination to the client.
    pub to_client: u64,
}

impl RelayState {
    /// The relay terminates once both directions have completed.
    pub open spec fn done(self) -> bool {
        !self.client_open && !self.dest_open
    }

    /// A fresh relay: both directions open, nothing transferred yet.
    pub fn begin() -> (s: RelayState)
        ensures
            s.client_open,
            s.dest_open,
            s.to_dest == 0,
            s.to_client == 0,
    {
        RelayState { client_open: true, dest_open: true, to_dest: 0, to_client: 0 }
    }

    /// Records `n` bytes copied from the client to the destination.
    pub fn on_client_chunk(&mut self, n: u64) -> (d: RelayDirective)
        requires
            old(self).client_open,
            old(self).to_dest + n <= u64::MAX,
        ensures
            *final(self) == (RelayState { to_dest: (old(self).to_dest + n) as u64, ..*old(self) }),
            d == RelayDirective::Proceed,
    {
        self.to_dest = self.to_dest + n;
        RelayDirective::Proceed
    }

    /// Records `n` bytes copied from the destination to the client.
    pub fn on_dest_chunk(&mut self, n: u64) -> (d: RelayDirective)
        requires
            old(self).dest_open,
            old(self).to_client + n <= u64::MAX,
        ensures
            *final(self) == (RelayState { to_client: (old(self).to_client + n) as u64, ..*old(self) }),
            d == RelayDirective::Proceed,
    {
        self.to_client = self.to_client + n;
        RelayDirective::Proceed
    }

    /// A clean EOF from the client ends only that direction and asks for
    /// a half-close toward the destination; the other direction keeps
    /// draining.
    pub fn on_client_eof(&mut self) -> (d: RelayDirective)
        requires
            old(self).client_open,
        ensures
            *final(self) == (RelayState { client_open: false, ..*old(self) }),
            d == RelayDirective::ShutdownDestWrite,
    {
        self.client_open = false;
        RelayDirective::ShutdownDestWrite
    }

    /// A clean EOF from the destination, mirrored.
    pub fn on_dest_eof(&mut self) -> (d: RelayDirective)
        requires
            old(self).dest_open,
        ensures
            *final(self) == (RelayState { dest_open: false, ..*old(self) }),
            d == RelayDirective::ShutdownClientWrite,
    {
        self.dest_open = false;
        RelayDirective::ShutdownClientWrite
    }

    /// A hard I/O error on either direction ends the whole relay; the
    /// counts so far are kept for the report.
    pub fn on_error(&mut self) -> (d: RelayDirective)
        ensures
            *final(self) == (RelayState {
                client_open: false,
                dest_open: false,
                ..*old(self)
            }),
            d == RelayDirective::Stop,
    {
        self.client_open = false;
        self.dest_open = false;
        RelayDirective::Stop
    }

    /// True once the relay must terminate.
    pub fn is_done(&self) -> (r: bool)
        ensures
            r == self.done(),
    {
        !self.client_open && !self.dest_open
    }

    /// The byte counts transferred in each direction, client-to-
    /// destination first.
    pub fn totals(&self) -> (r: (u64, u64))
        ensures
            r.0 == self.to_dest,
            r.1 == self.to_client,
    {
        (self.to_dest, self.to_client)
    }
}

} // verus!
