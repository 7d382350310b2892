use vstd::prelude::*;

verus! {

/// `a + b`, held at `u64::MAX` instead of wrapping, so a counter never goes back.
pub open spec fn sat_add(a: u64, b: u64) -> u64 {
    if a + b > u64::MAX {
        u64::MAX
    } else {
        (a + b) as u64
    }
}

/// `a - 1`, held at zero.
pub open spec fn sat_dec(a: u64) -> u64 {
    if a == 0 {
        0
    } else {
        (a - 1) as u64
    }
}

fn add_held(a: u64, b: u64) -> (r: u64)
    ensures
        r == sat_add(a, b),
{
    if a <= u64::MAX - b {
        a + b
    } else {
        u64::MAX
    }
}

/// Server-wide counters. Every counter only grows, except `connections`,
/// which also falls when a connection closes.
#[derive(Debug)]
pub struct ConnectionMetrics {
    pub connections: u64,
    pub messages_sent: u64,
    pub messages_received: u64,
    pub bytes_sent: u64,
    pub bytes_received: u64,
    pub errors: u64,
}

impl ConnectionMetrics {
    /// Every counter at zero.
    pub open spec fn new_spec() -> ConnectionMetrics {
        ConnectionMetrics {
            connections: 0,
            messages_sent: 0,
            messages_received: 0,
            bytes_sent: 0,
            bytes_received: 0,
            errors: 0,
        }
    }

    /// All counters at zero.
    pub fn new() -> (r: ConnectionMetrics)
        ensures
            r.connections == 0,
            r.messages_sent == 0,
            r.messages_received == 0,
            r.bytes_sent == 0,
            r.bytes_received == 0,
            r.errors == 0,
    {
        ConnectionMetrics {
            connections: 0,
            messages_sent: 0,
            messages_received: 0,
            bytes_sent: 0,
            bytes_received: 0,
            errors: 0,
        }
    }

    /// A text frame of `len` bytes that decoded as a message came in.
    pub fn record_text_received(&mut self, len: u64)
        ensures
            final(self).messages_received == sat_add(old(self).messages_received, 1),
            final(self).bytes_received == sat_add(old(self).bytes_received, len),
            final(self).connections == old(self).connections,
            final(self).messages_sent == old(self).messages_sent,
            final(self).bytes_sent == old(self).bytes_sent,
            final(self).errors == old(self).errors,
    {
        self.messages_received = add_held(self.messages_received, 1);
        self.bytes_received = add_held(self.bytes_received, len);
    }

    /// A non-text frame of `len` bytes came in: only the byte count moves.
    pub fn record_bytes_received(&mut self, len: u64)
        ensures
            final(self).bytes_received == sat_add(old(self).bytes_received, len),
            final(self).messages_received == old(self).messages_received,
            final(self).connections == old(self).connections,
            final(self).messages_sent == old(self).messages_sent,
            final(self).bytes_sent == old(self).bytes_sent,
            final(self).errors == old(self).errors,
    {
        self.bytes_received = add_held(self.bytes_received, len);
    }

    /// One message of `len` bytes was written to a client.
    pub fn record_sent(&mut self, len: u64)
        ensures
            final(self).messages_sent == sat_add(old(self).messages_sent, 1),
            final(self).bytes_sent == sat_add(old(self).bytes_sent, len),
            final(self).connections == old(self).connections,
            final(self).messages_received == old(self).messages_received,
            final(self).bytes_received == old(self).bytes_received,
            final(self).errors == old(self).errors,
    {
        self.messages_sent = add_held(self.messages_sent, 1);
        self.bytes_sent = add_held(self.bytes_sent, len);
    }

    /// One error happened (a failed handshake, a read or a write failure).
    pub fn record_error(&mut self)
        ensures
            final(self).errors == sat_add(old(self).errors, 1),
            final(self).connections == old(self).connections,
            final(self).messages_sent == old(self).messages_sent,
            final(self).messages_received == old(self).messages_received,
            final(self).bytes_sent == old(self).bytes_sent,
            final(self).bytes_received == old(self).bytes_received,
    {
        self.errors = add_held(self.errors, 1);
    }

    /// A connection became active.
    pub fn connection_opened(&mut self)
        ensures
            final(self).connections == sat_add(old(self).connections, 1),
            final(self).messages_sent == old(self).messages_sent,
            final(self).messages_received == old(self).messages_received,
            final(self).bytes_sent == old(self).bytes_sent,
            final(self).bytes_received == old(self).bytes_received,
            final(self).errors == old(self).errors,
    {
        self.connections = add_held(self.connections, 1);
    }

    /// An active connection was cleaned up.
    pub fn connection_closed(&mut self)
        ensures
            final(self).connections == sat_dec(old(self).connections),
            final(self).messages_sent == old(self).messages_sent,
            final(self).messages_received == old(self).messages_received,
            final(self).bytes_sent == old(self).bytes_sent,
            final(self).bytes_received == old(self).bytes_received,
            final(self).errors == old(self).errors,
    {
        if self.connections > 0 {
            self.connections = self.connections - 1;
        }
    }
}

} // verus!
