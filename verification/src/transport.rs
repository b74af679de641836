//! Line-oriented transports: what is written for an outgoing message, and
//! how a reader reacts to what arrives.

use vstd::prelude::*;
use vstd::string::*;

verus! {

/// The byte that ends a line.
pub const LINE_END: u8 = 10;

/// What a line reader got from its input.
#[derive(Debug)]
pub enum LineEvent {
    /// A complete line, without its line end.
    Line(String),
    /// The input is exhausted.
    End,
    /// The input could not be read.
    Fault,
}

/// What arrived on an accepted socket connection.
#[derive(Debug)]
pub enum SocketEvent {
    /// A text message.
    Text(String),
    /// The peer closed the connection.
    Close,
    /// The connection failed.
    Fault,
    /// Any other kind of message.
    Other,
}

/// Transport over the process's standard input and output.
#[derive(Clone, Copy, Debug)]
pub struct StdioTransport {
    /// Whether the reader is still pulling lines.
    pub reading: bool,
}

/// Transport over one socket connection at a time.
#[derive(Debug)]
pub struct WebSocketTransport {
    /// Address the listener binds to.
    pub addr: String,
    /// Whether a peer is attached for writing.
    pub writer_open: bool,
    /// Whether the current connection is still being read.
    pub reading: bool,
}

/// The bytes written for `message`: its text and a line end, or nothing at
/// all for an empty message.
pub open spec fn line_bytes(message: &str) -> Option<Seq<u8>> {
    if message@.len() == 0 {
        None
    } else {
        Some(message.spec_bytes().push(LINE_END))
    }
}

impl StdioTransport {
    /// A transport whose reader has not stopped.
    pub fn new() -> (r: StdioTransport)
        ensures
            r.reading,
    {
        StdioTransport { reading: true }
    }

    /// Reacts to what the reader got: a line is handed on for forwarding,
    /// anything else stops the reader.
    pub fn on_read(&mut self, event: LineEvent) -> (forward: Option<String>)
        ensures
            forward == match event {
                LineEvent::Line(line) => Some(line),
                _ => None,
            },
            final(self).reading == (old(self).reading && (event is Line)),
    {
        match event {
            LineEvent::Line(line) => Some(line),
            _ => {
                self.reading = false;
                None
            },
        }
    }

    /// Records whether a forwarded line was taken; the reader stops once the
    /// receiving side is gone.
    pub fn on_forwarded(&mut self, delivered: bool)
        ensures
            final(self).reading == (old(self).reading && delivered),
    {
        if !delivered {
            self.reading = false;
        }
    }

    /// The bytes to write, then flush, for an outgoing message.
    pub fn outgoing(&self, message: &str) -> (r: Option<Vec<u8>>)
        ensures
            r.is_some() == line_bytes(message).is_some(),
            r.is_some() ==> r.unwrap()@ == line_bytes(message).unwrap(),
    {
        if message.is_empty() {
            None
        } else {
            let mut bytes = message.as_bytes_vec();
            bytes.push(LINE_END);
            Some(bytes)
        }
    }
}

impl WebSocketTransport {
    /// A transport for `addr` with no peer attached.
    pub fn new(addr: String) -> (r: WebSocketTransport)
        ensures
            r == (WebSocketTransport { addr, writer_open: false, reading: false }),
    {
        WebSocketTransport { addr, writer_open: false, reading: false }
    }

    /// A peer was accepted: it becomes the writer and is read from.
    pub fn on_accept(&mut self)
        ensures
            *final(self) == (WebSocketTransport {
                addr: old(self).addr,
                writer_open: true,
                reading: true,
            }),
    {
        self.writer_open = true;
        self.reading = true;
    }

    /// Reacts to what arrived on the connection. A text message is handed on
    /// for forwarding; a close or a failure detaches the writer and ends the
    /// reading of this connection; anything else is skipped.
    pub fn on_event(&mut self, event: SocketEvent) -> (forward: Option<String>)
        ensures
            forward == match event {
                SocketEvent::Text(text) => Some(text),
                _ => None,
            },
            final(self).addr == old(self).addr,
            final(self).writer_open == (old(self).writer_open && !(event is Close || event is Fault)),
            final(self).reading == (old(self).reading && !(event is Close || event is Fault)),
    {
        match event {
            SocketEvent::Text(text) => Some(text),
            SocketEvent::Close => {
                self.writer_open = false;
                self.reading = false;
                None
            },
            SocketEvent::Fault => {
                self.writer_open = false;
                self.reading = false;
                None
            },
            SocketEvent::Other => None,
        }
    }

    /// Records whether a forwarded text was taken; reading of this
    /// connection ends once the receiving side is gone, the writer stays.
    pub fn on_forwarded(&mut self, delivered: bool)
        ensures
            final(self).addr == old(self).addr,
            final(self).writer_open == old(self).writer_open,
            final(self).reading == (old(self).reading && delivered),
    {
        if !delivered {
            self.reading = false;
        }
    }

    /// The text to send for an outgoing message: the message itself, unless
    /// it is empty or no peer is attached.
    pub fn outgoing(&self, message: String) -> (r: Option<String>)
        ensures
            r == if message@.len() != 0 && self.writer_open {
                Some(message)
            } else {
                None
            },
    {
        if !message.as_str().is_empty() && self.writer_open {
            Some(message)
        } else {
            None
        }
    }
}

} // verus!
