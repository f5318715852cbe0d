//! The channel to the server, without its socket.
//!
//! A [`Stream`] holds what the client knows of its connection: where it
//! goes and whether it has been upgraded to TLS. It frames commands, starts
//! the read of each reply, and records the upgrade. The caller owns the
//! socket: it sends what [`Stream::write`] hands out, over the transport
//! named there, and feeds what it receives to the [`ReplyReader`] that
//! [`Stream::read`] hands out.

use vstd::prelude::*;
use vstd::string::{StrSliceExecFns, StringExecFns};
use vstd::utf8::encode_utf8;
use crate::error::Error;
use crate::reader::{crlf, ReplyReader, ReplyReaderView, CR, LF};
use crate::tls::HandshakeFailure;

verus! {

/// Seconds allowed to the socket for a connect, for one read and for one
/// write.
pub const SOCKET_TIMEOUT_SECS: u64 = 5;

/// The transport that carries the channel's bytes.
#[derive(Clone, Copy, PartialEq, Eq, Structural, Debug)]
pub enum Transport {
    /// The bare socket.
    Plain,
    /// The TLS session layered over the socket.
    Encrypted,
}

/// What contracts see of a [`Stream`].
pub struct StreamView {
    pub address: Seq<char>,
    pub transport: Transport,
}

/// The state of one connection to a server.
#[derive(Debug)]
pub struct Stream {
    address: String,
    transport: Transport,
}

impl View for Stream {
    type V = StreamView;

    closed spec fn view(&self) -> StreamView {
        StreamView { address: self.address@, transport: self.transport }
    }
}

/// What contracts see of an [`Outbound`].
pub struct OutboundView {
    pub transport: Transport,
    pub bytes: Seq<u8>,
}

/// A command as it goes out: its bytes, and the transport to send them over
/// in a single write.
#[derive(Debug)]
pub struct Outbound {
    pub transport: Transport,
    pub bytes: Vec<u8>,
}

impl View for Outbound {
    type V = OutboundView;

    open spec fn view(&self) -> OutboundView {
        OutboundView { transport: self.transport, bytes: self.bytes@ }
    }
}

impl StreamView {
    /// The command `msg` as this channel sends it: the bytes of `msg`
    /// followed by one line terminator, over the active transport.
    pub open spec fn framed(self, msg: Seq<char>) -> OutboundView {
        OutboundView { transport: self.transport, bytes: encode_utf8(msg) + crlf() }
    }

    /// The reader with which this channel begins the read of a reply.
    pub open spec fn reader(self) -> ReplyReaderView {
        ReplyReaderView { transport: self.transport, buffered: Seq::empty() }
    }

    /// The channel after a handshake: encrypted if it succeeded, unchanged
    /// if it did not.
    pub open spec fn after_handshake(self, succeeded: bool) -> StreamView {
        if succeeded {
            StreamView { address: self.address, transport: Transport::Encrypted }
        } else {
            self
        }
    }
}

impl Stream {
    /// The channel to `host` at `port`, not yet upgraded. Its address is
    /// `host:port`, to be resolved and connected to by the caller.
    pub fn new(host: &String, port: &String) -> (stream: Stream)
        ensures
            stream@.address == host@ + seq![':'] + port@,
            stream@.transport == Transport::Plain,
    {
        let mut address = host.clone();
        address.append(":");
        address.append(port.as_str());
        proof {
            reveal_strlit(":");
        }
        Stream { address, transport: Transport::Plain }
    }

    /// Frames `msg` for the wire: its bytes followed by one line terminator,
    /// to be sent over the transport that is active now.
    pub fn write(&self, msg: String) -> (out: Outbound)
        ensures
            out@ == self@.framed(msg@),
    {
        let mut bytes = msg.as_str().as_bytes_vec();
        bytes.push(CR);
        bytes.push(LF);
        assert(bytes@ == encode_utf8(msg@) + crlf());
        Outbound { transport: self.transport, bytes }
    }

    /// Begins the read of one reply: a reader with nothing received yet,
    /// bound to the transport that is active now.
    pub fn read(&self) -> (reader: ReplyReader)
        ensures
            reader@ == self@.reader(),
    {
        ReplyReader::new(self.transport)
    }

    /// Records how the TLS handshake over the socket went. After a
    /// handshake that succeeded the channel is encrypted, and stays so; after
    /// one that failed the channel is as it was, and the failure comes back
    /// as [`Error::Handshake`].
    ///
    /// A channel is upgraded once: the caller must not start a second
    /// handshake on a channel that is encrypted already.
    pub fn start_tls(&mut self, handshake: Result<(), HandshakeFailure>) -> (outcome: Result<
        (),
        Error,
    >)
        requires
            old(self)@.transport == Transport::Plain,
        ensures
            final(self)@ == old(self)@.after_handshake(handshake is Ok),
            match handshake {
                Ok(_) => outcome is Ok,
                Err(failure) => outcome == Err::<(), Error>(Error::Handshake(failure)),
            },
    {
        match handshake {
            Ok(_) => {
                self.transport = Transport::Encrypted;
                Ok(())
            },
            Err(failure) => Err(Error::Handshake(failure)),
        }
    }

    /// The transport that is active now.
    pub fn transport(&self) -> (transport: Transport)
        ensures
            transport == self@.transport,
    {
        self.transport
    }

    /// The address `host:port` that the channel goes to.
    pub fn address(&self) -> (address: &String)
        ensures
            address@ == self@.address,
    {
        &self.address
    }
}

/// After a handshake that succeeded, every command goes out over the
/// encrypted transport and every reply is read from it, and no later
/// handshake, whatever its outcome, brings the plain transport back. A
/// handshake that failed leaves the channel as it was.
pub proof fn lemma_upgrade_is_one_way(stream: StreamView, msg: Seq<char>, later: bool)
    ensures
        stream.after_handshake(true).framed(msg).transport == Transport::Encrypted,
        stream.after_handshake(true).reader().transport == Transport::Encrypted,
        stream.after_handshake(true).after_handshake(later).transport == Transport::Encrypted,
        stream.after_handshake(false) == stream,
{
}

} // verus!
