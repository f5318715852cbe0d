//! Framing of replies: when the bytes received so far make up a reply, and
//! when the wait for one is over.
//!
//! A reply carries no length. It is complete when the bytes received end in
//! the line terminator, which the reader tests after every poll of the
//! transport.

use vstd::prelude::*;
use crate::error::Error;
use crate::stream::Transport;

verus! {

/// Carriage return.
pub const CR: u8 = 13;

/// Line feed.
pub const LF: u8 = 10;

/// Nanoseconds allowed to a whole reply, counted from the start of the read.
pub const READ_DEADLINE_NANOS: u128 = 60_000_000_000;

/// The two bytes that end every line on the wire.
pub open spec fn crlf() -> Seq<u8> {
    seq![CR, LF]
}

/// Whether the last two bytes of `data` are the line terminator.
pub open spec fn ends_with_crlf(data: Seq<u8>) -> bool {
    data.len() >= 2 && data[data.len() - 2] == CR && data[data.len() - 1] == LF
}

/// How far the read of one reply has come.
pub enum Progress {
    /// No complete reply yet; these bytes have been received.
    Pending(Seq<u8>),
    /// The reply, through its line terminator.
    Complete(Seq<u8>),
    /// The deadline passed before the reply was complete.
    TimedOut,
}

/// One poll of the transport, as the reader is told of it: the bytes that
/// arrived, or `None` where the poll failed, and the time since the read
/// began.
pub struct Poll {
    pub chunk: Option<Seq<u8>>,
    pub elapsed: nat,
}

/// What one poll makes of a read that has `buffered` so far. Bytes that
/// arrived are appended. A buffer that then ends in the line terminator is
/// the reply, however late; otherwise the read times out once more than
/// [`READ_DEADLINE_NANOS`] have passed, and goes on until then. A failed
/// poll brings no bytes and is not an error of the read.
pub open spec fn progress(buffered: Seq<u8>, poll: Poll) -> Progress {
    match poll.chunk {
        Some(chunk) if ends_with_crlf(buffered + chunk) => Progress::Complete(buffered + chunk),
        Some(chunk) if poll.elapsed > READ_DEADLINE_NANOS => Progress::TimedOut,
        Some(chunk) => Progress::Pending(buffered + chunk),
        None if poll.elapsed > READ_DEADLINE_NANOS => Progress::TimedOut,
        None => Progress::Pending(buffered),
    }
}

/// What a read that began with nothing has come to after `polls`, each
/// handed to [`ReplyReader::step`] in order. Once the read is over, further
/// polls change nothing.
pub open spec fn run(polls: Seq<Poll>) -> Progress
    decreases polls.len(),
{
    if polls.len() == 0 {
        Progress::Pending(Seq::empty())
    } else {
        match run(polls.drop_last()) {
            Progress::Pending(buffered) => progress(buffered, polls.last()),
            over => over,
        }
    }
}

/// The bytes that the first `n` of `polls` brought, in order.
pub open spec fn received(polls: Seq<Poll>, n: int) -> Seq<u8>
    decreases n,
{
    if n <= 0 || n > polls.len() {
        Seq::empty()
    } else {
        match polls[n - 1].chunk {
            Some(chunk) => received(polls, n - 1) + chunk,
            None => received(polls, n - 1),
        }
    }
}

/// What contracts see of a [`ReplyReader`].
pub struct ReplyReaderView {
    pub transport: Transport,
    pub buffered: Seq<u8>,
}

/// The read of one reply in progress: the bytes received so far, none of
/// which completes a reply, and the transport to poll for more.
#[derive(Debug)]
pub struct ReplyReader {
    transport: Transport,
    data: Vec<u8>,
}

impl View for ReplyReader {
    type V = ReplyReaderView;

    closed spec fn view(&self) -> ReplyReaderView {
        ReplyReaderView { transport: self.transport, buffered: self.data@ }
    }
}

/// What a [`ReplyReader`] has come to after one poll.
#[derive(Debug)]
pub enum ReadStep {
    /// Poll again, and hand the result to this reader.
    Pending(ReplyReader),
    /// The read is over: the reply through its line terminator, or
    /// [`Error::TCPReadTimeout`].
    Done(Result<Vec<u8>, Error>),
}

impl ReplyReader {
    #[verifier::type_invariant]
    spec fn waiting(self) -> bool {
        !ends_with_crlf(self.data@)
    }

    /// A reader that has received nothing yet, to be fed from `transport`.
    pub fn new(transport: Transport) -> (reader: ReplyReader)
        ensures
            reader@ == (ReplyReaderView { transport, buffered: Seq::empty() }),
    {
        ReplyReader { transport, data: Vec::new() }
    }

    /// Takes the result of one poll of the transport: the bytes that
    /// arrived, or `None` where the poll failed. `elapsed_nanos` is the time
    /// since the read began. A reader that comes back holds no complete
    /// reply: a complete one is handed out at once.
    pub fn step(self, polled: Option<&[u8]>, elapsed_nanos: u128) -> (next: ReadStep)
        ensures
            match progress(self@.buffered, poll_of(polled, elapsed_nanos)) {
                Progress::Pending(buffered) => next matches ReadStep::Pending(reader)
                    && reader@.transport == self@.transport && reader@.buffered == buffered,
                Progress::Complete(reply) => next matches ReadStep::Done(Ok(data)) && data@
                    == reply,
                Progress::TimedOut => next == ReadStep::Done(Err(Error::TCPReadTimeout)),
            },
            next matches ReadStep::Pending(reader) ==> !ends_with_crlf(reader@.buffered),
    {
        proof {
            use_type_invariant(&self);
        }
        let transport = self.transport;
        let mut data = self.data;
        if let Some(chunk) = polled {
            data.extend_from_slice(chunk);
            let n = data.len();
            if n > 1 && data[n - 2] == CR && data[n - 1] == LF {
                return ReadStep::Done(Ok(data));
            }
        }
        if elapsed_nanos > READ_DEADLINE_NANOS {
            ReadStep::Done(Err(Error::TCPReadTimeout))
        } else {
            ReadStep::Pending(ReplyReader { transport, data })
        }
    }

    /// The transport to poll.
    pub fn transport(&self) -> (transport: Transport)
        ensures
            transport == self@.transport,
    {
        self.transport
    }

    /// The bytes received so far.
    pub fn buffered(&self) -> (data: &Vec<u8>)
        ensures
            data@ == self@.buffered,
    {
        &self.data
    }
}

/// The poll that [`ReplyReader::step`] is told of by its arguments.
pub open spec fn poll_of(polled: Option<&[u8]>, elapsed_nanos: u128) -> Poll {
    Poll {
        chunk: match polled {
            Some(chunk) => Some(chunk@),
            None => None,
        },
        elapsed: elapsed_nanos as nat,
    }
}

/// A read that neither completes nor times out holds all that was received.
proof fn lemma_pending(polls: Seq<Poll>, n: int)
    requires
        0 <= n <= polls.len(),
        forall|j: int|
            0 < j <= n ==> !ends_with_crlf(#[trigger] received(polls, j)) && polls[j - 1].elapsed
                <= READ_DEADLINE_NANOS,
    ensures
        run(polls.take(n)) == Progress::Pending(received(polls, n)),
    decreases n,
{
    if n > 0 {
        lemma_pending(polls, n - 1);
        assert(polls.take(n).drop_last() == polls.take(n - 1));
    }
}

/// Once a read is over, further polls change nothing.
proof fn lemma_over(polls: Seq<Poll>, n: int)
    requires
        0 <= n <= polls.len(),
        !(run(polls.take(n)) is Pending),
    ensures
        run(polls) == run(polls.take(n)),
    decreases polls.len() - n,
{
    if n < polls.len() {
        assert(polls.take(n + 1).drop_last() == polls.take(n));
        lemma_over(polls, n + 1);
    } else {
        assert(polls.take(n) == polls);
    }
}

/// A read ends with the poll that first leaves the received bytes ending in
/// the line terminator, if no deadline passed before it. The reply is what
/// was received up to and including that poll: nothing that a later poll
/// would bring is part of it.
pub proof fn lemma_reply_ends_at_first_terminator(polls: Seq<Poll>, n: int)
    requires
        0 < n <= polls.len(),
        ends_with_crlf(received(polls, n)),
        forall|j: int|
            0 < j < n ==> !ends_with_crlf(#[trigger] received(polls, j)) && polls[j - 1].elapsed
                <= READ_DEADLINE_NANOS,
    ensures
        run(polls) == Progress::Complete(received(polls, n)),
{
    lemma_pending(polls, n - 1);
    assert(polls.take(n).drop_last() == polls.take(n - 1));
    lemma_over(polls, n);
}

/// A read whose received bytes never end in the line terminator times out
/// at the first poll that comes back after the deadline.
pub proof fn lemma_silence_times_out(polls: Seq<Poll>, n: int)
    requires
        0 < n <= polls.len(),
        polls[n - 1].elapsed > READ_DEADLINE_NANOS,
        forall|j: int| 0 < j <= n ==> !ends_with_crlf(#[trigger] received(polls, j)),
        forall|j: int| 0 < j < n ==> (#[trigger] polls[j - 1]).elapsed <= READ_DEADLINE_NANOS,
    ensures
        run(polls) == Progress::TimedOut,
{
    assert forall|j: int| 0 < j <= n - 1 implies !ends_with_crlf(#[trigger] received(polls, j))
        && polls[j - 1].elapsed <= READ_DEADLINE_NANOS by {
        assert(polls[j - 1].elapsed <= READ_DEADLINE_NANOS);
    }
    lemma_pending(polls, n - 1);
    assert(polls.take(n).drop_last() == polls.take(n - 1));
    assert(!ends_with_crlf(received(polls, n)));
    lemma_over(polls, n);
}

} // verus!
