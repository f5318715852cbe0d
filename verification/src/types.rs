//! Reply status codes and content types.

use vstd::prelude::*;
use vstd::slice::slice_subrange;
use vstd::utf8::{
    char_is_scalar, decode_utf8, encode_scalar, encode_utf8, encode_utf8_decode_utf8,
    encode_utf8_valid_utf8, valid_utf8,
};
use vstd::string::StringSliceAdditionalSpecFns;
use crate::error::Error;

verus! {

/// The media type of a message part.
#[derive(Clone, Copy, PartialEq, Eq, Structural, Debug)]
pub enum ContentType {
    ImageJpeg,
    ImagePng,
    TextPlain,
    TextHTML,
    ApplicationMSWord,
}

impl ContentType {
    /// The media type as it is written in a `Content-Type` header.
    pub open spec fn mime(self) -> Seq<char> {
        match self {
            ContentType::ImageJpeg => "image/jpeg"@,
            ContentType::ImagePng => "image/png"@,
            ContentType::TextPlain => "text/plain"@,
            ContentType::TextHTML => "text/html"@,
            ContentType::ApplicationMSWord => "application/msword"@,
        }
    }

    /// The media type as a string.
    pub fn to_string(&self) -> (text: String)
        ensures
            text@ == self.mime(),
    {
        let text = match self {
            ContentType::ImageJpeg => "image/jpeg",
            ContentType::ImagePng => "image/png",
            ContentType::TextPlain => "text/plain",
            ContentType::TextHTML => "text/html",
            ContentType::ApplicationMSWord => "application/msword",
        };
        text.to_owned()
    }
}

/// What a server's three-byte status code means to the client.
#[derive(Clone, Copy, PartialEq, Eq, Structural, Debug)]
pub enum StatusCodes {
    /// Three zero bytes: nothing was received.
    NoResponse,
    /// 220
    ServiceReady,
    /// 221
    ServiceClosed,
    /// 235
    AuthenticationSucceeded,
    /// 250
    Okay,
    /// 334
    ServerChallenge,
    /// 354
    StartingMailInput,
    /// 451
    TimedOutWaitingForClient,
    /// 500
    CommandUnrecognised,
    /// 501
    SyntaxError,
    /// 503
    BadCommandSequence,
    /// 530
    AuthenticationRequired,
    /// 535
    AuthenticationFailed,
    /// Any other code.
    Unknown,
}

/// The text that stands in for a reply that is not UTF-8.
pub const UNREADABLE: &'static str = "Could not display message from server";

/// Whether the text of `reply` ends at `n`: at its first zero byte, or at
/// its end where it holds none.
pub open spec fn is_text_end(reply: Seq<u8>, n: int) -> bool {
    &&& 0 <= n <= reply.len()
    &&& forall|i: int| 0 <= i < n ==> reply[i] != 0
    &&& n < reply.len() ==> reply[n] == 0
}

/// Where the text of `reply` ends.
pub open spec fn text_end(reply: Seq<u8>) -> int {
    choose|n: int| is_text_end(reply, n)
}

/// The text of a reply: its bytes up to the first zero byte, read as UTF-8,
/// or [`UNREADABLE`] where they are not UTF-8.
pub open spec fn message_text(reply: Seq<u8>) -> Seq<char> {
    let text = reply.subrange(0, text_end(reply));
    if valid_utf8(text) {
        decode_utf8(text)
    } else {
        UNREADABLE@
    }
}

/// A reply's text ends in one place only: whatever index is shown to be its
/// end is [`text_end`].
pub proof fn lemma_text_end(reply: Seq<u8>, n: int)
    requires
        is_text_end(reply, n),
    ensures
        text_end(reply) == n,
{
}

/// A reply that holds no zero byte before `k` has an end of its text.
proof fn lemma_text_end_from(reply: Seq<u8>, k: int)
    requires
        0 <= k <= reply.len(),
        forall|i: int| 0 <= i < k ==> reply[i] != 0,
    ensures
        exists|n: int| is_text_end(reply, n),
    decreases reply.len() - k,
{
    if k == reply.len() || reply[k] == 0 {
        assert(is_text_end(reply, k));
    } else {
        lemma_text_end_from(reply, k + 1);
    }
}

/// The text of every reply ends somewhere: [`text_end`] is its end.
pub proof fn lemma_text_ends(reply: Seq<u8>)
    ensures
        is_text_end(reply, text_end(reply)),
{
    lemma_text_end_from(reply, 0);
}

/// Whether no byte of `bytes` is zero.
spec fn zero_free(bytes: Seq<u8>) -> bool {
    forall|i: int| 0 <= i < bytes.len() ==> bytes[i] != 0
}

/// The UTF-8 of a character other than NUL holds no zero byte.
proof fn lemma_scalar_bytes(c: char)
    requires
        c != '\0',
    ensures
        zero_free(encode_scalar(c as u32)),
{
    let s = c as u32;
    char_is_scalar(c);
    assert(s <= 0x7F ==> (s & 0x7F) as u8 != 0) by (bit_vector)
        requires
            s != 0,
    ;
    assert(forall|low: u8| 0xC0u8 | low != 0) by (bit_vector);
    assert(forall|low: u8| 0xE0u8 | low != 0) by (bit_vector);
    assert(forall|low: u8| 0xF0u8 | low != 0) by (bit_vector);
    assert(forall|low: u8| 0x80u8 | low != 0) by (bit_vector);
}

/// The UTF-8 of a text without NUL holds no zero byte.
proof fn lemma_text_bytes(text: Seq<char>)
    requires
        forall|i: int| 0 <= i < text.len() ==> text[i] != '\0',
    ensures
        zero_free(encode_utf8(text)),
    decreases text.len(),
{
    if text.len() > 0 {
        lemma_scalar_bytes(text[0]);
        lemma_text_bytes(text.drop_first());
    }
}

/// A reply reads back as the text that it was written from: where `text`
/// holds no NUL, the reply that is its UTF-8 has `text` as its message,
/// whether it ends there or goes on with a zero byte and anything after it.
pub proof fn lemma_message_text_preserved(text: Seq<char>, rest: Seq<u8>)
    requires
        forall|i: int| 0 <= i < text.len() ==> text[i] != '\0',
    ensures
        message_text(encode_utf8(text)) == text,
        message_text(encode_utf8(text) + seq![0u8] + rest) == text,
{
    let written = encode_utf8(text);
    let padded = written + seq![0u8] + rest;
    lemma_text_bytes(text);
    lemma_text_end(written, written.len() as int);
    lemma_text_end(padded, written.len() as int);
    assert(written.subrange(0, written.len() as int) == written);
    assert(padded.subrange(0, written.len() as int) == written);
    encode_utf8_valid_utf8(text);
    encode_utf8_decode_utf8(text);
}

impl StatusCodes {
    /// The kind that a status code of three bytes stands for. The codes are
    /// ASCII digits: `0x32 0x32 0x30` is `220`.
    pub open spec fn of_code(a: u8, b: u8, c: u8) -> StatusCodes {
        match (a, b, c) {
            (0x00, 0x00, 0x00) => StatusCodes::NoResponse,
            (0x32, 0x32, 0x30) => StatusCodes::ServiceReady,
            (0x32, 0x32, 0x31) => StatusCodes::ServiceClosed,
            (0x32, 0x33, 0x35) => StatusCodes::AuthenticationSucceeded,
            (0x32, 0x35, 0x30) => StatusCodes::Okay,
            (0x33, 0x33, 0x34) => StatusCodes::ServerChallenge,
            (0x33, 0x35, 0x34) => StatusCodes::StartingMailInput,
            (0x34, 0x35, 0x31) => StatusCodes::TimedOutWaitingForClient,
            (0x35, 0x30, 0x30) => StatusCodes::CommandUnrecognised,
            (0x35, 0x30, 0x31) => StatusCodes::SyntaxError,
            (0x35, 0x30, 0x33) => StatusCodes::BadCommandSequence,
            (0x35, 0x33, 0x30) => StatusCodes::AuthenticationRequired,
            (0x35, 0x33, 0x35) => StatusCodes::AuthenticationFailed,
            _ => StatusCodes::Unknown,
        }
    }

    /// Whether the session goes on after a reply of this kind. The other
    /// kinds are rejections.
    pub open spec fn is_continuation(self) -> bool {
        self is ServiceReady || self is ServiceClosed || self is AuthenticationSucceeded
            || self is Okay || self is ServerChallenge || self is StartingMailInput
    }

    /// The code as it is written in a reply, `"000"` for no response and
    /// `"999"` for an unknown code.
    pub open spec fn code_text(self) -> Seq<char> {
        match self {
            StatusCodes::NoResponse => "000"@,
            StatusCodes::ServiceReady => "220"@,
            StatusCodes::ServiceClosed => "221"@,
            StatusCodes::AuthenticationSucceeded => "235"@,
            StatusCodes::Okay => "250"@,
            StatusCodes::ServerChallenge => "334"@,
            StatusCodes::StartingMailInput => "354"@,
            StatusCodes::TimedOutWaitingForClient => "451"@,
            StatusCodes::CommandUnrecognised => "500"@,
            StatusCodes::SyntaxError => "501"@,
            StatusCodes::BadCommandSequence => "503"@,
            StatusCodes::AuthenticationRequired => "530"@,
            StatusCodes::AuthenticationFailed => "535"@,
            StatusCodes::Unknown => "999"@,
        }
    }

    /// Classifies a reply by its first three bytes. A continuation comes
    /// back as `Ok`; a rejection as [`Error::SmtpStatus`] with the reply's
    /// text.
    pub fn lookup(bytes: &Vec<u8>) -> (result: Result<StatusCodes, Error>)
        requires
            bytes.len() >= 3,
        ensures
            match result {
                Ok(kind) => kind.is_continuation() && kind == Self::of_code(
                    bytes[0],
                    bytes[1],
                    bytes[2],
                ),
                Err(Error::SmtpStatus(kind, text)) => !kind.is_continuation() && kind
                    == Self::of_code(bytes[0], bytes[1], bytes[2]) && text@ == message_text(
                    bytes@,
                ),
                Err(_) => false,
            },
    {
        let kind = classify(bytes[0], bytes[1], bytes[2]);
        match kind {
            StatusCodes::ServiceReady
            | StatusCodes::ServiceClosed
            | StatusCodes::AuthenticationSucceeded
            | StatusCodes::Okay
            | StatusCodes::ServerChallenge
            | StatusCodes::StartingMailInput => Ok(kind),
            _ => Err(Error::SmtpStatus(kind, reply_text(bytes.as_slice()))),
        }
    }
}

/// The code that a kind is written as is classified as that kind. The one
/// exception is [`StatusCodes::NoResponse`], which stands for three zero
/// bytes and not for the digits that it is written as.
pub proof fn lemma_code_text_classifies(kind: StatusCodes)
    requires
        kind != StatusCodes::NoResponse,
    ensures
        kind.code_text().len() == 3,
        StatusCodes::of_code(
            kind.code_text()[0] as u8,
            kind.code_text()[1] as u8,
            kind.code_text()[2] as u8,
        ) == kind,
{
    reveal_strlit("220");
    reveal_strlit("221");
    reveal_strlit("235");
    reveal_strlit("250");
    reveal_strlit("334");
    reveal_strlit("354");
    reveal_strlit("451");
    reveal_strlit("500");
    reveal_strlit("501");
    reveal_strlit("503");
    reveal_strlit("530");
    reveal_strlit("535");
    reveal_strlit("999");
}

fn classify(a: u8, b: u8, c: u8) -> (kind: StatusCodes)
    ensures
        kind == StatusCodes::of_code(a, b, c),
{
    match (a, b, c) {
        (0x00, 0x00, 0x00) => StatusCodes::NoResponse,
        (0x32, 0x32, 0x30) => StatusCodes::ServiceReady,
        (0x32, 0x32, 0x31) => StatusCodes::ServiceClosed,
        (0x32, 0x33, 0x35) => StatusCodes::AuthenticationSucceeded,
        (0x32, 0x35, 0x30) => StatusCodes::Okay,
        (0x33, 0x33, 0x34) => StatusCodes::ServerChallenge,
        (0x33, 0x35, 0x34) => StatusCodes::StartingMailInput,
        (0x34, 0x35, 0x31) => StatusCodes::TimedOutWaitingForClient,
        (0x35, 0x30, 0x30) => StatusCodes::CommandUnrecognised,
        (0x35, 0x30, 0x31) => StatusCodes::SyntaxError,
        (0x35, 0x30, 0x33) => StatusCodes::BadCommandSequence,
        (0x35, 0x33, 0x30) => StatusCodes::AuthenticationRequired,
        (0x35, 0x33, 0x35) => StatusCodes::AuthenticationFailed,
        _ => StatusCodes::Unknown,
    }
}

fn reply_text(bytes: &[u8]) -> (text: String)
    ensures
        text@ == message_text(bytes@),
{
    let mut n: usize = 0;
    while n < bytes.len() && bytes[n] != 0
        invariant
            n <= bytes.len(),
            forall|i: int| 0 <= i < n ==> bytes@[i] != 0,
        decreases bytes.len() - n,
    {
        n += 1;
    }
    proof {
        lemma_text_end(bytes@, n as int);
    }
    match std::str::from_utf8(slice_subrange(bytes, 0, n)) {
        Ok(text) => {
            proof {
                encode_utf8_decode_utf8(text@);
            }
            text.to_owned()
        },
        Err(_) => UNREADABLE.to_owned(),
    }
}

/// A `String` is known to contracts by its view alone, so the conversion is
/// stated by the `ensures` of `from` and not by a `String`-valued `from_spec`.
impl vstd::std_specs::convert::FromSpecImpl<StatusCodes> for String {
    open spec fn obeys_from_spec() -> bool {
        false
    }

    open spec fn from_spec(v: StatusCodes) -> String {
        arbitrary()
    }
}

impl From<StatusCodes> for String {
    /// The code as it is written in a reply.
    fn from(s: StatusCodes) -> (text: String)
        ensures
            text@ == s.code_text(),
    {
        let v = match s {
            StatusCodes::NoResponse => "000",
            StatusCodes::ServiceReady => "220",
            StatusCodes::ServiceClosed => "221",
            StatusCodes::AuthenticationSucceeded => "235",
            StatusCodes::Okay => "250",
            StatusCodes::ServerChallenge => "334",
            StatusCodes::StartingMailInput => "354",
            StatusCodes::TimedOutWaitingForClient => "451",
            StatusCodes::CommandUnrecognised => "500",
            StatusCodes::SyntaxError => "501",
            StatusCodes::BadCommandSequence => "503",
            StatusCodes::AuthenticationRequired => "530",
            StatusCodes::AuthenticationFailed => "535",
            StatusCodes::Unknown => "999",
        };
        v.to_owned()
    }
}

} // verus!
