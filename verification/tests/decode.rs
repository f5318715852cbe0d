use smtp_transport::types::UNREADABLE;
use smtp_transport::{ContentType, Error, StatusCodes};

fn rejection(reply: &[u8]) -> (StatusCodes, String) {
    match StatusCodes::lookup(&reply.to_vec()) {
        Err(Error::SmtpStatus(kind, text)) => (kind, text),
        other => panic!("expected a rejection, got {:?}", other),
    }
}

fn continuation(reply: &[u8]) -> StatusCodes {
    match StatusCodes::lookup(&reply.to_vec()) {
        Ok(kind) => kind,
        other => panic!("expected a continuation, got {:?}", other),
    }
}

#[test]
fn greeting_is_service_ready() {
    assert_eq!(
        continuation(b"220 mail.example.com ESMTP ready\r\n"),
        StatusCodes::ServiceReady
    );
}

#[test]
fn bad_credentials_are_authentication_failed() {
    let (kind, text) = rejection(b"535 Authentication credentials invalid\r\n");
    assert_eq!(kind, StatusCodes::AuthenticationFailed);
    assert_eq!(text, "535 Authentication credentials invalid\r\n");
    assert_eq!(
        text.trim_end_matches("\r\n"),
        "535 Authentication credentials invalid"
    );
}

#[test]
fn text_without_terminator_is_kept_as_it_is() {
    let (kind, text) = rejection(b"535 Authentication credentials invalid");
    assert_eq!(kind, StatusCodes::AuthenticationFailed);
    assert_eq!(text, "535 Authentication credentials invalid");
}

#[test]
fn three_zero_bytes_are_no_response() {
    let (kind, text) = rejection(b"\x00\x00\x00");
    assert_eq!(kind, StatusCodes::NoResponse);
    assert_eq!(text, "");
}

#[test]
fn zeroed_buffer_is_no_response() {
    let (kind, text) = rejection(&[0u8; 512]);
    assert_eq!(kind, StatusCodes::NoResponse);
    assert_eq!(text, "");
}

#[test]
fn every_continuation_code_is_classified() {
    assert_eq!(continuation(b"220 msg\r\n"), StatusCodes::ServiceReady);
    assert_eq!(continuation(b"221 msg\r\n"), StatusCodes::ServiceClosed);
    assert_eq!(
        continuation(b"235 msg\r\n"),
        StatusCodes::AuthenticationSucceeded
    );
    assert_eq!(continuation(b"250 msg\r\n"), StatusCodes::Okay);
    assert_eq!(continuation(b"334 msg\r\n"), StatusCodes::ServerChallenge);
    assert_eq!(continuation(b"354 msg\r\n"), StatusCodes::StartingMailInput);
}

#[test]
fn every_rejection_code_is_classified_and_keeps_its_text() {
    let table = [
        ("451", StatusCodes::TimedOutWaitingForClient),
        ("500", StatusCodes::CommandUnrecognised),
        ("501", StatusCodes::SyntaxError),
        ("503", StatusCodes::BadCommandSequence),
        ("530", StatusCodes::AuthenticationRequired),
        ("535", StatusCodes::AuthenticationFailed),
    ];
    for (code, expected) in table {
        let reply = format!("{} msg\r\n", code);
        let (kind, text) = rejection(reply.as_bytes());
        assert_eq!(kind, expected);
        assert_eq!(text, reply);
    }
}

#[test]
fn authentication_required_and_failed_are_told_apart() {
    assert_eq!(
        rejection(b"530 5.7.0 Must issue a STARTTLS command first\r\n").0,
        StatusCodes::AuthenticationRequired
    );
    assert_eq!(
        rejection(b"535 5.7.8 Username and Password not accepted\r\n").0,
        StatusCodes::AuthenticationFailed
    );
}

#[test]
fn a_bare_code_is_enough() {
    assert_eq!(continuation(b"250"), StatusCodes::Okay);
    let (kind, text) = rejection(b"503");
    assert_eq!(kind, StatusCodes::BadCommandSequence);
    assert_eq!(text, "503");
}

#[test]
fn unlisted_codes_are_unknown() {
    for reply in [
        &b"999 what\r\n"[..],
        b"251 User not local\r\n",
        b"550 No such user\r\n",
        b"000 zeros in ASCII\r\n",
        b"abc\r\n",
        b" 250 OK\r\n",
        b"25\r\n",
        b"2 50",
    ] {
        let (kind, text) = rejection(reply);
        assert_eq!(kind, StatusCodes::Unknown);
        assert_eq!(text.as_bytes(), reply);
    }
}

#[test]
fn a_zero_byte_in_the_code_is_not_no_response() {
    assert_eq!(rejection(b"\x00\x0050").0, StatusCodes::Unknown);
    assert_eq!(rejection(b"22\x00").0, StatusCodes::Unknown);
    assert_eq!(rejection(b"22\x00").1, "22");
}

#[test]
fn text_ends_at_the_first_zero_byte() {
    let (kind, text) = rejection(b"500 bad\x00garbage\x00more\r\n");
    assert_eq!(kind, StatusCodes::CommandUnrecognised);
    assert_eq!(text, "500 bad");
}

#[test]
fn text_of_a_zero_padded_buffer() {
    let mut reply = b"451 try again later\r\n".to_vec();
    reply.resize(64, 0);
    let (kind, text) = rejection(&reply);
    assert_eq!(kind, StatusCodes::TimedOutWaitingForClient);
    assert_eq!(text, "451 try again later\r\n");
}

#[test]
fn text_that_is_not_utf8_is_replaced() {
    let (kind, text) = rejection(b"501 \xff\xfe\r\n");
    assert_eq!(kind, StatusCodes::SyntaxError);
    assert_eq!(text, "Could not display message from server");
    assert_eq!(text, UNREADABLE);
}

#[test]
fn an_unknown_code_that_is_not_utf8_is_still_classified() {
    let (kind, text) = rejection(&[0xff, 0xfe, 0xfd]);
    assert_eq!(kind, StatusCodes::Unknown);
    assert_eq!(text, UNREADABLE);
}

#[test]
fn bytes_after_the_zero_byte_need_not_be_utf8() {
    let (_, text) = rejection(b"500 fine\x00\xff\xff");
    assert_eq!(text, "500 fine");
}

#[test]
fn truncated_utf8_is_replaced() {
    let mut reply = "501 gr\u{f6}".as_bytes().to_vec();
    reply.pop();
    assert_eq!(rejection(&reply).1, UNREADABLE);
}

#[test]
fn text_beyond_ascii_is_decoded() {
    let reply = "501 Gr\u{f6}\u{df}e unzul\u{e4}ssig \u{2014} \u{1f4e7}\r\n";
    let (kind, text) = rejection(reply.as_bytes());
    assert_eq!(kind, StatusCodes::SyntaxError);
    assert_eq!(text, reply);
}

#[test]
fn a_continuation_that_is_not_utf8_is_still_a_continuation() {
    assert_eq!(continuation(b"250 \xc3\x28\r\n"), StatusCodes::Okay);
}

#[test]
fn codes_as_text() {
    let table = [
        (StatusCodes::NoResponse, "000"),
        (StatusCodes::ServiceReady, "220"),
        (StatusCodes::ServiceClosed, "221"),
        (StatusCodes::AuthenticationSucceeded, "235"),
        (StatusCodes::Okay, "250"),
        (StatusCodes::ServerChallenge, "334"),
        (StatusCodes::StartingMailInput, "354"),
        (StatusCodes::TimedOutWaitingForClient, "451"),
        (StatusCodes::CommandUnrecognised, "500"),
        (StatusCodes::SyntaxError, "501"),
        (StatusCodes::BadCommandSequence, "503"),
        (StatusCodes::AuthenticationRequired, "530"),
        (StatusCodes::AuthenticationFailed, "535"),
        (StatusCodes::Unknown, "999"),
    ];
    for (kind, text) in table {
        assert_eq!(String::from(kind), text);
        let into: String = kind.into();
        assert_eq!(into, text);
    }
}

#[test]
fn codes_as_text_are_classified_as_themselves() {
    for kind in [
        StatusCodes::ServiceReady,
        StatusCodes::ServiceClosed,
        StatusCodes::AuthenticationSucceeded,
        StatusCodes::Okay,
        StatusCodes::ServerChallenge,
        StatusCodes::StartingMailInput,
    ] {
        assert_eq!(continuation(String::from(kind).as_bytes()), kind);
    }
    for kind in [
        StatusCodes::TimedOutWaitingForClient,
        StatusCodes::CommandUnrecognised,
        StatusCodes::SyntaxError,
        StatusCodes::BadCommandSequence,
        StatusCodes::AuthenticationRequired,
        StatusCodes::AuthenticationFailed,
        StatusCodes::Unknown,
    ] {
        assert_eq!(rejection(String::from(kind).as_bytes()).0, kind);
    }
    assert_eq!(
        rejection(String::from(StatusCodes::NoResponse).as_bytes()).0,
        StatusCodes::Unknown
    );
}

#[test]
fn content_types_as_text() {
    assert_eq!(ContentType::ImageJpeg.to_string(), "image/jpeg");
    assert_eq!(ContentType::ImagePng.to_string(), "image/png");
    assert_eq!(ContentType::TextPlain.to_string(), "text/plain");
    assert_eq!(ContentType::TextHTML.to_string(), "text/html");
    assert_eq!(
        ContentType::ApplicationMSWord.to_string(),
        "application/msword"
    );
}
