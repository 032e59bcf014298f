use crunchyroll_rs::envelope::is_request_error;
use crunchyroll_rs::error::Error;
use crunchyroll_rs::json::{Json, Member, ParseFailure};
use crunchyroll_rs::resolver::MediaKind;
use crunchyroll_rs::response::{
    check_media_request, check_request, check_response, classify, decode, decode_failure, detects_challenge, rate_limit_text,
    reads_body, ClassifiedOutcome, Header, RawResponse,
};

fn response(status: u16, body: &[u8], content_length: Option<u64>) -> RawResponse {
    RawResponse { status, headers: vec![], body: body.to_vec(), content_length }
}

fn header(name: &str, value: &str) -> Header {
    Header { name: name.as_bytes().to_vec(), value: value.as_bytes().to_vec() }
}

fn parse(text: &str) -> Json {
    Json::parse(text.as_bytes()).unwrap()
}

fn envelope_text(text: &str) -> Option<String> {
    match is_request_error(&parse(text)) {
        Ok(()) => None,
        Err(Error::Request(context)) => {
            assert!(context.url.is_none());
            assert!(context.value.is_none());
            assert!(context.extra.is_none());
            Some(context.message)
        }
        Err(other) => panic!("not a request error: {}", other.to_string()),
    }
}

const CHALLENGE: &[u8] =
    b"<!DOCTYPE html><html><head><title>Just a moment...</title></head><body>{ not json</body></html>";

#[test]
fn parse_keeps_members_and_kinds() {
    match parse("{\"b\": [1, true, null, -2.5], \"a\": \"x\"}") {
        Json::Object(members) => {
            assert_eq!(members.len(), 2);
            assert_eq!(members[0].key, "a");
            assert!(matches!(&members[0].value, Json::String(s) if s == "x"));
            assert_eq!(members[1].key, "b");
            match &members[1].value {
                Json::Array(items) => {
                    assert_eq!(items.len(), 4);
                    assert!(matches!(&items[0], Json::Number(n) if n == "1"));
                    assert!(matches!(&items[1], Json::Bool(true)));
                    assert!(matches!(&items[2], Json::Null));
                    assert!(matches!(&items[3], Json::Number(n) if n == "-2.5"));
                }
                _ => panic!("not an array"),
            }
        }
        _ => panic!("not an object"),
    }
}

#[test]
fn parse_reports_line_and_column() {
    let failure = Json::parse(b"{\n  \"a\": ]").unwrap_err();
    assert_eq!(failure.line, 2);
    assert_eq!(failure.column, 8);
    assert_eq!(failure.message, "expected value at line 2 column 8");
}

#[test]
fn parse_of_nothing_fails() {
    let failure = Json::parse(b"").unwrap_err();
    assert_eq!(failure.line, 1);
    assert_eq!(failure.column, 0);
    assert_eq!(failure.message, "EOF while parsing a value at line 1 column 0");
}

#[test]
fn get_takes_the_last_member_of_a_key() {
    let object = Json::Object(vec![
        Member { key: "k".to_string(), value: Json::Bool(false) },
        Member { key: "other".to_string(), value: Json::Null },
        Member { key: "k".to_string(), value: Json::Bool(true) },
    ]);
    assert!(matches!(object.get("k"), Some(Json::Bool(true))));
    assert!(matches!(object.get("other"), Some(Json::Null)));
    assert!(object.get("missing").is_none());
    assert!(object.contains_key("k"));
    assert!(!object.contains_key("K"));
    assert!(Json::Null.get("k").is_none());
    assert!(Json::Array(vec![]).get("k").is_none());
}

#[test]
fn accessors_tell_the_kinds_apart() {
    assert_eq!(parse("\"text\"").as_str(), Some("text"));
    assert_eq!(parse("1").as_str(), None);
    assert_eq!(parse("[1, 2]").as_array().map(|items| items.len()), Some(2));
    assert!(parse("{}").as_array().is_none());
    assert_eq!(parse("{\"a\": \"b\"}").get_str("a"), Some("b"));
    assert_eq!(parse("{\"a\": 1}").get_str("a"), None);
    assert_eq!(parse("{\"a\": \"b\"}").get_str("c"), None);
}

#[test]
fn clone_keeps_the_document() {
    let document = parse("{\"a\": [1, {\"b\": null}], \"c\": \"d\"}");
    assert_eq!(format!("{:?}", document.clone()), format!("{:?}", document));
}

#[test]
fn first_shape_gives_type_and_message() {
    assert_eq!(
        envelope_text("{\"message\": \"no such thing\", \"type\": \"not_found\"}"),
        Some("not_found - no such thing".to_string())
    );
}

#[test]
fn first_shape_tolerates_other_members() {
    assert_eq!(
        envelope_text("{\"message\": \"m\", \"type\": \"t\", \"more\": [1, 2]}"),
        Some("t - m".to_string())
    );
}

#[test]
fn second_shape_with_message() {
    let text = "{\"code\": \"invalid\", \"error\": \"Bad input\", \"context\": [\
        {\"code\": \"too_short\", \"field\": \"name\"}, \
        {\"code\": \"missing\", \"field\": \"email\"}]}";
    assert_eq!(
        envelope_text(text),
        Some("Bad input (invalid) - name: too_short, email: missing".to_string())
    );
}

#[test]
fn second_shape_without_message() {
    let text = "{\"code\": \"invalid\", \"context\": [{\"code\": \"c\", \"field\": \"f\"}]}";
    assert_eq!(envelope_text(text), Some("(invalid) - f: c".to_string()));
}

#[test]
fn second_shape_with_null_message_and_empty_context() {
    let text = "{\"code\": \"invalid\", \"context\": [], \"error\": null}";
    assert_eq!(envelope_text(text), Some("(invalid) - ".to_string()));
}

#[test]
fn second_shape_needs_a_text_as_message() {
    let text = "{\"code\": \"invalid\", \"context\": [], \"error\": 5}";
    assert_eq!(envelope_text(text), Some("invalid: ".to_string()));
}

#[test]
fn third_shape_lists_constraints() {
    let text = "{\"code\": \"invalid\", \"context\": [\
        {\"code\": \"range\", \"violated_constraints\": [[\"min\", \"1\"], [\"max\", \"9\"]]}, \
        {\"code\": \"length\", \"violated_constraints\": []}]}";
    assert_eq!(
        envelope_text(text),
        Some("invalid: range: (min: 1, max: 9), length: ()".to_string())
    );
}

#[test]
fn third_shape_needs_pairs_of_texts() {
    let three = "{\"code\": \"c\", \"context\": [{\"code\": \"d\", \
        \"violated_constraints\": [[\"a\", \"b\", \"c\"]]}]}";
    assert_eq!(envelope_text(three), None);
    let number = "{\"code\": \"c\", \"context\": [{\"code\": \"d\", \
        \"violated_constraints\": [[\"a\", 1]]}]}";
    assert_eq!(envelope_text(number), None);
}

#[test]
fn first_shape_wins_over_the_others() {
    let text = "{\"message\": \"m\", \"type\": \"t\", \"code\": \"c\", \"context\": []}";
    assert_eq!(envelope_text(text), Some("t - m".to_string()));
}

#[test]
fn other_documents_are_no_envelopes() {
    assert_eq!(envelope_text("{}"), None);
    assert_eq!(envelope_text("{\"message\": \"m\"}"), None);
    assert_eq!(envelope_text("{\"message\": 1, \"type\": \"t\"}"), None);
    assert_eq!(envelope_text("{\"code\": \"c\"}"), None);
    assert_eq!(envelope_text("{\"code\": \"c\", \"context\": {}}"), None);
    assert_eq!(envelope_text("{\"code\": \"c\", \"context\": [{\"code\": \"d\"}]}"), None);
    assert_eq!(envelope_text("[\"m\", \"t\"]"), None);
    assert_eq!(envelope_text("\"message\""), None);
    assert_eq!(envelope_text("null"), None);
    assert_eq!(envelope_text("{\"id\": \"G1\", \"title\": \"A series\"}"), None);
}

#[test]
fn body_is_read_but_for_404_and_429() {
    assert!(reads_body(200));
    assert!(reads_body(403));
    assert!(reads_body(500));
    assert!(!reads_body(404));
    assert!(!reads_body(429));
}

#[test]
fn empty_body_of_length_zero_becomes_an_empty_object() {
    match classify("https://example.com/a", response(200, b"", Some(0))) {
        ClassifiedOutcome::Bytes(bytes) => assert_eq!(bytes, b"{}".to_vec()),
        ClassifiedOutcome::Classified(error) => panic!("{}", error.to_string()),
    }
    match classify("https://example.com/a", response(403, b"", Some(0))) {
        ClassifiedOutcome::Bytes(bytes) => assert_eq!(bytes, b"{}".to_vec()),
        ClassifiedOutcome::Classified(error) => panic!("{}", error.to_string()),
    }
}

#[test]
fn empty_body_of_another_length_stays_empty() {
    for content_length in [Some(12), Some(1), None] {
        match classify("https://example.com/a", response(200, b"", content_length)) {
            ClassifiedOutcome::Bytes(bytes) => assert!(bytes.is_empty()),
            ClassifiedOutcome::Classified(error) => panic!("{}", error.to_string()),
        }
    }
}

#[test]
fn empty_body_of_unknown_length_does_not_parse() {
    match check_response("https://example.com/a", response(200, b"", None)) {
        Err(Error::Decode(context)) => {
            assert_eq!(context.message, "EOF while parsing a value at line 1 column 0 at 1:0");
            assert_eq!(context.url.as_deref(), Some("https://example.com/a"));
            assert_eq!(context.value.as_deref(), Some(""));
        }
        other => panic!("not a decode error: {:?}", other),
    }
}

#[test]
fn body_is_handed_on_unchanged() {
    match classify("https://example.com/a", response(500, b"{\"a\": 1}", Some(0))) {
        ClassifiedOutcome::Bytes(bytes) => assert_eq!(bytes, b"{\"a\": 1}".to_vec()),
        ClassifiedOutcome::Classified(error) => panic!("{}", error.to_string()),
    }
}

#[test]
fn challenge_page_is_a_block() {
    assert!(detects_challenge(CHALLENGE));
    match classify("https://example.com/blocked", response(403, CHALLENGE, None)) {
        ClassifiedOutcome::Classified(Error::Block(context)) => {
            assert_eq!(context.message, "Triggered Cloudflare bot protection");
            assert_eq!(context.url.as_deref(), Some("https://example.com/blocked"));
            assert!(context.value.is_none());
            assert!(context.extra.is_none());
        }
        other => panic!("not a block: {:?}", other),
    }
}

#[test]
fn challenge_needs_both_markers_and_status_403() {
    assert!(!detects_challenge(b"<!DOCTYPE html><title>Welcome</title>"));
    assert!(!detects_challenge(b"<html><!DOCTYPE html><title>Just a moment...</title>"));
    assert!(!detects_challenge(b""));
    assert!(!detects_challenge(b"<!DOCTYPE html><title>Just a moment..</title>"));
    let plain = b"{\"ok\": true}";
    assert!(matches!(
        classify("u", response(403, plain, None)),
        ClassifiedOutcome::Bytes(bytes) if bytes == plain.to_vec()
    ));
    assert!(matches!(
        classify("u", response(200, CHALLENGE, None)),
        ClassifiedOutcome::Bytes(bytes) if bytes == CHALLENGE.to_vec()
    ));
}

#[test]
fn status_404_is_a_request_error() {
    match classify("https://example.com/gone", response(404, b"", None)) {
        ClassifiedOutcome::Classified(Error::Request(context)) => {
            assert_eq!(context.message, "The requested resource is not present (404)");
            assert_eq!(context.url.as_deref(), Some("https://example.com/gone"));
            assert_eq!(context.extra, Some(404));
            assert!(context.value.is_none());
        }
        other => panic!("not a request error: {:?}", other),
    }
}

#[test]
fn rate_limit_with_seconds() {
    let mut limited = response(429, b"", None);
    limited.headers = vec![header("Content-Type", "text/plain"), header("Retry-After", "30")];
    assert_eq!(limited.retry_after(), Some(30));
    match classify("https://example.com/busy", limited) {
        ClassifiedOutcome::Classified(Error::Request(context)) => {
            assert!(context.message.contains("30"));
            assert_eq!(context.message, "Rate limit detected. Try again in 30 seconds");
            assert_eq!(context.url.as_deref(), Some("https://example.com/busy"));
            assert_eq!(context.extra, Some(429));
        }
        other => panic!("not a request error: {:?}", other),
    }
}

#[test]
fn rate_limit_without_seconds() {
    match classify("https://example.com/busy", response(429, b"", None)) {
        ClassifiedOutcome::Classified(Error::Request(context)) => {
            assert!(context.message.contains("Try again later"));
            assert_eq!(context.message, "Rate limit detected. Try again later");
            assert_eq!(context.extra, Some(429));
        }
        other => panic!("not a request error: {:?}", other),
    }
}

#[test]
fn retry_after_must_write_a_number() {
    for (value, expected) in [
        ("0", Some(0u32)),
        ("007", Some(7)),
        ("+15", Some(15)),
        ("4294967295", Some(4294967295)),
        ("4294967296", None),
        ("99999999999999999999999", None),
        ("", None),
        ("+", None),
        ("-1", None),
        (" 30", None),
        ("30 ", None),
        ("3.5", None),
        ("Wed, 21 Oct 2015 07:28:00 GMT", None),
    ] {
        let mut limited = response(429, b"", None);
        limited.headers = vec![header("retry-after", value)];
        assert_eq!(limited.retry_after(), expected, "{:?}", value);
    }
}

#[test]
fn first_header_of_the_name_counts() {
    let mut limited = response(429, b"", None);
    limited.headers =
        vec![header("X-Retry-After", "1"), header("RETRY-AFTER", "x"), header("retry-after", "9")];
    assert_eq!(limited.header(b"Retry-After"), Some(&b"x".to_vec()));
    assert_eq!(limited.retry_after(), None);
    assert_eq!(limited.header(b"retry_after"), None);
}

#[test]
fn rate_limit_text_writes_the_seconds() {
    assert_eq!(rate_limit_text(Some(0)), "Rate limit detected. Try again in 0 seconds");
    assert_eq!(
        rate_limit_text(Some(4294967295)),
        "Rate limit detected. Try again in 4294967295 seconds"
    );
    assert_eq!(rate_limit_text(None), "Rate limit detected. Try again later");
}

#[test]
fn check_response_hands_on_a_plain_document() {
    let checked = check_response("u", response(200, b"{\"id\": \"G1\"}", Some(12))).unwrap();
    assert_eq!(checked.raw, b"{\"id\": \"G1\"}".to_vec());
    assert_eq!(checked.value.get_str("id"), Some("G1"));
}

#[test]
fn check_response_of_no_content_is_an_empty_object() {
    let checked = check_response("u", response(204, b"", Some(0))).unwrap();
    assert_eq!(checked.raw, b"{}".to_vec());
    assert!(matches!(checked.value, Json::Object(members) if members.is_empty()));
}

#[test]
fn check_response_reports_an_envelope_with_address_and_status() {
    let body = b"{\"message\": \"too many\", \"type\": \"limit\"}";
    match check_response("https://example.com/x", response(200, body, None)) {
        Err(Error::Request(context)) => {
            assert_eq!(context.message, "limit - too many");
            assert_eq!(context.url.as_deref(), Some("https://example.com/x"));
            assert_eq!(context.extra, Some(200));
            assert!(context.value.is_none());
        }
        other => panic!("not a request error: {:?}", other),
    }
}

#[test]
fn check_response_reports_what_does_not_parse() {
    match check_response("https://example.com/x", response(200, b"{\"a\": tru}", None)) {
        Err(Error::Decode(context)) => {
            assert_eq!(context.message, "expected ident at line 1 column 10 at 1:10");
            assert_eq!(context.url.as_deref(), Some("https://example.com/x"));
            assert_eq!(context.value.as_deref(), Some("{\"a\": tru}"));
            assert!(context.extra.is_none());
        }
        other => panic!("not a decode error: {:?}", other),
    }
}

#[test]
fn check_response_blocks_before_it_parses() {
    assert!(matches!(
        check_response("u", response(403, CHALLENGE, None)),
        Err(Error::Block(_))
    ));
    assert!(matches!(
        check_response("u", response(404, b"{\"ok\": true}", None)),
        Err(Error::Request(_))
    ));
}

#[test]
fn check_response_is_repeatable() {
    for (status, body) in [
        (200u16, &b"{\"id\": 1}"[..]),
        (200, &b"{\"message\": \"m\", \"type\": \"t\"}"[..]),
        (200, &b"[1, 2"[..]),
        (403, CHALLENGE),
        (404, &b""[..]),
        (429, &b""[..]),
    ] {
        let first = check_response("https://example.com/x", response(status, body, None));
        let second = check_response("https://example.com/x", response(status, body, None));
        assert_eq!(format!("{:?}", first), format!("{:?}", second));
    }
}

#[test]
fn decode_hands_on_a_record() {
    let record: Result<u32, Error> = decode(Ok(7u32), "u", b"7");
    assert_eq!(record.unwrap(), 7);
}

#[test]
fn decode_failure_keeps_line_column_and_bytes() {
    let failure = ParseFailure {
        message: "invalid type: string \"x\", expected u32".to_string(),
        line: 3,
        column: 14,
    };
    let refused: Result<u32, Error> = decode(Err(failure), "https://example.com/x", b"{\"n\": \"x\"}");
    match refused {
        Err(Error::Decode(context)) => {
            assert_eq!(
                context.message,
                "invalid type: string \"x\", expected u32 at 3:14"
            );
            assert_eq!(context.url.as_deref(), Some("https://example.com/x"));
            assert_eq!(context.value.as_deref(), Some("{\"n\": \"x\"}"));
        }
        other => panic!("not a decode error: {:?}", other),
    }
}

#[test]
fn decode_failure_shows_bytes_that_are_no_text() {
    let failure = ParseFailure { message: "m".to_string(), line: 0, column: 0 };
    match decode_failure(&failure, "u", &[b'a', 0xff, b'b']) {
        Error::Decode(context) => {
            assert_eq!(context.message, "m at 0:0");
            assert_eq!(context.value.as_deref(), Some("a\u{fffd}b"));
        }
        other => panic!("not a decode error: {:?}", other),
    }
}

#[test]
fn check_request_decodes_what_passed() {
    let body = b"{\"id\": \"G1\"}";
    let id = check_request("u", response(200, body, None), |document: &Json| {
        match document.get_str("id") {
            Some(id) => Ok(id.to_string()),
            None => Err(ParseFailure { message: "missing field `id`".to_string(), line: 0, column: 0 }),
        }
    });
    assert_eq!(id.unwrap(), "G1");
}

#[test]
fn check_request_reports_what_the_decoder_refused() {
    let refused: Result<String, Error> =
        check_request("https://example.com/x", response(200, b"{}", None), |_: &Json| {
            Err(ParseFailure { message: "missing field `id`".to_string(), line: 0, column: 0 })
        });
    match refused {
        Err(Error::Decode(context)) => {
            assert_eq!(context.message, "missing field `id` at 0:0");
            assert_eq!(context.url.as_deref(), Some("https://example.com/x"));
            assert_eq!(context.value.as_deref(), Some("{}"));
        }
        other => panic!("not a decode error: {:?}", other),
    }
}

#[test]
fn check_request_never_decodes_an_envelope() {
    let body = b"{\"message\": \"m\", \"type\": \"t\", \"id\": \"G1\"}";
    let outcome: Result<String, Error> =
        check_request("u", response(200, body, None), |_: &Json| -> Result<String, ParseFailure> {
            panic!("an envelope was handed to the decoder")
        });
    assert!(matches!(outcome, Err(Error::Request(context)) if context.message == "t - m"));
}

#[test]
fn check_media_request_hands_the_flattened_record_to_the_decoder() {
    let body = b"{\"id\": \"outer\", \"season_metadata\": {\"id\": \"inner\"}}";
    let found = check_media_request(
        "u",
        response(200, body, None),
        |kind: MediaKind, record: &Json| -> Result<(MediaKind, String, bool), ParseFailure> {
            Ok((
                kind,
                record.get_str("id").unwrap_or("").to_string(),
                record.contains_key("season_metadata"),
            ))
        },
    );
    assert_eq!(found.unwrap(), (MediaKind::Season, "inner".to_string(), false));
}

#[test]
fn check_media_request_refuses_what_is_no_media() {
    let outcome: Result<u8, Error> = check_media_request(
        "https://example.com/x",
        response(200, b"{\"id\": \"G1\"}", None),
        |_: MediaKind, _: &Json| -> Result<u8, ParseFailure> {
            panic!("a record of no kind was handed to the decoder")
        },
    );
    match outcome {
        Err(Error::Decode(context)) => {
            assert_eq!(context.message, "could not classify media object at 0:0");
            assert_eq!(context.url.as_deref(), Some("https://example.com/x"));
            assert_eq!(context.value.as_deref(), Some("{\"id\": \"G1\"}"));
        }
        other => panic!("not a decode error: {:?}", other),
    }
}

#[test]
fn check_media_request_reports_envelopes_and_refusals() {
    let envelope = b"{\"message\": \"m\", \"type\": \"t\", \"series_metadata\": {}}";
    let outcome: Result<u8, Error> = check_media_request(
        "u",
        response(200, envelope, None),
        |_: MediaKind, _: &Json| -> Result<u8, ParseFailure> { Ok(1) },
    );
    assert!(matches!(outcome, Err(Error::Request(context)) if context.extra == Some(200)));
    let refused: Result<u8, Error> = check_media_request(
        "u",
        response(200, b"{\"sequence_number\": 1}", None),
        |_: MediaKind, _: &Json| -> Result<u8, ParseFailure> {
            Err(ParseFailure { message: "missing field `id`".to_string(), line: 0, column: 0 })
        },
    );
    assert!(
        matches!(refused, Err(Error::Decode(context)) if context.message == "missing field `id` at 0:0")
    );
}
