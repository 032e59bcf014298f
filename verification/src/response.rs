//! From a raw HTTP response to a cleared JSON document or a classified error.

use crate::envelope::envelope_message;
use crate::envelope::is_request_error;
use crate::error::excerpt;
use crate::error::lossy_text;
use crate::error::Error;
use crate::error::ErrorContext;
use crate::error::ErrorContextView;
use crate::error::ErrorView;
use crate::json::parsed;
use crate::json::Json;
use crate::json::JsonValue;
use crate::json::ParseFailure;
use crate::json::ParseFailureView;
use crate::resolver::flattened;
use crate::resolver::media_kind;
use crate::resolver::resolve_media;
use crate::resolver::MediaKind;
use crate::text::bytes_contain;
use crate::text::bytes_start_with;
use crate::text::decimal;
use crate::text::decimal_bytes;
use crate::text::decimal_text;
use crate::text::lemma_decimal_bytes_are_the_text;
use crate::text::lemma_read_what_was_written;
use crate::text::lemma_occurs_at_end;
use crate::text::lemma_occurs_in_middle;
use crate::text::occurs;
use crate::text::parse_unsigned;
use crate::text::starts_with;
use crate::text::unsigned_value;
use crate::text::views;
use vstd::prelude::*;
use vstd::slice::slice_to_vec;
use vstd::string::StringExecFns;
use vstd::string::StringSliceAdditionalSpecFns;
use vstd::utf8::decode_utf8;
use vstd::utf8::valid_utf8;

verus! {

/// One header of a response. A name is matched without regard to the case
/// of its ASCII letters.
#[derive(Clone, Debug)]
pub struct Header {
    pub name: Vec<u8>,
    pub value: Vec<u8>,
}

pub struct HeaderView {
    pub name: Seq<u8>,
    pub value: Seq<u8>,
}

impl View for Header {
    type V = HeaderView;

    open spec fn view(&self) -> HeaderView {
        HeaderView { name: self.name@, value: self.value@ }
    }
}

/// A response as the HTTP client hands it over. For a status whose body is
/// not read (see [`reads_body`]) the body is left empty.
#[derive(Clone, Debug)]
pub struct RawResponse {
    pub status: u16,
    pub headers: Vec<Header>,
    pub body: Vec<u8>,
    pub content_length: Option<u64>,
}

pub struct RawResponseView {
    pub status: u16,
    pub headers: Seq<HeaderView>,
    pub body: Seq<u8>,
    pub content_length: Option<u64>,
}

impl View for RawResponse {
    type V = RawResponseView;

    open spec fn view(&self) -> RawResponseView {
        RawResponseView {
            status: self.status,
            headers: views(self.headers@),
            body: self.body@,
            content_length: self.content_length,
        }
    }
}

/// What the classifier makes of a response: bytes to decode, or an error.
#[derive(Clone, Debug)]
pub enum ClassifiedOutcome {
    Bytes(Vec<u8>),
    Classified(Error),
}

pub enum ClassifiedOutcomeView {
    Bytes(Seq<u8>),
    Classified(ErrorView),
}

impl View for ClassifiedOutcome {
    type V = ClassifiedOutcomeView;

    open spec fn view(&self) -> ClassifiedOutcomeView {
        match self {
            ClassifiedOutcome::Bytes(bytes) => ClassifiedOutcomeView::Bytes(bytes@),
            ClassifiedOutcome::Classified(error) => ClassifiedOutcomeView::Classified(error@),
        }
    }
}

/// The marker with which a challenge page begins.
pub open spec fn doctype_marker() -> Seq<u8> {
    "<!DOCTYPE html>".spec_bytes()
}

/// The title of a challenge page.
pub open spec fn challenge_title() -> Seq<u8> {
    "<title>Just a moment...</title>".spec_bytes()
}

/// A body is a challenge page if it begins with the doctype marker and
/// holds the challenge title.
pub open spec fn is_challenge(body: Seq<u8>) -> bool {
    starts_with(body, doctype_marker()) && occurs(body, challenge_title())
}

/// An ASCII letter in lower case, any other byte unchanged.
pub open spec fn lower(byte: u8) -> u8 {
    if 65 <= byte <= 90 {
        (byte + 32) as u8
    } else {
        byte
    }
}

/// Two header names are the same but for the case of their letters.
pub open spec fn same_name(a: Seq<u8>, b: Seq<u8>) -> bool {
    a.len() == b.len() && forall|i: int| 0 <= i < a.len() ==> lower(a[i]) == lower(b[i])
}

/// The value of the first header with the given name.
pub open spec fn first_header(headers: Seq<HeaderView>, name: Seq<u8>) -> Option<Seq<u8>>
    decreases headers.len(),
{
    if headers.len() == 0 {
        None
    } else if same_name(headers[0].name, name) {
        Some(headers[0].value)
    } else {
        first_header(headers.drop_first(), name)
    }
}

/// The seconds that a response asks the caller to wait: the `Retry-After`
/// header where it is there and writes a 32-bit unsigned number.
pub open spec fn retry_after(headers: Seq<HeaderView>) -> Option<u32> {
    match first_header(headers, "retry-after".spec_bytes()) {
        Some(value) => unsigned_value(value),
        None => None,
    }
}

/// The message for a rate-limited request.
pub open spec fn rate_limit_message(seconds: Option<u32>) -> Seq<char> {
    "Rate limit detected. "@ + (match seconds {
        Some(n) => "Try again in "@ + decimal_text(n as nat) + " seconds"@,
        None => "Try again later"@,
    })
}

/// The bytes that go on to be decoded: the body, or an empty JSON object in
/// place of an empty body whose length was reported as zero. Every other
/// body, an empty one of unknown length too, goes on as it is.
pub open spec fn effective_body(response: RawResponseView) -> Seq<u8> {
    if response.body.len() == 0 && response.content_length == Some(0u64) {
        "{}".spec_bytes()
    } else {
        response.body
    }
}

/// The error for a request that bot protection blocked.
pub open spec fn block_error(url: Seq<char>) -> ErrorView {
    ErrorView::Block(
        ErrorContextView {
            message: "Triggered Cloudflare bot protection"@,
            url: Some(url),
            value: None,
            extra: None,
        },
    )
}

/// The error for a resource that is not there.
pub open spec fn not_found_error(url: Seq<char>) -> ErrorView {
    ErrorView::Request(
        ErrorContextView {
            message: "The requested resource is not present (404)"@,
            url: Some(url),
            value: None,
            extra: Some(404u16),
        },
    )
}

/// The error for a request that ran into the rate limit.
pub open spec fn rate_limit_error(url: Seq<char>, seconds: Option<u32>) -> ErrorView {
    ErrorView::Request(
        ErrorContextView {
            message: rate_limit_message(seconds),
            url: Some(url),
            value: None,
            extra: Some(429u16),
        },
    )
}

/// What the classifier makes of a response, by status:
/// 403 with a challenge page is a block, 404 and 429 are request errors,
/// and every other response hands on its bytes.
pub open spec fn classified(url: Seq<char>, response: RawResponseView) -> ClassifiedOutcomeView {
    if response.status == 403 && is_challenge(response.body) {
        ClassifiedOutcomeView::Classified(block_error(url))
    } else if response.status == 404 {
        ClassifiedOutcomeView::Classified(not_found_error(url))
    } else if response.status == 429 {
        ClassifiedOutcomeView::Classified(rate_limit_error(url, retry_after(response.headers)))
    } else {
        ClassifiedOutcomeView::Bytes(effective_body(response))
    }
}

/// Whether the body of a response with this status is read at all.
pub fn reads_body(status: u16) -> (r: bool)
    ensures
        r == (status != 404 && status != 429),
{
    status != 404 && status != 429
}

fn lower_byte(byte: u8) -> (r: u8)
    ensures
        r == lower(byte),
{
    if 65 <= byte && byte <= 90 {
        byte + 32
    } else {
        byte
    }
}

fn names_match(a: &[u8], b: &[u8]) -> (r: bool)
    ensures
        r == same_name(a@, b@),
{
    if a.len() != b.len() {
        return false;
    }
    let mut i: usize = 0;
    while i < a.len()
        invariant
            i <= a@.len(),
            a@.len() == b@.len(),
            forall|j: int| 0 <= j < i ==> lower(a@[j]) == lower(b@[j]),
        decreases a@.len() - i,
    {
        if lower_byte(a[i]) != lower_byte(b[i]) {
            return false;
        }
        i += 1;
    }
    true
}

impl RawResponse {
    /// The value of the first header with the given name.
    pub fn header(&self, name: &[u8]) -> (r: Option<&Vec<u8>>)
        ensures
            match r {
                Some(value) => first_header(self@.headers, name@) == Some(value@),
                None => first_header(self@.headers, name@) is None,
            },
    {
        let ghost all = views(self.headers@);
        let mut i: usize = 0;
        assert(all.skip(0) =~= all);
        while i < self.headers.len()
            invariant
                i <= self.headers.len(),
                all == views(self.headers@),
                first_header(all, name@) == first_header(all.skip(i as int), name@),
            decreases self.headers.len() - i,
        {
            let ghost rest = all.skip(i as int);
            assert(rest[0] == all[i as int]);
            assert(rest.drop_first() =~= all.skip(i + 1));
            if names_match(self.headers[i].name.as_slice(), name) {
                return Some(&self.headers[i].value);
            }
            i += 1;
        }
        assert(all.skip(i as int).len() == 0);
        None
    }

    /// The seconds that the response asks the caller to wait.
    pub fn retry_after(&self) -> (r: Option<u32>)
        ensures
            r == retry_after(self@.headers),
    {
        match self.header("retry-after".as_bytes()) {
            Some(value) => parse_unsigned(value.as_slice()),
            None => None,
        }
    }
}

/// Whether a body is a challenge page of the bot protection.
pub fn detects_challenge(body: &[u8]) -> (r: bool)
    ensures
        r == is_challenge(body@),
{
    bytes_start_with(body, "<!DOCTYPE html>".as_bytes()) && bytes_contain(
        body,
        "<title>Just a moment...</title>".as_bytes(),
    )
}

/// Writes the message for a rate-limited request.
pub fn rate_limit_text(seconds: Option<u32>) -> (r: String)
    ensures
        r@ == rate_limit_message(seconds),
{
    let mut out = String::from_str("Rate limit detected. ");
    match seconds {
        Some(n) => {
            out.append("Try again in ");
            out.append(decimal(n as u64).as_str());
            out.append(" seconds");
        },
        None => {
            out.append("Try again later");
        },
    }
    assert(out@ =~= rate_limit_message(seconds));
    out
}

/// Sorts a response by its status into bytes to decode or an error.
pub fn classify(url: &str, response: RawResponse) -> (r: ClassifiedOutcome)
    ensures
        r@ == classified(url@, response@),
{
    if response.status == 403 && detects_challenge(response.body.as_slice()) {
        let context = ErrorContext::new("Triggered Cloudflare bot protection").with_url(url);
        return ClassifiedOutcome::Classified(Error::Block(context));
    }
    if response.status == 404 {
        let context = ErrorContext::new("The requested resource is not present (404)").with_url(
            url,
        ).with_extra(404u16);
        return ClassifiedOutcome::Classified(Error::Request(context));
    }
    if response.status == 429 {
        let message = rate_limit_text(response.retry_after());
        let context = ErrorContext::new(message.as_str()).with_url(url).with_extra(429u16);
        return ClassifiedOutcome::Classified(Error::Request(context));
    }
    let reported_empty = match response.content_length {
        Some(length) => length == 0,
        None => false,
    };
    if response.body.len() == 0 && reported_empty {
        ClassifiedOutcome::Bytes(slice_to_vec("{}".as_bytes()))
    } else {
        ClassifiedOutcome::Bytes(response.body)
    }
}

/// The decode error for a document that the parser or a record refused:
/// the failure's message with line and column, the address, and an excerpt
/// of the bytes.
pub open spec fn decode_error(failure: ParseFailureView, url: Seq<char>, raw: Seq<u8>) -> ErrorView {
    ErrorView::Decode(
        ErrorContextView {
            message: failure.message + " at "@ + decimal_text(failure.line) + ":"@ + decimal_text(
                failure.column,
            ),
            url: Some(url),
            value: Some(excerpt(raw)),
            extra: None,
        },
    )
}

/// The error for an envelope found in the body of a response.
pub open spec fn envelope_request_error(message: Seq<char>, url: Seq<char>, status: u16) -> ErrorView {
    ErrorView::Request(
        ErrorContextView { message, url: Some(url), value: None, extra: Some(status) },
    )
}

/// A document that passed every check, with the bytes it was read from.
#[derive(Clone, Debug)]
pub struct Checked {
    pub value: Json,
    pub raw: Vec<u8>,
}

pub struct CheckedView {
    pub value: JsonValue,
    pub raw: Seq<u8>,
}

impl View for Checked {
    type V = CheckedView;

    open spec fn view(&self) -> CheckedView {
        CheckedView { value: self.value@, raw: self.raw@ }
    }
}

/// What becomes of bytes that the classifier handed on, given what the
/// parser made of them: a parse failure is a decode error, an envelope a
/// request error, and any other document passes.
pub open spec fn cleared(
    url: Seq<char>,
    status: u16,
    raw: Seq<u8>,
    document: Result<JsonValue, ParseFailureView>,
) -> Result<CheckedView, ErrorView> {
    match document {
        Err(failure) => Err(decode_error(failure, url, raw)),
        Ok(value) => match envelope_message(value) {
            Some(message) => Err(envelope_request_error(message, url, status)),
            None => Ok(CheckedView { value, raw }),
        },
    }
}

/// What becomes of a response: the classifier's error, or what [`cleared`]
/// says of the bytes and their parse.
pub open spec fn checked(url: Seq<char>, response: RawResponseView) -> Result<
    CheckedView,
    ErrorView,
> {
    match classified(url, response) {
        ClassifiedOutcomeView::Classified(error) => Err(error),
        ClassifiedOutcomeView::Bytes(raw) => cleared(url, response.status, raw, parsed(raw)),
    }
}

/// The view of an outcome that is a checked document or an error.
pub open spec fn outcome_view(outcome: Result<Checked, Error>) -> Result<CheckedView, ErrorView> {
    match outcome {
        Ok(checked) => Ok(checked@),
        Err(error) => Err(error@),
    }
}

/// Builds the decode error for a failure at a known line and column.
pub fn decode_failure(failure: &ParseFailure, url: &str, raw: &[u8]) -> (r: Error)
    ensures
        r@ == decode_error(failure@, url@, raw@),
        valid_utf8(raw@) ==> r@->Decode_0.value == Some(decode_utf8(raw@)),
{
    let mut message = failure.message.clone();
    message.append(" at ");
    message.append(decimal(failure.line as u64).as_str());
    message.append(":");
    message.append(decimal(failure.column as u64).as_str());
    Error::Decode(ErrorContext::new(message.as_str()).with_url(url).with_value(raw))
}

/// Clears a parsed document: reports a parse failure as a decode error and
/// an envelope as a request error with the address and status.
pub fn clear(url: &str, status: u16, raw: Vec<u8>, document: Result<Json, ParseFailure>) -> (r:
    Result<Checked, Error>)
    ensures
        outcome_view(r) == cleared(
            url@,
            status,
            raw@,
            match document {
                Ok(value) => Ok(value@),
                Err(failure) => Err(failure@),
            },
        ),
{
    match document {
        Err(failure) => Err(decode_failure(&failure, url, raw.as_slice())),
        Ok(value) => match is_request_error(&value) {
            Err(Error::Request(context)) => Err(
                Error::Request(context.with_url(url).with_extra(status)),
            ),
            Err(other) => Err(other),
            Ok(()) => Ok(Checked { value, raw }),
        },
    }
}

/// Takes a response through classification, parsing and the envelope check.
pub fn check_response(url: &str, response: RawResponse) -> (r: Result<Checked, Error>)
    ensures
        outcome_view(r) == checked(url@, response@),
{
    let status = response.status;
    match classify(url, response) {
        ClassifiedOutcome::Classified(error) => Err(error),
        ClassifiedOutcome::Bytes(raw) => {
            let document = Json::parse(raw.as_slice());
            clear(url, status, raw, document)
        },
    }
}

/// A response with status 403 whose body is a challenge page is reported as
/// blocked, with the address, whatever else the body holds.
pub proof fn lemma_challenge_is_blocked(url: Seq<char>, response: RawResponseView)
    requires
        response.status == 403,
        is_challenge(response.body),
    ensures
        classified(url, response) == ClassifiedOutcomeView::Classified(block_error(url)),
        checked(url, response) == Err::<CheckedView, ErrorView>(block_error(url)),
        block_error(url) is Block,
        block_error(url)->Block_0.url == Some(url),
{
}

/// An empty body whose length was reported as zero goes on as an empty JSON
/// object, under every status whose body is read.
pub proof fn lemma_empty_body_is_object(url: Seq<char>, response: RawResponseView)
    requires
        response.body.len() == 0,
        response.content_length == Some(0u64),
        response.status != 404,
        response.status != 429,
    ensures
        classified(url, response) == ClassifiedOutcomeView::Bytes("{}".spec_bytes()),
{
    if response.status == 403 {
        assert(!starts_with(response.body, doctype_marker())) by {
            reveal_strlit("<!DOCTYPE html>");
            vstd::string::is_ascii_spec_bytes("<!DOCTYPE html>");
        }
    }
}

/// A rate-limited response without a `Retry-After` header, or with one that
/// writes no number, asks to try again later.
pub proof fn lemma_rate_limit_without_seconds(url: Seq<char>, response: RawResponseView)
    requires
        response.status == 429,
        retry_after(response.headers) is None,
    ensures
        classified(url, response) == ClassifiedOutcomeView::Classified(
            rate_limit_error(url, None),
        ),
        rate_limit_message(None) == "Rate limit detected. "@ + "Try again later"@,
{
}

/// A rate-limited response whose `Retry-After` header writes a number has
/// that number, in decimal, in its message.
pub proof fn lemma_rate_limit_names_seconds(url: Seq<char>, response: RawResponseView)
    requires
        response.status == 429,
        retry_after(response.headers) is Some,
    ensures
        classified(url, response) == ClassifiedOutcomeView::Classified(
            rate_limit_error(url, retry_after(response.headers)),
        ),
        occurs(
            rate_limit_message(retry_after(response.headers)),
            decimal_text(retry_after(response.headers)->Some_0 as nat),
        ),
{
    let seconds = retry_after(response.headers)->Some_0;
    lemma_occurs_in_middle(
        "Rate limit detected. "@ + "Try again in "@,
        decimal_text(seconds as nat),
        " seconds"@,
    );
    assert("Rate limit detected. "@ + "Try again in "@ + decimal_text(seconds as nat)
        + " seconds"@ =~= rate_limit_message(Some(seconds)));
}

/// A rate-limited response whose first `Retry-After` header writes a number
/// in decimal, without sign or leading zeros, has that number in its
/// message as it was written.
pub proof fn lemma_rate_limit_repeats_the_header(
    url: Seq<char>,
    response: RawResponseView,
    seconds: u32,
)
    requires
        response.status == 429,
        first_header(response.headers, "retry-after".spec_bytes()) == Some(
            decimal_bytes(seconds as nat),
        ),
    ensures
        classified(url, response) == ClassifiedOutcomeView::Classified(
            rate_limit_error(url, Some(seconds)),
        ),
        occurs(rate_limit_message(Some(seconds)), decimal_text(seconds as nat)),
        decimal_text(seconds as nat).len() == decimal_bytes(seconds as nat).len(),
        forall|i: int|
            0 <= i < decimal_bytes(seconds as nat).len() ==> #[trigger] decimal_bytes(
                seconds as nat,
            )[i] == decimal_text(seconds as nat)[i] as u8,
{
    lemma_read_what_was_written(seconds);
    lemma_decimal_bytes_are_the_text(seconds as nat);
    lemma_rate_limit_names_seconds(url, response);
}

/// A decode error keeps the line and the column of the failure in its
/// message, and its excerpt is the bytes as text.
pub proof fn lemma_decode_error_keeps_position(
    failure: ParseFailureView,
    url: Seq<char>,
    raw: Seq<u8>,
)
    ensures
        decode_error(failure, url, raw) is Decode,
        occurs(decode_error(failure, url, raw).message(), failure.message),
        occurs(decode_error(failure, url, raw).message(), decimal_text(failure.line)),
        occurs(decode_error(failure, url, raw).message(), decimal_text(failure.column)),
        decode_error(failure, url, raw)->Decode_0.url == Some(url),
        decode_error(failure, url, raw)->Decode_0.value == Some(lossy_text(raw)),
        decode_error(failure, url, raw)->Decode_0.extra is None,
{
    let line = decimal_text(failure.line);
    let column = decimal_text(failure.column);
    let message = decode_error(failure, url, raw).message();
    lemma_occurs_in_middle(Seq::empty(), failure.message, " at "@ + line + ":"@ + column);
    assert(Seq::<char>::empty() + failure.message + (" at "@ + line + ":"@ + column)
        =~= message);
    lemma_occurs_in_middle(failure.message + " at "@, line, ":"@ + column);
    assert(failure.message + " at "@ + line + (":"@ + column) =~= message);
    lemma_occurs_at_end(failure.message + " at "@ + line + ":"@, column);
}

/// Classifying, clearing and checking are functions of their input: two runs
/// on the same address, response and parse agree in every outcome.
pub proof fn lemma_same_input_same_outcome(
    url: Seq<char>,
    response: RawResponseView,
    first: Result<CheckedView, ErrorView>,
    second: Result<CheckedView, ErrorView>,
)
    requires
        first == checked(url, response),
        second == checked(url, response),
    ensures
        first == second,
        first is Err ==> second is Err && first->Err_0 == second->Err_0,
        first is Ok ==> second is Ok && first->Ok_0.value == second->Ok_0.value && first->Ok_0.raw
            == second->Ok_0.raw,
{
}

/// An envelope in the body is reported as a request error with the address
/// and the status, whatever else the document holds: the shapes of errors
/// come before the records.
pub proof fn lemma_envelope_comes_first(
    url: Seq<char>,
    response: RawResponseView,
    value: JsonValue,
)
    requires
        classified(url, response) is Bytes,
        parsed(effective_body(response)) == Ok::<JsonValue, ParseFailureView>(value),
        envelope_message(value) is Some,
    ensures
        checked(url, response) == Err::<CheckedView, ErrorView>(
            envelope_request_error(envelope_message(value)->Some_0, url, response.status),
        ),
{
}

/// The last step of decoding: hands on a record that was decoded, and
/// reports one that was refused as a decode error with the address and an
/// excerpt of the bytes.
pub fn decode<T>(decoded: Result<T, ParseFailure>, url: &str, raw: &[u8]) -> (r: Result<T, Error>)
    ensures
        match decoded {
            Ok(record) => r == Ok::<T, Error>(record),
            Err(failure) => r is Err && r->Err_0@ == decode_error(failure@, url@, raw@),
        },
{
    match decoded {
        Ok(record) => Ok(record),
        Err(failure) => Err(decode_failure(&failure, url, raw)),
    }
}

/// Takes a response through the whole pipeline: classification, parsing,
/// the envelope check and, only for a document that passed all three, the
/// decoding into a record, which the caller supplies. An envelope is
/// therefore reported as an error even where it would decode as a record.
pub fn check_request<T, F>(url: &str, response: RawResponse, decoder: F) -> (r: Result<T, Error>)
    where F: FnOnce(&Json) -> Result<T, ParseFailure>
    requires
        forall|value: &Json| call_requires(decoder, (value,)),
    ensures
        match checked(url@, response@) {
            Err(error) => r is Err && r->Err_0@ == error,
            Ok(passed) => exists|value: &Json, decoded: Result<T, ParseFailure>|
                {
                    &&& value@ == passed.value
                    &&& call_ensures(decoder, (value,), decoded)
                    &&& match decoded {
                        Ok(record) => r == Ok::<T, Error>(record),
                        Err(failure) => r is Err && r->Err_0@ == decode_error(
                            failure@,
                            url@,
                            passed.raw,
                        ),
                    }
                },
        },
{
    match check_response(url, response) {
        Err(error) => Err(error),
        Ok(passed) => {
            let decoded = decoder(&passed.value);
            decode(decoded, url, passed.raw.as_slice())
        },
    }
}

/// The failure of a record that looks like no kind of media.
pub open spec fn unclassified_failure() -> ParseFailureView {
    ParseFailureView { message: "could not classify media object"@, line: 0, column: 0 }
}

/// Takes a response whose record may be of any kind of media through the
/// whole pipeline. The kind of a document that passed is decided from its
/// keys, the wrapper of that kind is merged into the record, and the caller
/// decodes the record as that kind; a document of no kind is a decode error.
pub fn check_media_request<T, F>(url: &str, response: RawResponse, decoder: F) -> (r: Result<
    T,
    Error,
>)
    where F: FnOnce(MediaKind, &Json) -> Result<T, ParseFailure>
    requires
        forall|kind: MediaKind, record: &Json| call_requires(decoder, (kind, record)),
    ensures
        match checked(url@, response@) {
            Err(error) => r is Err && r->Err_0@ == error,
            Ok(passed) => match media_kind(passed.value) {
                None => r is Err && r->Err_0@ == decode_error(
                    unclassified_failure(),
                    url@,
                    passed.raw,
                ),
                Some(kind) => exists|record: &Json, decoded: Result<T, ParseFailure>|
                    {
                        &&& record@ == flattened(passed.value, kind.metadata_key())
                        &&& call_ensures(decoder, (kind, record), decoded)
                        &&& match decoded {
                            Ok(found) => r == Ok::<T, Error>(found),
                            Err(failure) => r is Err && r->Err_0@ == decode_error(
                                failure@,
                                url@,
                                passed.raw,
                            ),
                        }
                    },
            },
        },
{
    match check_response(url, response) {
        Err(error) => Err(error),
        Ok(passed) => match resolve_media(&passed.value) {
            Err(_) => {
                let failure = ParseFailure {
                    message: String::from_str("could not classify media object"),
                    line: 0,
                    column: 0,
                };
                Err(decode_failure(&failure, url, passed.raw.as_slice()))
            },
            Ok(found) => {
                let decoded = decoder(found.kind, &found.document);
                decode(decoded, url, passed.raw.as_slice())
            },
        },
    }
}

} // verus!
