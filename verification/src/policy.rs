//! The server policy and the shaping of responses to a constant size.

use crate::endian::{le_bytes, le_value, lemma_le_round_trip, spec_le_bytes, spec_le_value};
use std::time::Duration;
use vstd::prelude::*;
use vstd::slice::*;
use vstd::string::*;
use vstd::utf8::*;

verus! {

/// Smallest constant response size that a policy may ask for. It leaves room
/// for the body of every response that reports a policy violation.
pub const MIN_RESPONSE_SIZE: u32 = 50;

/// Smallest constant processing time, in milliseconds.
pub const MIN_PROCESSING_TIME_MS: u32 = 1;

/// A policy as read from the configuration. It is not known to be valid.
#[derive(Clone, Copy, Debug)]
pub struct Policy {
    /// Size, in bytes, of the body of every response.
    pub constant_response_size_bytes: u32,
    /// Time after which every response is sent.
    pub constant_processing_time: Duration,
}

/// Why a policy was turned down.
#[derive(Clone, Copy, Debug, PartialEq, Eq, Structural)]
pub enum PolicyError {
    /// The response size is below `MIN_RESPONSE_SIZE`.
    ResponseSizeTooSmall,
    /// The processing time is shorter than one millisecond.
    ProcessingTimeTooShort,
    /// The processing time in milliseconds does not fit in 32 bits.
    ProcessingTimeTooLong,
}

/// A validated policy: the response size is at least `MIN_RESPONSE_SIZE` and the
/// processing time at least one millisecond.
#[derive(Clone, Copy, Debug)]
pub struct ServerPolicy {
    constant_response_size_bytes: u32,
    constant_processing_time_ms: u32,
}

/// The whole milliseconds that a duration holds.
pub uninterp spec fn spec_whole_millis(duration: Duration) -> nat;

/// `Duration::as_millis`: the total number of whole milliseconds in the duration.
#[verifier::external_body]
fn whole_millis(duration: &Duration) -> (millis: u128)
    ensures
        millis == spec_whole_millis(*duration),
{
    duration.as_millis()
}

impl ServerPolicy {
    #[verifier::type_invariant]
    spec fn inv(self) -> bool {
        self.constant_response_size_bytes >= MIN_RESPONSE_SIZE
            && self.constant_processing_time_ms >= MIN_PROCESSING_TIME_MS
    }

    pub closed spec fn spec_response_size(self) -> nat {
        self.constant_response_size_bytes as nat
    }

    pub closed spec fn spec_processing_time_ms(self) -> nat {
        self.constant_processing_time_ms as nat
    }

    /// Whether the values that a policy holds are in range.
    pub open spec fn well_formed(self) -> bool {
        self.spec_response_size() >= MIN_RESPONSE_SIZE && self.spec_processing_time_ms()
            >= MIN_PROCESSING_TIME_MS
    }

    /// A policy with the given values, if they are in range.
    pub fn new(constant_response_size_bytes: u32, constant_processing_time_ms: u32) -> (policy:
        Option<ServerPolicy>)
        ensures
            policy is Some <==> constant_response_size_bytes >= MIN_RESPONSE_SIZE
                && constant_processing_time_ms >= MIN_PROCESSING_TIME_MS,
            policy matches Some(p) ==> p.well_formed() && p.spec_response_size()
                == constant_response_size_bytes && p.spec_processing_time_ms()
                == constant_processing_time_ms,
    {
        if constant_response_size_bytes >= MIN_RESPONSE_SIZE && constant_processing_time_ms
            >= MIN_PROCESSING_TIME_MS {
            Some(ServerPolicy { constant_response_size_bytes, constant_processing_time_ms })
        } else {
            None
        }
    }

    /// Size, in bytes, of the body of every response.
    pub fn constant_response_size_bytes(&self) -> (size: u32)
        ensures
            size == self.spec_response_size(),
            size >= MIN_RESPONSE_SIZE,
    {
        proof {
            use_type_invariant(self);
        }
        self.constant_response_size_bytes
    }

    /// Time, in milliseconds, after which every response is sent.
    pub fn constant_processing_time_ms(&self) -> (millis: u32)
        ensures
            millis == self.spec_processing_time_ms(),
            millis >= MIN_PROCESSING_TIME_MS,
    {
        proof {
            use_type_invariant(self);
        }
        self.constant_processing_time_ms
    }
}

impl Policy {
    /// What `validate` returns for a response size and a processing time in
    /// whole milliseconds.
    pub open spec fn spec_validate(size: nat, millis: nat) -> Result<(nat, nat), PolicyError> {
        if size < MIN_RESPONSE_SIZE {
            Err(PolicyError::ResponseSizeTooSmall)
        } else if millis < MIN_PROCESSING_TIME_MS {
            Err(PolicyError::ProcessingTimeTooShort)
        } else if millis > u32::MAX {
            Err(PolicyError::ProcessingTimeTooLong)
        } else {
            Ok((size, millis))
        }
    }

    /// Checks the policy and hands it back in the form that the server uses.
    pub fn validate(&self) -> (checked: Result<ServerPolicy, PolicyError>)
        ensures
            match Self::spec_validate(
                self.constant_response_size_bytes as nat,
                spec_whole_millis(self.constant_processing_time),
            ) {
                Ok((size, millis)) => checked matches Ok(p) && p.well_formed()
                    && p.spec_response_size() == size && p.spec_processing_time_ms() == millis,
                Err(e) => checked == Err::<ServerPolicy, PolicyError>(e),
            },
    {
        if self.constant_response_size_bytes < MIN_RESPONSE_SIZE {
            return Err(PolicyError::ResponseSizeTooSmall);
        }
        let millis = whole_millis(&self.constant_processing_time);
        if millis < 1 {
            return Err(PolicyError::ProcessingTimeTooShort);
        }
        if millis > 0xffff_ffff {
            return Err(PolicyError::ProcessingTimeTooLong);
        }
        Ok(
            ServerPolicy {
                constant_response_size_bytes: self.constant_response_size_bytes,
                constant_processing_time_ms: millis as u32,
            },
        )
    }
}

/// The policy that a server needs before it serves: the configured one, checked.
/// A configuration without a policy is turned down.
pub fn required_policy(policy: Option<Policy>) -> (checked: Option<Result<ServerPolicy, PolicyError>>)
    ensures
        policy is None <==> checked is None,
        policy matches Some(p) ==> (checked matches Some(outcome) && match Policy::spec_validate(
            p.constant_response_size_bytes as nat,
            spec_whole_millis(p.constant_processing_time),
        ) {
            Ok((size, millis)) => outcome matches Ok(sp) && sp.well_formed()
                && sp.spec_response_size() == size && sp.spec_processing_time_ms() == millis,
            Err(e) => outcome == Err::<ServerPolicy, PolicyError>(e),
        }),
{
    match policy {
        Some(p) => Some(p.validate()),
        None => None,
    }
}

/// Outcome of a request as the response reports it.
#[derive(Clone, Copy, Debug, PartialEq, Eq, Structural)]
pub enum StatusCode {
    Success,
    InternalServerError,
    PolicyTimeViolation,
    PolicySizeViolation,
}

/// A response: a status, a body, and the number of leading bytes of the body
/// that carry content. What follows them is padding.
#[derive(Clone, Debug, PartialEq, Eq)]
pub struct Response {
    pub status: StatusCode,
    pub body: Vec<u8>,
    pub length: u64,
}

/// A response as a mathematical value.
pub struct ResponseView {
    pub status: StatusCode,
    pub body: Seq<u8>,
    pub length: nat,
}

impl View for Response {
    type V = ResponseView;

    open spec fn view(&self) -> ResponseView {
        ResponseView { status: self.status, body: self.body@, length: self.length as nat }
    }
}

/// Why the content of a response could not be read.
#[derive(Clone, Copy, Debug, PartialEq, Eq, Structural)]
pub enum ResponseError {
    /// The length of the content is larger than the body.
    LengthExceedsBody,
}

/// Why a response could not be padded.
#[derive(Clone, Copy, Debug, PartialEq, Eq, Structural)]
pub enum PadError {
    /// The body is larger than the size to pad it to.
    BodyTooLarge,
}

/// A response with the given body as its content.
pub open spec fn spec_create(status: StatusCode, body: Seq<u8>) -> ResponseView {
    ResponseView { status, body, length: body.len() }
}

/// `size` zero bytes.
pub open spec fn spec_zeros(size: nat) -> Seq<u8> {
    Seq::new(size, |i: int| 0u8)
}

/// The response with its body followed by zero bytes up to `body_size`, and
/// with the length of the body before padding as the length of its content.
pub open spec fn spec_pad(response: ResponseView, body_size: nat) -> ResponseView
    recommends
        response.body.len() <= body_size,
{
    ResponseView {
        status: response.status,
        body: response.body + spec_zeros((body_size - response.body.len()) as nat),
        length: response.body.len(),
    }
}

/// The content of a response: its body without the padding.
pub open spec fn spec_content(response: ResponseView) -> Option<Seq<u8>> {
    if response.length <= response.body.len() {
        Some(response.body.take(response.length as int))
    } else {
        None
    }
}

impl Response {
    /// A response whose whole body is content.
    pub fn create(status: StatusCode, body: Vec<u8>) -> (response: Response)
        ensures
            response@ == spec_create(status, body@),
    {
        let length = body.len() as u64;
        Response { status, body, length }
    }

    /// The content of the response, without padding.
    pub fn body(&self) -> (content: Result<&[u8], ResponseError>)
        ensures
            match spec_content(self@) {
                Some(bytes) => content matches Ok(slice) && slice@ == bytes,
                None => content == Err::<&[u8], ResponseError>(ResponseError::LengthExceedsBody),
            },
    {
        if self.length <= self.body.len() as u64 {
            Ok(slice_subrange(self.body.as_slice(), 0, self.length as usize))
        } else {
            Err(ResponseError::LengthExceedsBody)
        }
    }

    /// A new response with the same status and body, except that trailing zero
    /// bytes bring the body to `body_size` bytes. Its length is that of the body
    /// before padding. A body larger than `body_size` is an error.
    pub fn pad(&self, body_size: usize) -> (padded: Result<Response, PadError>)
        ensures
            self@.body.len() <= body_size ==> (padded matches Ok(r) && r@ == spec_pad(
                self@,
                body_size as nat,
            )),
            self@.body.len() > body_size ==> (padded matches Err(e) && e
                == PadError::BodyTooLarge),
    {
        if self.body.len() <= body_size {
            let mut body = slice_to_vec(self.body.as_slice());
            let length = body.len() as u64;
            let mut i: usize = body.len();
            while i < body_size
                invariant
                    self@.body.len() <= i <= body_size,
                    body@ == self@.body + spec_zeros((i - self@.body.len()) as nat),
                decreases body_size - i,
            {
                body.push(0);
                i = i + 1;
                assert(body@ =~= self@.body + spec_zeros((i - self@.body.len()) as nat));
            }
            Ok(Response { status: self.status, body, length })
        } else {
            Err(PadError::BodyTooLarge)
        }
    }
}

/// The number that stands for a status in the bytes of a response.
pub open spec fn spec_status_code(status: StatusCode) -> u32 {
    match status {
        StatusCode::Success => 1,
        StatusCode::PolicySizeViolation => 3,
        StatusCode::PolicyTimeViolation => 4,
        StatusCode::InternalServerError => 5,
    }
}

/// The status that a number stands for, if any.
pub open spec fn spec_status_of(code: int) -> Option<StatusCode> {
    if code == 1 {
        Some(StatusCode::Success)
    } else if code == 3 {
        Some(StatusCode::PolicySizeViolation)
    } else if code == 4 {
        Some(StatusCode::PolicyTimeViolation)
    } else if code == 5 {
        Some(StatusCode::InternalServerError)
    } else {
        None
    }
}

/// Number of bytes that come before the body in the bytes of a response: four
/// for the status and eight for the length.
pub const RESPONSE_HEADER_SIZE: usize = 12;

/// A response as the bytes that leave the server: the status in four bytes and
/// the length of the content in eight, both least significant byte first, and
/// then the body.
pub open spec fn spec_encode_response(response: ResponseView) -> Seq<u8> {
    spec_le_bytes(spec_status_code(response.status)) + spec_le_bytes(
        (response.length % 0x1_0000_0000) as u32,
    ) + spec_le_bytes((response.length / 0x1_0000_0000) as u32) + response.body
}

/// The response that bytes stand for, if they stand for one: they hold a
/// header with a known status, and what follows is the body.
pub open spec fn spec_decode_response(bytes: Seq<u8>) -> Option<ResponseView> {
    if bytes.len() < 12 {
        None
    } else {
        match spec_status_of(spec_le_value(bytes.subrange(0, 4))) {
            None => None,
            Some(status) => Some(
                ResponseView {
                    status,
                    body: bytes.skip(12),
                    length: (spec_le_value(bytes.subrange(4, 8)) + 0x1_0000_0000 * spec_le_value(
                        bytes.subrange(8, 12),
                    )) as nat,
                },
            ),
        }
    }
}

impl StatusCode {
    /// The number that stands for the status in the bytes of a response.
    pub fn code(self) -> (code: u32)
        ensures
            code == spec_status_code(self),
    {
        match self {
            StatusCode::Success => 1,
            StatusCode::PolicySizeViolation => 3,
            StatusCode::PolicyTimeViolation => 4,
            StatusCode::InternalServerError => 5,
        }
    }

    /// The status that a number stands for.
    pub fn from_code(code: u32) -> (status: Option<StatusCode>)
        ensures
            status == spec_status_of(code as int),
    {
        if code == 1 {
            Some(StatusCode::Success)
        } else if code == 3 {
            Some(StatusCode::PolicySizeViolation)
        } else if code == 4 {
            Some(StatusCode::PolicyTimeViolation)
        } else if code == 5 {
            Some(StatusCode::InternalServerError)
        } else {
            None
        }
    }
}

impl Response {
    /// Writes the response as the bytes that leave the server. They are twelve
    /// bytes more than the body.
    pub fn encode(&self) -> (bytes: Vec<u8>)
        ensures
            bytes@ == spec_encode_response(self@),
            bytes@.len() == RESPONSE_HEADER_SIZE + self@.body.len(),
    {
        let low = (self.length % 0x1_0000_0000) as u32;
        let high = (self.length / 0x1_0000_0000) as u32;
        let mut bytes = le_bytes(self.status.code());
        bytes.extend_from_slice(le_bytes(low).as_slice());
        bytes.extend_from_slice(le_bytes(high).as_slice());
        bytes.extend_from_slice(self.body.as_slice());
        proof {
            assert(bytes@ =~= spec_encode_response(self@));
        }
        bytes
    }

    /// Reads a response from the bytes that left the server.
    pub fn decode(bytes: &[u8]) -> (response: Option<Response>)
        ensures
            match spec_decode_response(bytes@) {
                Some(expected) => response matches Some(found) && found@ == expected,
                None => response is None,
            },
    {
        if bytes.len() < 12 {
            return None;
        }
        let status_bytes = slice_subrange(bytes, 0, 4);
        let low_bytes = slice_subrange(bytes, 4, 8);
        let high_bytes = slice_subrange(bytes, 8, 12);
        proof {
            assert(status_bytes@.take(4) =~= bytes@.subrange(0, 4));
            assert(low_bytes@.take(4) =~= bytes@.subrange(4, 8));
            assert(high_bytes@.take(4) =~= bytes@.subrange(8, 12));
        }
        let status = match StatusCode::from_code(le_value(status_bytes)) {
            Some(status) => status,
            None => {
                return None;
            },
        };
        let low = le_value(low_bytes) as u64;
        let high = le_value(high_bytes) as u64;
        let body = slice_to_vec(slice_subrange(bytes, 12, bytes.len()));
        proof {
            assert(body@ =~= bytes@.skip(12));
        }
        Some(Response { status, body, length: low + high * 0x1_0000_0000 })
    }
}

/// Reading a response that was written gives the response back.
pub proof fn lemma_response_round_trip(response: ResponseView)
    requires
        response.length <= u64::MAX,
    ensures
        spec_decode_response(spec_encode_response(response)) == Some(response),
{
    let bytes = spec_encode_response(response);
    let low = (response.length % 0x1_0000_0000) as u32;
    let high = (response.length / 0x1_0000_0000) as u32;
    lemma_le_round_trip(spec_status_code(response.status));
    lemma_le_round_trip(low);
    lemma_le_round_trip(high);
    assert(bytes.subrange(0, 4) =~= spec_le_bytes(spec_status_code(response.status)));
    assert(bytes.subrange(4, 8) =~= spec_le_bytes(low));
    assert(bytes.subrange(8, 12) =~= spec_le_bytes(high));
    assert(bytes.skip(12) =~= response.body);
    assert(low + 0x1_0000_0000 * high == response.length);
}

/// What the shaper finds when the processing time is over.
#[derive(Debug)]
pub enum InvocationOutcome {
    /// The invocation has not finished.
    Unfinished,
    /// The invocation was lost: its task ended without a result.
    Lost,
    /// The invocation finished with an error, of which this is the message.
    Failed(String),
    /// The invocation finished with a response.
    Completed(Response),
}

/// An invocation outcome as a mathematical value.
pub enum OutcomeView {
    Unfinished,
    Lost,
    Failed(Seq<char>),
    Completed(ResponseView),
}

impl View for InvocationOutcome {
    type V = OutcomeView;

    open spec fn view(&self) -> OutcomeView {
        match self {
            InvocationOutcome::Unfinished => OutcomeView::Unfinished,
            InvocationOutcome::Lost => OutcomeView::Lost,
            InvocationOutcome::Failed(message) => OutcomeView::Failed(message@),
            InvocationOutcome::Completed(response) => OutcomeView::Completed(response@),
        }
    }
}

/// Body of the response that reports an invocation that took too long.
pub open spec fn spec_time_violation_body() -> Seq<u8> {
    "Reason: response not available.".spec_bytes()
}

/// Body of the response that reports a lost invocation.
pub open spec fn spec_internal_error_body() -> Seq<u8> {
    "Reason: internal server error.".spec_bytes()
}

/// Body of the response that stands in for one that is too large.
pub open spec fn spec_size_violation_body() -> Seq<u8> {
    "Reason: the response is too large.".spec_bytes()
}

/// The response that an outcome stands for, before its size is looked at.
pub open spec fn spec_sampled(outcome: OutcomeView) -> ResponseView {
    match outcome {
        OutcomeView::Unfinished => spec_create(
            StatusCode::PolicyTimeViolation,
            spec_time_violation_body(),
        ),
        OutcomeView::Lost => spec_create(
            StatusCode::InternalServerError,
            spec_internal_error_body(),
        ),
        OutcomeView::Failed(message) => spec_create(
            StatusCode::InternalServerError,
            encode_utf8(message),
        ),
        OutcomeView::Completed(response) => response,
    }
}

/// The response with a body of at most `size` bytes: the given one if it fits,
/// else the one that reports the size violation.
pub open spec fn spec_limited(response: ResponseView, size: nat) -> ResponseView {
    if response.body.len() > size {
        spec_create(StatusCode::PolicySizeViolation, spec_size_violation_body())
    } else {
        response
    }
}

/// The response that leaves the server for an outcome, under a policy with the
/// given constant response size.
pub open spec fn spec_apply_policy(size: nat, outcome: OutcomeView) -> ResponseView {
    spec_pad(spec_limited(spec_sampled(outcome), size), size)
}

/// The status of the response that leaves the server for an outcome: a time
/// violation for an invocation that has not finished, a size violation for a
/// body or an error message larger than the response size, an internal server
/// error for a lost or failed invocation, and else the status of the response.
pub open spec fn spec_shaped_status(size: nat, outcome: OutcomeView) -> StatusCode {
    match outcome {
        OutcomeView::Unfinished => StatusCode::PolicyTimeViolation,
        OutcomeView::Lost => StatusCode::InternalServerError,
        OutcomeView::Failed(message) => if encode_utf8(message).len() > size {
            StatusCode::PolicySizeViolation
        } else {
            StatusCode::InternalServerError
        },
        OutcomeView::Completed(response) => if response.body.len() > size {
            StatusCode::PolicySizeViolation
        } else {
            response.status
        },
    }
}

/// The bodies of the responses that the shaper makes up are no longer than the
/// smallest response size that a policy may ask for.
pub proof fn lemma_reason_bodies_fit()
    ensures
        spec_time_violation_body().len() == 31,
        spec_internal_error_body().len() == 30,
        spec_size_violation_body().len() == 34,
{
    reveal_strlit("Reason: response not available.");
    reveal_strlit("Reason: internal server error.");
    reveal_strlit("Reason: the response is too large.");
    let a = "Reason: response not available.";
    let b = "Reason: internal server error.";
    let c = "Reason: the response is too large.";
    assert(is_ascii_chars(a@));
    assert(is_ascii_chars(b@));
    assert(is_ascii_chars(c@));
    is_ascii_chars_encode_utf8(a@);
    is_ascii_chars_encode_utf8(b@);
    is_ascii_chars_encode_utf8(c@);
}

/// Shapes the outcome of an invocation into the response that leaves the
/// server. An invocation that has not finished gives a time violation, a lost
/// or failed one an internal server error. A body larger than the policy's
/// response size is replaced by a size violation. The body is then padded with
/// zero bytes to exactly the policy's response size.
pub fn apply_policy(policy: &ServerPolicy, outcome: InvocationOutcome) -> (response: Response)
    ensures
        response@ == spec_apply_policy(policy.spec_response_size(), outcome@),
        response@.body.len() == policy.spec_response_size(),
        response@.length <= policy.spec_response_size(),
        response@.status == spec_shaped_status(policy.spec_response_size(), outcome@),
{
    let size = policy.constant_response_size_bytes() as usize;
    proof {
        lemma_reason_bodies_fit();
    }
    let sampled = match outcome {
        InvocationOutcome::Unfinished => Response::create(
            StatusCode::PolicyTimeViolation,
            "Reason: response not available.".as_bytes_vec(),
        ),
        InvocationOutcome::Lost => Response::create(
            StatusCode::InternalServerError,
            "Reason: internal server error.".as_bytes_vec(),
        ),
        InvocationOutcome::Failed(message) => Response::create(
            StatusCode::InternalServerError,
            message.as_str().as_bytes_vec(),
        ),
        InvocationOutcome::Completed(response) => response,
    };
    let limited = if sampled.body.len() > size {
        Response::create(
            StatusCode::PolicySizeViolation,
            "Reason: the response is too large.".as_bytes_vec(),
        )
    } else {
        sampled
    };
    match limited.pad(size) {
        Ok(padded) => padded,
        Err(_) => {
            proof {
                assert(false);
            }
            limited
        },
    }
}

/// The status of a shaped response goes by the outcome and by the size of its
/// body alone.
pub proof fn lemma_shaped_status(size: nat, outcome: OutcomeView)
    requires
        size >= MIN_RESPONSE_SIZE,
    ensures
        spec_apply_policy(size, outcome).status == spec_shaped_status(size, outcome),
{
    lemma_reason_bodies_fit();
}

/// Every shaped response has a body of exactly the policy's response size,
/// whatever the invocation did.
pub proof fn lemma_shaped_body_has_constant_size(size: nat, outcome: OutcomeView)
    requires
        size >= MIN_RESPONSE_SIZE,
    ensures
        spec_apply_policy(size, outcome).body.len() == size,
        spec_apply_policy(size, outcome).length <= size,
{
    lemma_reason_bodies_fit();
}

/// Every response that leaves a server has the same number of bytes: the
/// policy's response size and the header, whatever the invocation did.
pub proof fn lemma_encoded_size_is_constant(size: nat, outcome: OutcomeView)
    requires
        size >= MIN_RESPONSE_SIZE,
    ensures
        spec_encode_response(spec_apply_policy(size, outcome)).len() == RESPONSE_HEADER_SIZE + size,
{
    lemma_shaped_body_has_constant_size(size, outcome);
}

/// Padding does not touch the content: the content of a padded response is the
/// body that was padded.
pub proof fn lemma_padding_keeps_content(response: ResponseView, body_size: nat)
    requires
        response.body.len() <= body_size,
    ensures
        spec_content(spec_pad(response, body_size)) == Some(response.body),
{
    let padded = spec_pad(response, body_size);
    assert(padded.body.take(response.body.len() as int) =~= response.body);
}

/// Shaping a shaped response again keeps its status and its body.
pub proof fn lemma_reshaping_keeps_status_and_body(size: nat, outcome: OutcomeView)
    requires
        size >= MIN_RESPONSE_SIZE,
    ensures
        ({
            let shaped = spec_apply_policy(size, outcome);
            let again = spec_apply_policy(size, OutcomeView::Completed(shaped));
            again.status == shaped.status && again.body == shaped.body && again.length == size
        }),
{
    lemma_reason_bodies_fit();
    let shaped = spec_apply_policy(size, outcome);
    let again = spec_apply_policy(size, OutcomeView::Completed(shaped));
    assert(again.body =~= shaped.body);
}

/// Shaping is idempotent on responses whose content fills the whole body: such
/// a shaped response is left as it is.
pub proof fn lemma_shaping_idempotent(size: nat, outcome: OutcomeView)
    requires
        size >= MIN_RESPONSE_SIZE,
        spec_apply_policy(size, outcome).length == size,
    ensures
        spec_apply_policy(size, OutcomeView::Completed(spec_apply_policy(size, outcome)))
            == spec_apply_policy(size, outcome),
{
    lemma_reshaping_keeps_status_and_body(size, outcome);
}

/// A body of exactly the policy's response size is let through; one byte more
/// and the response is replaced by a size violation.
pub proof fn lemma_size_boundary(size: nat, response: ResponseView)
    requires
        size >= MIN_RESPONSE_SIZE,
    ensures
        response.body.len() <= size ==> spec_apply_policy(
            size,
            OutcomeView::Completed(response),
        ).status == response.status,
        response.body.len() > size ==> spec_apply_policy(
            size,
            OutcomeView::Completed(response),
        ).status == StatusCode::PolicySizeViolation,
{
}

} // verus!
