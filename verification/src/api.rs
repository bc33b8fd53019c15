//! The HTTP surface as plain values: each endpoint is a function from what the
//! request carried, and the registry, to the response that is owed.
//!
//! Every endpoint performs exactly one registry operation. The transport that
//! routes requests, decodes bodies and holds the registry under its lock calls
//! these functions and writes out what they return.

use vstd::prelude::*;
use crate::capability::{views_of, Capability, CapabilityView};
use crate::registry::{lookup, Registry};

verus! {

/// Status of a request that was served.
pub const STATUS_OK: u16 = 200;

/// Status of a request whose body could not be decoded.
pub const STATUS_BAD_REQUEST: u16 = 400;

/// Status of a lookup that matched no record.
pub const STATUS_NOT_FOUND: u16 = 404;

/// Why a request body did not decode to a capability.
#[derive(Clone, Copy, Debug, PartialEq, Eq)]
pub enum DecodeFailure {
    /// The body is not well-formed JSON.
    MalformedJson,
    /// The body is JSON, but one of the three fields is absent or is not a
    /// string.
    MissingField,
}

/// What a response carries: plain text, or data to be written as JSON.
#[derive(Debug, PartialEq, Eq)]
pub enum Body {
    /// Plain text.
    Text(String),
    /// One capability, written as a JSON object.
    Record(Capability),
    /// Capabilities in registration order, written as a JSON array.
    Records(Vec<Capability>),
}

/// A body as mathematical values.
pub enum BodyView {
    Text(Seq<char>),
    Record(CapabilityView),
    Records(Seq<CapabilityView>),
}

impl View for Body {
    type V = BodyView;

    open spec fn view(&self) -> BodyView {
        match self {
            Body::Text(text) => BodyView::Text(text@),
            Body::Record(capability) => BodyView::Record(capability@),
            Body::Records(capabilities) => BodyView::Records(views_of(capabilities@)),
        }
    }
}

/// A status code and a body: the one response that a request gets.
#[derive(Debug, PartialEq, Eq)]
pub struct Response {
    pub status: u16,
    pub body: Body,
}

/// A response as mathematical values.
pub struct ResponseView {
    pub status: u16,
    pub body: BodyView,
}

impl View for Response {
    type V = ResponseView;

    open spec fn view(&self) -> ResponseView {
        ResponseView { status: self.status, body: self.body@ }
    }
}

/// The answer of the liveness probe.
pub open spec fn health_response() -> ResponseView {
    ResponseView { status: STATUS_OK, body: BodyView::Text("All is good"@) }
}

/// The answer to a body that did not decode: a client error that says which
/// way it failed.
pub open spec fn rejection(failure: DecodeFailure) -> ResponseView {
    ResponseView {
        status: STATUS_BAD_REQUEST,
        body: BodyView::Text(
            match failure {
                DecodeFailure::MalformedJson => "Malformed JSON body"@,
                DecodeFailure::MissingField => "Missing or mistyped capability field"@,
            },
        ),
    }
}

/// The answer to a registration: the stored record, echoed.
pub open spec fn registered_response(stored: CapabilityView) -> ResponseView {
    ResponseView { status: STATUS_OK, body: BodyView::Record(stored) }
}

/// The answer to a listing: every record, in registration order.
pub open spec fn listing_response(records: Seq<CapabilityView>) -> ResponseView {
    ResponseView { status: STATUS_OK, body: BodyView::Records(records) }
}

/// The answer to a lookup by name: the earliest record so named, or a
/// not-found response when there is none.
pub open spec fn lookup_response(records: Seq<CapabilityView>, name: Seq<char>) -> ResponseView {
    match lookup(records, name) {
        Some(found) => ResponseView { status: STATUS_OK, body: BodyView::Record(found) },
        None => ResponseView {
            status: STATUS_NOT_FOUND,
            body: BodyView::Text("Capability not found"@),
        },
    }
}

/// The records that a registration request leaves behind: one more where the
/// body decoded, the same where it did not.
pub open spec fn records_after_request(
    records: Seq<CapabilityView>,
    decoded: Result<Capability, DecodeFailure>,
) -> Seq<CapabilityView> {
    match decoded {
        Ok(capability) => records.push(capability@),
        Err(_) => records,
    }
}

/// The answer to a registration request, by what its body decoded to.
pub open spec fn request_response(decoded: Result<Capability, DecodeFailure>) -> ResponseView {
    match decoded {
        Ok(capability) => registered_response(capability@),
        Err(failure) => rejection(failure),
    }
}

/// `GET /health`: the process is alive. Touches no registry.
pub fn health() -> (response: Response)
    ensures
        response@ == health_response(),
{
    Response { status: STATUS_OK, body: Body::Text("All is good".to_owned()) }
}

/// `POST /capabilities`: stores the decoded capability at the end of the
/// registry and echoes it. A body that did not decode is answered with a
/// client error and leaves the registry as it was.
pub fn register_capability(
    decoded: Result<Capability, DecodeFailure>,
    registry: &mut Registry,
) -> (response: Response)
    ensures
        final(registry)@ == records_after_request(old(registry)@, decoded),
        response@ == request_response(decoded),
{
    match decoded {
        Ok(capability) => {
            registry.register(capability.clone());
            Response { status: STATUS_OK, body: Body::Record(capability) }
        },
        Err(DecodeFailure::MalformedJson) => Response {
            status: STATUS_BAD_REQUEST,
            body: Body::Text("Malformed JSON body".to_owned()),
        },
        Err(DecodeFailure::MissingField) => Response {
            status: STATUS_BAD_REQUEST,
            body: Body::Text("Missing or mistyped capability field".to_owned()),
        },
    }
}

/// `GET /capabilities`: every record, in registration order. An empty
/// registry gives an empty array.
pub fn list_capabilities(registry: &Registry) -> (response: Response)
    ensures
        response@ == listing_response(registry@),
{
    Response { status: STATUS_OK, body: Body::Records(registry.list()) }
}

/// `GET /capabilities/{name}`: the earliest record named `name`, or the
/// not-found response.
pub fn get_capability(name: String, registry: &Registry) -> (response: Response)
    ensures
        response@ == lookup_response(registry@, name@),
{
    match registry.get(name) {
        Some(capability) => Response { status: STATUS_OK, body: Body::Record(capability) },
        None => Response {
            status: STATUS_NOT_FOUND,
            body: Body::Text("Capability not found".to_owned()),
        },
    }
}

} // verus!
