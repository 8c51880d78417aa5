//! The HTTP side of the adapter: request descriptors, response outcomes,
//! and the host-supplied capability that performs the transfer.

use vstd::prelude::*;
use crate::params::QueryParams;

verus! {

/// The representation the response body is requested in.
#[derive(Clone, Copy, PartialEq, Eq, Structural, Debug)]
pub enum ResponseType {
    Text,
    Binary,
}

/// Descriptor of one outbound GET request.
pub struct HttpRequest {
    pub url: String,
    pub headers: Option<QueryParams>,
    pub url_params: Option<QueryParams>,
    pub response_type: ResponseType,
    pub body: Option<String>,
}

/// Mathematical image of a request descriptor.
pub ghost struct RequestModel {
    pub url: Seq<char>,
    pub headers: Option<Map<Seq<char>, Seq<char>>>,
    pub url_params: Option<Map<Seq<char>, Seq<char>>>,
    pub response_type: ResponseType,
    pub body: Option<Seq<char>>,
}

/// The mapping an optional parameter collection denotes.
pub open spec fn opt_params_view(o: Option<QueryParams>) -> Option<Map<Seq<char>, Seq<char>>> {
    match o {
        Some(q) => Some(q@),
        None => None,
    }
}

/// The characters an optional string holds.
pub open spec fn opt_string_view(o: Option<String>) -> Option<Seq<char>> {
    match o {
        Some(s) => Some(s@),
        None => None,
    }
}

impl View for HttpRequest {
    type V = RequestModel;

    open spec fn view(&self) -> RequestModel {
        RequestModel {
            url: self.url@,
            headers: opt_params_view(self.headers),
            url_params: opt_params_view(self.url_params),
            response_type: self.response_type,
            body: opt_string_view(self.body),
        }
    }
}

/// A response payload; its body may be absent.
pub struct HttpResponse {
    pub body: Option<String>,
}

/// Mathematical image of a response payload.
pub ghost struct ResponseModel {
    pub body: Option<Seq<char>>,
}

impl View for HttpResponse {
    type V = ResponseModel;

    open spec fn view(&self) -> ResponseModel {
        ResponseModel { body: opt_string_view(self.body) }
    }
}

/// What one transfer attempt came to: a transport-level failure with its
/// message, a success that carried no response at all, or a response.
pub enum HttpOutcome {
    Failure(String),
    NoResponse,
    Response(HttpResponse),
}

/// Mathematical image of a transfer outcome.
pub ghost enum OutcomeModel {
    Failure(Seq<char>),
    NoResponse,
    Response(ResponseModel),
}

impl View for HttpOutcome {
    type V = OutcomeModel;

    open spec fn view(&self) -> OutcomeModel {
        match self {
            HttpOutcome::Failure(message) => OutcomeModel::Failure(message@),
            HttpOutcome::NoResponse => OutcomeModel::NoResponse,
            HttpOutcome::Response(response) => OutcomeModel::Response(response@),
        }
    }
}

/// The host-supplied HTTP capability: performs one GET transfer per call.
///
/// `response_to` names the outcome the capability yields for a request, so
/// that a caller's contract can speak of the result of `get`; nothing else
/// is assumed of it.
pub trait HttpCapability {
    /// The outcome this capability yields for the given request.
    spec fn response_to(&self, request: RequestModel) -> OutcomeModel;

    /// Perform one GET transfer for the given descriptor.
    fn get(&mut self, request: HttpRequest) -> (r: HttpOutcome)
        ensures
            r@ == old(self).response_to(request@),
    ;
}

/// A copy of an optional string, equal to the original.
fn clone_opt_string(o: &Option<String>) -> (r: Option<String>)
    ensures
        r == *o,
{
    match o {
        Some(s) => Some(s.clone()),
        None => None,
    }
}

/// A copy of an outcome, equal to the original.
fn clone_outcome(o: &HttpOutcome) -> (r: HttpOutcome)
    ensures
        r == *o,
{
    match o {
        HttpOutcome::Failure(message) => HttpOutcome::Failure(message.clone()),
        HttpOutcome::NoResponse => HttpOutcome::NoResponse,
        HttpOutcome::Response(response) => HttpOutcome::Response(
            HttpResponse { body: clone_opt_string(&response.body) },
        ),
    }
}

/// The model of an optional request descriptor.
pub open spec fn opt_request_view(o: Option<HttpRequest>) -> Option<RequestModel> {
    match o {
        Some(request) => Some(request@),
        None => None,
    }
}

/// A capability that stands in for the host: it replies to every request
/// with one fixed outcome and keeps the descriptor it received last.
pub struct ScriptedCapability {
    outcome: HttpOutcome,
    last_request: Option<HttpRequest>,
}

impl ScriptedCapability {
    /// The outcome this capability replies with.
    pub closed spec fn scripted(&self) -> OutcomeModel {
        self.outcome@
    }

    /// The model of the descriptor most recently handed to `get`.
    pub closed spec fn recorded(&self) -> Option<RequestModel> {
        opt_request_view(self.last_request)
    }

    /// A capability that replies with `outcome` on every call.
    pub fn new(outcome: HttpOutcome) -> (r: ScriptedCapability)
        ensures
            r.scripted() == outcome@,
            r.recorded() is None,
    {
        ScriptedCapability { outcome, last_request: None }
    }

    /// The descriptor most recently handed to `get`, if any.
    pub fn last_request(&self) -> (r: &Option<HttpRequest>)
        ensures
            opt_request_view(*r) == self.recorded(),
    {
        &self.last_request
    }
}

/// A scripted capability replies to every request alike: what it yields for
/// any request is its one scripted outcome.
pub proof fn lemma_scripted_response(cap: &ScriptedCapability, request: RequestModel)
    ensures
        cap.response_to(request) == cap.scripted(),
{
}

impl HttpCapability for ScriptedCapability {
    closed spec fn response_to(&self, request: RequestModel) -> OutcomeModel {
        self.outcome@
    }

    fn get(&mut self, request: HttpRequest) -> (r: HttpOutcome)
        ensures
            final(self).scripted() == old(self).scripted(),
            final(self).recorded() == Some(request@),
    {
        let r = clone_outcome(&self.outcome);
        self.last_request = Some(request);
        r
    }
}

} // verus!
