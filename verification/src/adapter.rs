//! The request adapter: merge the caller's query parameters with the
//! configured API key, build a GET descriptor against the configured base
//! URL, hand it to the HTTP capability, and unwrap the textual body.

use vstd::prelude::*;
use crate::http::{
    HttpCapability, HttpOutcome, HttpRequest, OutcomeModel, RequestModel, ResponseType,
    opt_params_view,
};
use crate::params::QueryParams;

verus! {

/// Process-wide configuration: the URL prefix and the credential carried by
/// every outbound request.
pub struct Config {
    pub api_base_url: String,
    pub api_key: String,
}

/// Mathematical image of the configuration.
pub ghost struct ConfigModel {
    pub api_base_url: Seq<char>,
    pub api_key: Seq<char>,
}

impl View for Config {
    type V = ConfigModel;

    open spec fn view(&self) -> ConfigModel {
        ConfigModel { api_base_url: self.api_base_url@, api_key: self.api_key@ }
    }
}

/// Why a fetch aborted; each variant is terminal for the call.
#[derive(Clone, Copy, PartialEq, Eq, Structural, Debug)]
pub enum FetchError {
    /// The transfer attempt itself failed.
    TransportError,
    /// The capability succeeded but returned no response at all.
    EmptyResponse,
    /// A response arrived but its body was not populated.
    EmptyBody,
}

impl FetchError {
    /// The message identifying which condition aborted the call.
    pub fn message(&self) -> (r: String)
        ensures
            *self == FetchError::TransportError ==> r@ == "Received an error as HTTP Response"@,
            *self == FetchError::EmptyResponse ==> r@ == "Received an empty HTTP Response"@,
            *self == FetchError::EmptyBody ==> r@ == "Received an empty body as HTTP Response"@,
    {
        match self {
            FetchError::TransportError => String::from_str("Received an error as HTTP Response"),
            FetchError::EmptyResponse => String::from_str("Received an empty HTTP Response"),
            FetchError::EmptyBody => String::from_str("Received an empty body as HTTP Response"),
        }
    }
}

/// The parameter mapping sent downstream: the caller's entries (empty when
/// the caller supplied none) with the configured key bound under "apiKey",
/// overwriting any entry of the caller's under that key.
pub open spec fn merged_params(
    params: Option<Map<Seq<char>, Seq<char>>>,
    api_key: Seq<char>,
) -> Map<Seq<char>, Seq<char>> {
    (match params {
        Some(m) => m,
        None => Map::empty(),
    }).insert("apiKey"@, api_key)
}

/// The descriptor handed to the capability: the base URL with `url`
/// appended as-is, no headers, the merged parameters, a textual response
/// requested, and no request body.
pub open spec fn request_for(
    config: ConfigModel,
    url: Seq<char>,
    params: Option<Map<Seq<char>, Seq<char>>>,
) -> RequestModel {
    RequestModel {
        url: config.api_base_url + url,
        headers: None,
        url_params: Some(merged_params(params, config.api_key)),
        response_type: ResponseType::Text,
        body: None,
    }
}

/// What the adapter yields for each capability outcome: the body as-is when
/// one is present, and otherwise the error naming the first condition that
/// failed.
pub open spec fn body_of(outcome: OutcomeModel) -> Result<Seq<char>, FetchError> {
    match outcome {
        OutcomeModel::Failure(_) => Err(FetchError::TransportError),
        OutcomeModel::NoResponse => Err(FetchError::EmptyResponse),
        OutcomeModel::Response(response) => match response.body {
            Some(body) => Ok(body),
            None => Err(FetchError::EmptyBody),
        },
    }
}

/// Whether an optional parameter collection is well-formed.
pub open spec fn opt_params_wf(params: Option<QueryParams>) -> bool {
    match params {
        Some(q) => q.wf(),
        None => true,
    }
}

/// The caller's parameters, or a fresh empty collection, with the API key
/// bound under "apiKey".
pub fn merge_params(params: Option<QueryParams>, api_key: &str) -> (r: QueryParams)
    requires
        opt_params_wf(params),
    ensures
        r@ == merged_params(opt_params_view(params), api_key@),
        r.wf(),
{
    let mut merged = match params {
        Some(q) => q,
        None => QueryParams::new(),
    };
    merged.insert(String::from_str("apiKey"), String::from_str(api_key));
    merged
}

/// The full request descriptor for `url` and `params` under `config`.
pub fn build_request(config: &Config, url: &str, params: Option<QueryParams>) -> (r: HttpRequest)
    requires
        opt_params_wf(params),
    ensures
        r@ == request_for(config@, url@, opt_params_view(params)),
{
    let full_url = config.api_base_url.clone().concat(url);
    let merged = merge_params(params, config.api_key.as_str());
    HttpRequest {
        url: full_url,
        headers: None,
        url_params: Some(merged),
        response_type: ResponseType::Text,
        body: None,
    }
}

/// The body of an outcome, or the error naming the first condition that
/// failed: a transport failure, an absent response, or an absent body.
pub fn extract_body(outcome: HttpOutcome) -> (r: Result<String, FetchError>)
    ensures
        match body_of(outcome@) {
            Ok(body) => r matches Ok(s) && s@ == body,
            Err(e) => r == Err::<String, FetchError>(e),
        },
{
    match outcome {
        HttpOutcome::Failure(_) => Err(FetchError::TransportError),
        HttpOutcome::NoResponse => Err(FetchError::EmptyResponse),
        HttpOutcome::Response(response) => match response.body {
            Some(body) => Ok(body),
            None => Err(FetchError::EmptyBody),
        },
    }
}

/// Issue one GET for `url` under the configured base URL, with the caller's
/// parameters plus the configured API key, and unwrap the textual body.
///
/// The result is exactly what `body_of` yields for the outcome the
/// capability gave the built descriptor: the body string unchanged on
/// success, and otherwise the error naming the first failed condition.
pub fn http_get<C: HttpCapability>(
    capability: &mut C,
    config: &Config,
    url: &str,
    params: Option<QueryParams>,
) -> (r: Result<String, FetchError>)
    requires
        opt_params_wf(params),
    ensures
        ({
            let outcome = old(capability).response_to(
                request_for(config@, url@, opt_params_view(params)),
            );
            match body_of(outcome) {
                Ok(body) => r matches Ok(s) && s@ == body,
                Err(e) => r == Err::<String, FetchError>(e),
            }
        }),
{
    let request = build_request(config, url, params);
    let outcome = capability.get(request);
    extract_body(outcome)
}

/// For every caller-supplied parameter mapping (present or absent, with or
/// without its own "apiKey" entry), the mapping inside the descriptor handed
/// to the capability binds "apiKey" to the configured key, and keeps every
/// other entry of the caller's unchanged.
pub proof fn lemma_api_key_injected(
    config: ConfigModel,
    url: Seq<char>,
    params: Option<Map<Seq<char>, Seq<char>>>,
)
    ensures
        request_for(config, url, params).url_params matches Some(m) && {
            &&& m.contains_key("apiKey"@)
            &&& m["apiKey"@] == config.api_key
            &&& (params matches Some(p) ==> forall|k: Seq<char>|
                p.contains_key(k) && k != "apiKey"@
                    ==> #[trigger] m.contains_key(k) && m[k] == p[k])
        },
{
}

/// When the caller supplies no parameters, the mapping sent downstream
/// holds exactly one entry: "apiKey" bound to the configured key.
pub proof fn lemma_absent_params_single_entry(config: ConfigModel, url: Seq<char>)
    ensures
        request_for(config, url, None).url_params matches Some(m) && {
            &&& m.dom() == set!["apiKey"@]
            &&& m.dom().len() == 1
            &&& m["apiKey"@] == config.api_key
        },
{
    let m = merged_params(None, config.api_key);
    assert(m.dom() =~= set!["apiKey"@]);
    assert(set!["apiKey"@].len() == 1);
}

} // verus!
