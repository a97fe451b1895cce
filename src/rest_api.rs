//! A tool that calls a REST endpoint and hands back the response body.
use vstd::prelude::*;
use vstd::string::StringExecFns;

use crate::definition::{
    string_property, DefinitionView, ParameterProperty, ParameterSchema, PropertyView, SchemaView,
    ToolDefinition,
};

verus! {

/// The REST tool. It holds no state.
#[derive(Debug, Clone, Copy, PartialEq, Eq)]
pub struct RestApiTool;

/// Arguments of the REST tool. A missing method means `GET`; a missing
/// body means the empty body.
#[derive(Debug, Clone, PartialEq, Eq)]
pub struct RestApiArgs {
    pub url: String,
    pub method: Option<String>,
    pub body: Option<String>,
}

#[derive(Debug, Clone, PartialEq, Eq)]
pub enum RestApiError {
    /// The method is not supported, or the request failed on its way.
    RequestError(String),
}

/// The HTTP methods the tool can send.
#[derive(Debug, Clone, Copy, PartialEq, Eq, Structural)]
pub enum HttpMethod {
    Get,
    Post,
    Put,
    Delete,
}

/// A request ready to be sent: `payload` is present exactly for the
/// methods that carry one.
#[derive(Debug, Clone, PartialEq, Eq)]
pub struct RestRequest {
    pub method: HttpMethod,
    pub url: String,
    pub payload: Option<String>,
}

/// What `str::to_uppercase` makes of a string.
pub uninterp spec fn upper_of(s: Seq<char>) -> Seq<char>;

/// Relies on `str::to_uppercase`: the upper-case form of `s`, which depends
/// on the characters of `s` alone.
#[verifier::external_body]
fn to_upper(s: &str) -> (r: String)
    ensures
        r@ == upper_of(s@),
{
    s.to_uppercase()
}

/// The method named by an upper-case method string.
pub open spec fn method_of(m: Seq<char>) -> Option<HttpMethod> {
    if m == "GET"@ {
        Some(HttpMethod::Get)
    } else if m == "POST"@ {
        Some(HttpMethod::Post)
    } else if m == "PUT"@ {
        Some(HttpMethod::Put)
    } else if m == "DELETE"@ {
        Some(HttpMethod::Delete)
    } else {
        None
    }
}

/// The upper-case method string that the arguments ask for.
pub open spec fn requested_method(method: Option<String>) -> Seq<char> {
    match method {
        Some(m) => upper_of(m@),
        None => "GET"@,
    }
}

/// The payload sent with `m`: the body, or the empty string when none is
/// given, for `POST` and `PUT`; nothing for `GET` and `DELETE`.
pub open spec fn payload_of(m: HttpMethod, body: Option<String>) -> Option<Seq<char>> {
    match m {
        HttpMethod::Post | HttpMethod::Put => Some(
            match body {
                Some(b) => b@,
                None => Seq::empty(),
            },
        ),
        _ => None,
    }
}

pub open spec fn optional_view(s: Option<String>) -> Option<Seq<char>> {
    match s {
        Some(t) => Some(t@),
        None => None,
    }
}

pub open spec fn unsupported_message(m: Seq<char>) -> Seq<char> {
    "Unsupported method: "@ + m
}

/// The request planned for an upper-case `method`, or the error for a
/// method that is not supported.
pub open spec fn planned(
    method: Seq<char>,
    url: Seq<char>,
    body: Option<String>,
    r: Result<RestRequest, RestApiError>,
) -> bool {
    match method_of(method) {
        Some(m) => r matches Ok(q) && q.method == m && q.url@ == url && optional_view(q.payload)
            == payload_of(m, body),
        None => r matches Err(RestApiError::RequestError(e)) && e@ == unsupported_message(method),
    }
}

impl RestApiError {
    pub open spec fn spec_message(&self) -> Seq<char> {
        match self {
            RestApiError::RequestError(m) => m@,
        }
    }

    /// The name of the error kind.
    pub fn kind(&self) -> (r: String)
        ensures
            r@ == "RequestError"@,
    {
        String::from_str("RequestError")
    }

    /// The message the error carries.
    pub fn message(&self) -> (r: String)
        ensures
            r@ == self.spec_message(),
    {
        match self {
            RestApiError::RequestError(m) => m.clone(),
        }
    }

    /// The error as shown to a reader.
    pub fn to_string(&self) -> (r: String)
        ensures
            r@ == "Request failed: "@ + self.spec_message(),
    {
        let mut s = String::from_str("Request failed: ");
        match self {
            RestApiError::RequestError(m) => s.append(m.as_str()),
        }
        s
    }
}

impl HttpMethod {
    /// The method named by an upper-case method string, if it is one of
    /// the four the tool sends.
    pub fn parse(m: &str) -> (r: Option<HttpMethod>)
        ensures
            r == method_of(m@),
    {
        let m = String::from_str(m);
        if m == String::from_str("GET") {
            Some(HttpMethod::Get)
        } else if m == String::from_str("POST") {
            Some(HttpMethod::Post)
        } else if m == String::from_str("PUT") {
            Some(HttpMethod::Put)
        } else if m == String::from_str("DELETE") {
            Some(HttpMethod::Delete)
        } else {
            None
        }
    }
}

impl RestApiTool {
    pub open spec fn spec_definition() -> DefinitionView {
        DefinitionView {
            name: "rest_api"@,
            description: "Calls a RESTful endpoint using reqwest."@,
            parameters: SchemaView {
                properties: seq![
                    string_property("url"@, "The URL of the REST endpoint"@),
                    PropertyView {
                        name: "method"@,
                        kind: "string"@,
                        description: "HTTP method (GET, POST, etc.)"@,
                        default: Some("GET"@),
                    },
                    PropertyView {
                        name: "body"@,
                        kind: "string"@,
                        description: "Request body for POST/PUT"@,
                        default: Some(""@),
                    },
                ],
                required: seq!["url"@],
            },
        }
    }

    /// The declaration of the tool. The prompt is not used. Only `url` is
    /// required: `method` and `body` fall back to their defaults.
    pub fn definition(&self, _prompt: &str) -> (r: ToolDefinition)
        ensures
            r@ == Self::spec_definition(),
            r@.parameters.required_declared(),
    {
        let properties = vec![
            ParameterProperty::string("url", "The URL of the REST endpoint"),
            ParameterProperty {
                name: String::from_str("method"),
                kind: String::from_str("string"),
                description: String::from_str("HTTP method (GET, POST, etc.)"),
                default: Some(String::from_str("GET")),
            },
            ParameterProperty {
                name: String::from_str("body"),
                kind: String::from_str("string"),
                description: String::from_str("Request body for POST/PUT"),
                default: Some(String::from_str("")),
            },
        ];
        let required = vec![String::from_str("url")];
        let r = ToolDefinition {
            name: String::from_str("rest_api"),
            description: String::from_str("Calls a RESTful endpoint using reqwest."),
            parameters: ParameterSchema { properties, required },
        };
        assert(r@.parameters.properties =~= Self::spec_definition().parameters.properties);
        assert(r@.parameters.required =~= Self::spec_definition().parameters.required);
        assert(r@.parameters.declares(r@.parameters.properties[0].name));
        r
    }

    /// The request for an upper-case `method`. An unsupported method gives
    /// the error `Unsupported method: <method>` and no request.
    pub fn plan_for_method(method: String, url: String, body: Option<String>) -> (r: Result<
        RestRequest,
        RestApiError,
    >)
        ensures
            planned(method@, url@, body, r),
    {
        match HttpMethod::parse(method.as_str()) {
            Some(m) => {
                let payload = match m {
                    HttpMethod::Post | HttpMethod::Put => Some(
                        match body {
                            Some(b) => b,
                            None => String::new(),
                        },
                    ),
                    _ => None,
                };
                Ok(RestRequest { method: m, url, payload })
            },
            None => {
                let mut e = String::from_str("Unsupported method: ");
                e.append(method.as_str());
                Err(RestApiError::RequestError(e))
            },
        }
    }

    /// The request the arguments ask for: the method is upper-cased first,
    /// and a missing method means `GET`.
    pub fn plan(&self, args: RestApiArgs) -> (r: Result<RestRequest, RestApiError>)
        ensures
            planned(requested_method(args.method), args.url@, args.body, r),
    {
        let method = match &args.method {
            Some(m) => to_upper(m.as_str()),
            None => String::from_str("GET"),
        };
        Self::plan_for_method(method, args.url, args.body)
    }

    /// The tool's result once the request was sent: the response body as
    /// text whatever its status, or the transport failure as a
    /// `RequestError`.
    pub fn finish(&self, response: Result<String, String>) -> (r: Result<String, RestApiError>)
        ensures
            match response {
                Ok(text) => r matches Ok(t) && t@ == text@,
                Err(e) => r matches Err(RestApiError::RequestError(m)) && m@ == e@,
            },
    {
        match response {
            Ok(text) => Ok(text),
            Err(e) => Err(RestApiError::RequestError(e)),
        }
    }
}

/// Planning twice for the same method, URL and body gives the same
/// request, or the same error.
pub proof fn lemma_plan_deterministic(
    method: Seq<char>,
    url: Seq<char>,
    body: Option<String>,
    first: Result<RestRequest, RestApiError>,
    second: Result<RestRequest, RestApiError>,
)
    requires
        planned(method, url, body, first),
        planned(method, url, body, second),
    ensures
        match (first, second) {
            (Ok(a), Ok(b)) => a.method == b.method && a.url@ == b.url@ && optional_view(a.payload)
                == optional_view(b.payload),
            (Err(a), Err(b)) => a.spec_message() == b.spec_message(),
            _ => false,
        },
{
}

} // verus!
