//! A tool that searches the web and hands back the first result.
use vstd::prelude::*;
use vstd::string::StringExecFns;

use crate::definition::{string_property, DefinitionView, ParameterProperty, ParameterSchema, SchemaView, ToolDefinition};

verus! {

/// The one failure of a search: the search provider or its client failed.
#[derive(Debug, Clone, Copy, PartialEq, Eq)]
pub struct SearchError;

/// The search could not be configured: no API key was given.
#[derive(Debug, Clone, Copy, PartialEq, Eq)]
pub struct MissingApiKey;

/// The web search tool. It holds no state.
#[derive(Debug, Clone, Copy, PartialEq, Eq)]
pub struct WebSearch;

#[derive(Debug, Clone, PartialEq, Eq)]
pub struct WebSearchArgs {
    pub query: String,
}

/// One web result of a search.
#[derive(Debug, Clone, PartialEq, Eq)]
pub struct WebResult {
    pub description: String,
}

/// A search response: `web` is absent when the response has no web
/// section at all.
#[derive(Debug, Clone, PartialEq, Eq)]
pub struct WebSearchResponse {
    pub web: Option<Vec<WebResult>>,
}

/// The text the tool answers for a response.
pub open spec fn answer_of(response: WebSearchResponse) -> Seq<char> {
    match response.web {
        Some(results) => if results.len() > 0 {
            results[0].description@
        } else {
            "No results found"@
        },
        None => "No web results"@,
    }
}

/// The text an answered search hands back for `response`, and nothing else.
pub open spec fn answered(response: WebSearchResponse, r: Result<String, SearchError>) -> bool {
    r matches Ok(t) && t@ == answer_of(response)
}

/// Two searches that came back with the same response give the same text.
pub proof fn lemma_answer_deterministic(
    response: WebSearchResponse,
    first: Result<String, SearchError>,
    second: Result<String, SearchError>,
)
    requires
        answered(response, first),
        answered(response, second),
    ensures
        first matches Ok(a) && (second matches Ok(b) && a@ == b@),
{
}

impl SearchError {
    /// The name of the error kind.
    pub fn kind(&self) -> (r: String)
        ensures
            r@ == "SearchError"@,
    {
        String::from_str("SearchError")
    }

    /// The error as shown to a reader.
    pub fn to_string(&self) -> (r: String)
        ensures
            r@ == "Search error"@,
    {
        String::from_str("Search error")
    }
}

impl MissingApiKey {
    /// The error as shown to a reader.
    pub fn to_string(&self) -> (r: String)
        ensures
            r@ == "BRAVE_API_KEY not set"@,
    {
        String::from_str("BRAVE_API_KEY not set")
    }
}

impl WebSearch {
    pub open spec fn spec_definition() -> DefinitionView {
        DefinitionView {
            name: "web_search"@,
            description: "Searches the web"@,
            parameters: SchemaView {
                properties: seq![string_property("query"@, "The query to search the web"@)],
                required: seq!["query"@],
            },
        }
    }

    /// The declaration of the tool. The prompt is not used.
    pub fn definition(&self, _prompt: &str) -> (r: ToolDefinition)
        ensures
            r@ == Self::spec_definition(),
            r@.parameters.required_declared(),
    {
        let properties = vec![ParameterProperty::string("query", "The query to search the web")];
        let required = vec![String::from_str("query")];
        let r = ToolDefinition {
            name: String::from_str("web_search"),
            description: String::from_str("Searches the web"),
            parameters: ParameterSchema { properties, required },
        };
        assert(r@.parameters.properties =~= Self::spec_definition().parameters.properties);
        assert(r@.parameters.required =~= Self::spec_definition().parameters.required);
        assert(r@.parameters.declares(r@.parameters.properties[0].name));
        r
    }

    /// The API key the search runs with, or `MissingApiKey` when none is
    /// configured.
    pub fn api_key(configured: Option<String>) -> (r: Result<String, MissingApiKey>)
        ensures
            match configured {
                Some(k) => r matches Ok(t) && t@ == k@,
                None => r is Err,
            },
    {
        match configured {
            Some(k) => Ok(k),
            None => Err(MissingApiKey),
        }
    }

    /// The description of the first web result; `No results found` when the
    /// web section is empty; `No web results` when there is none.
    pub fn first_result(&self, response: &WebSearchResponse) -> (r: String)
        ensures
            r@ == answer_of(*response),
    {
        match &response.web {
            Some(results) => {
                if results.len() > 0 {
                    results[0].description.clone()
                } else {
                    String::from_str("No results found")
                }
            },
            None => String::from_str("No web results"),
        }
    }

    /// The tool's result once the search came back: the answer for the
    /// response, or `SearchError` when the search failed.
    pub fn finish(&self, response: Result<WebSearchResponse, SearchError>) -> (r: Result<String, SearchError>)
        ensures
            match response {
                Ok(resp) => answered(resp, r),
                Err(_) => r is Err,
            },
    {
        match response {
            Ok(resp) => Ok(self.first_result(&resp)),
            Err(e) => Err(e),
        }
    }
}

} // verus!
