//! A tool that fetches a page and hands it back as markdown.
use vstd::prelude::*;
use vstd::string::StringExecFns;

use crate::definition::{string_property, DefinitionView, ParameterProperty, ParameterSchema, SchemaView, ToolDefinition};

verus! {

/// The one failure of the tool: the page could not be fetched, or its body
/// could not be read as text.
#[derive(Debug, Clone, Copy, PartialEq, Eq)]
pub struct LinkToMarkdownError;

/// The link-to-markdown tool. It holds no state.
#[derive(Debug, Clone, Copy, PartialEq, Eq)]
pub struct LinkToMarkdown;

#[derive(Debug, Clone, PartialEq, Eq)]
pub struct LinkToMarkdownArgs {
    pub url: String,
}

/// What `html2md::parse_html` makes of an HTML text.
pub uninterp spec fn markdown_of(html: Seq<char>) -> Seq<char>;

/// Relies on `html2md::parse_html`: the markdown rendering of an HTML
/// text, which depends on the text alone.
#[verifier::external_body]
fn parse_html(html: &str) -> (r: String)
    ensures
        r@ == markdown_of(html@),
{
    html2md::parse_html(html)
}

impl LinkToMarkdownError {
    /// The name of the error kind.
    pub fn kind(&self) -> (r: String)
        ensures
            r@ == "FetchOrConvertError"@,
    {
        String::from_str("FetchOrConvertError")
    }

    /// The error as shown to a reader.
    pub fn to_string(&self) -> (r: String)
        ensures
            r@ == "Failed to fetch or convert link contents"@,
    {
        String::from_str("Failed to fetch or convert link contents")
    }
}

impl LinkToMarkdown {
    pub open spec fn spec_definition() -> DefinitionView {
        DefinitionView {
            name: "link_to_markdown"@,
            description: "Fetches the contents of a link for better context and converts it to markdown"@,
            parameters: SchemaView {
                properties: seq![string_property("url"@, "The URL to fetch and convert to markdown"@)],
                required: seq!["url"@],
            },
        }
    }

    /// The declaration of the tool. The prompt is not used.
    pub fn definition(&self, _prompt: &str) -> (r: ToolDefinition)
        ensures
            r@ == Self::spec_definition(),
            r@.parameters.required_declared(),
    {
        let properties = vec![ParameterProperty::string("url", "The URL to fetch and convert to markdown")];
        let required = vec![String::from_str("url")];
        let r = ToolDefinition {
            name: String::from_str("link_to_markdown"),
            description: String::from_str(
                "Fetches the contents of a link for better context and converts it to markdown",
            ),
            parameters: ParameterSchema { properties, required },
        };
        assert(r@.parameters.properties =~= Self::spec_definition().parameters.properties);
        assert(r@.parameters.required =~= Self::spec_definition().parameters.required);
        assert(r@.parameters.declares(r@.parameters.properties[0].name));
        r
    }

    /// The markdown rendering of an HTML page.
    pub fn to_markdown(&self, html: &str) -> (r: String)
        ensures
            r@ == markdown_of(html@),
    {
        parse_html(html)
    }

    /// The tool's result once the page was fetched: its body as markdown,
    /// or the one error when there is no body (`None`).
    pub fn finish(&self, page: Option<String>) -> (r: Result<String, LinkToMarkdownError>)
        ensures
            match page {
                Some(html) => r matches Ok(t) && t@ == markdown_of(html@),
                None => r is Err,
            },
    {
        match page {
            Some(html) => Ok(self.to_markdown(html.as_str())),
            None => Err(LinkToMarkdownError),
        }
    }
}

} // verus!
