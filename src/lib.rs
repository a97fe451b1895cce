//! Tools that an agent loop can describe to a language model and invoke:
//! a shell tool, a REST tool, a link-to-markdown tool and a web search tool.
//! Each tool declares its parameters as a schema and turns what the outside
//! world hands back into a typed result.
use vstd::prelude::*;

pub mod agent;
pub mod definition;
pub mod link_to_markdown;
pub mod rest_api;
pub mod shell_tool;
pub mod toolset;
pub mod urdu_poem;
pub mod web_search;

pub use agent::{preamble, ModelProvider, MAX_TOKENS, MAX_TURNS};
pub use definition::{ParameterProperty, ParameterSchema, ToolDefinition};
pub use link_to_markdown::{LinkToMarkdown, LinkToMarkdownArgs, LinkToMarkdownError};
pub use rest_api::{HttpMethod, RestApiArgs, RestApiError, RestApiTool, RestRequest};
pub use shell_tool::{CommandLine, CommandOutput, ShellArgs, ShellError, ShellTool};
pub use toolset::ToolKind;
pub use urdu_poem::{UrduPoemArgs, UrduPoemError, UrduPoemTool};
pub use web_search::{MissingApiKey, SearchError, WebResult, WebSearch, WebSearchArgs, WebSearchResponse};
