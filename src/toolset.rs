//! The fixed set of tools an agent is given, and the lookup of a tool by
//! the name the model calls it by.
use vstd::prelude::*;
use vstd::string::StringExecFns;

use crate::definition::{DefinitionView, ToolDefinition};
use crate::link_to_markdown::LinkToMarkdown;
use crate::rest_api::RestApiTool;
use crate::shell_tool::ShellTool;
use crate::web_search::WebSearch;

verus! {

/// One of the tools an agent is given.
#[derive(Debug, Clone, Copy, PartialEq, Eq, Structural)]
pub enum ToolKind {
    RestApi,
    WebSearch,
    Shell,
    LinkToMarkdown,
}

/// The tool that answers to `name`.
pub open spec fn tool_named(name: Seq<char>) -> Option<ToolKind> {
    if name == "rest_api"@ {
        Some(ToolKind::RestApi)
    } else if name == "web_search"@ {
        Some(ToolKind::WebSearch)
    } else if name == "shell_tool"@ {
        Some(ToolKind::Shell)
    } else if name == "link_to_markdown"@ {
        Some(ToolKind::LinkToMarkdown)
    } else {
        None
    }
}

impl ToolKind {
    pub open spec fn spec_definition(self) -> DefinitionView {
        match self {
            ToolKind::RestApi => RestApiTool::spec_definition(),
            ToolKind::WebSearch => WebSearch::spec_definition(),
            ToolKind::Shell => ShellTool::spec_definition(),
            ToolKind::LinkToMarkdown => LinkToMarkdown::spec_definition(),
        }
    }

    /// All the tools, in the order they are given to an agent.
    pub fn all() -> (r: Vec<ToolKind>)
        ensures
            r@ == seq![ToolKind::RestApi, ToolKind::WebSearch, ToolKind::Shell, ToolKind::LinkToMarkdown],
    {
        let r = vec![ToolKind::RestApi, ToolKind::WebSearch, ToolKind::Shell, ToolKind::LinkToMarkdown];
        assert(r@ =~= seq![ToolKind::RestApi, ToolKind::WebSearch, ToolKind::Shell, ToolKind::LinkToMarkdown]);
        r
    }

    /// The declaration of the tool. It does not depend on the prompt.
    pub fn definition(&self, prompt: &str) -> (r: ToolDefinition)
        ensures
            r@ == self.spec_definition(),
    {
        match self {
            ToolKind::RestApi => RestApiTool.definition(prompt),
            ToolKind::WebSearch => WebSearch.definition(prompt),
            ToolKind::Shell => ShellTool.definition(prompt),
            ToolKind::LinkToMarkdown => LinkToMarkdown.definition(prompt),
        }
    }

    /// The tool that answers to `name`, if any.
    pub fn from_name(name: &str) -> (r: Option<ToolKind>)
        ensures
            r == tool_named(name@),
    {
        let name = String::from_str(name);
        if name == String::from_str("rest_api") {
            Some(ToolKind::RestApi)
        } else if name == String::from_str("web_search") {
            Some(ToolKind::WebSearch)
        } else if name == String::from_str("shell_tool") {
            Some(ToolKind::Shell)
        } else if name == String::from_str("link_to_markdown") {
            Some(ToolKind::LinkToMarkdown)
        } else {
            None
        }
    }
}

/// Each tool's schema requires only parameters it declares.
pub proof fn lemma_required_declared(t: ToolKind)
    ensures
        t.spec_definition().parameters.required_declared(),
{
    let p = t.spec_definition().parameters;
    assert(p.declares(p.properties[0].name));
}

/// A tool is found again by the name it declares, so no two tools share
/// a name.
pub proof fn lemma_name_finds_tool(t: ToolKind)
    ensures
        tool_named(t.spec_definition().name) == Some(t),
{
    reveal_strlit("rest_api");
    reveal_strlit("web_search");
    reveal_strlit("shell_tool");
    reveal_strlit("link_to_markdown");
    // The four names start with four different letters.
    assert("rest_api"@[0] == 'r');
    assert("web_search"@[0] == 'w');
    assert("shell_tool"@[0] == 's');
    assert("link_to_markdown"@[0] == 'l');
}

/// Two calls to describe a tool, with any prompts, give the same
/// declaration.
pub proof fn lemma_definition_stable(t: ToolKind, first: ToolDefinition, second: ToolDefinition)
    requires
        first@ == t.spec_definition(),
        second@ == t.spec_definition(),
    ensures
        first@ == second@,
{
}

} // verus!
