//! What the agent is set up with: the model provider, its instructions and
//! its limits.
use vstd::prelude::*;
use vstd::string::StringExecFns;

verus! {

/// The providers an agent can run on.
#[derive(Debug, Clone, Copy, PartialEq, Eq, Structural)]
pub enum ModelProvider {
    Anthropic,
    Gemini,
}

/// The most tokens a model may answer with in one completion.
pub const MAX_TOKENS: u64 = 1024;

/// The most prompt and tool-call exchanges in one run of the agent.
pub const MAX_TURNS: usize = 20;

/// The instructions given to the model, up to today's date.
pub const PREAMBLE_HEAD: &'static str = "\n            # Goal:\n            You are an assistant here to help the user select which tool is most appropriate to perform the task specified by the user.\n            Follow these instructions closely.\n            1. Consider the user's request carefully and identify the core elements of the request.\n            2. Select which tool among those made available to you is appropriate given the context.\n            3. This is very important: never perform the operation yourself.\n            \n            # Context: \n            Todays date is: ";

/// The provider a command-line name stands for.
pub open spec fn provider_named(name: Seq<char>) -> Option<ModelProvider> {
    if name == "anthropic"@ {
        Some(ModelProvider::Anthropic)
    } else if name == "gemini"@ {
        Some(ModelProvider::Gemini)
    } else {
        None
    }
}

impl ModelProvider {
    /// The provider named `anthropic` or `gemini`; `None` for any other name.
    pub fn from_name(name: &str) -> (r: Option<ModelProvider>)
        ensures
            r == provider_named(name@),
    {
        let name = String::from_str(name);
        if name == String::from_str("anthropic") {
            Some(ModelProvider::Anthropic)
        } else if name == String::from_str("gemini") {
            Some(ModelProvider::Gemini)
        } else {
            None
        }
    }
}

/// The instructions for the model, ending in today's date as written in
/// `todays_date`.
pub fn preamble(todays_date: &str) -> (r: String)
    ensures
        r@ == PREAMBLE_HEAD@ + todays_date@,
{
    let mut r = String::from_str(PREAMBLE_HEAD);
    r.append(todays_date);
    r
}

} // verus!
