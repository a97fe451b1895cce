//! A tool that writes a short Urdu poem on a topic.
use vstd::prelude::*;
use vstd::string::StringExecFns;

use crate::definition::{string_property, DefinitionView, ParameterProperty, ParameterSchema, SchemaView, ToolDefinition};

verus! {

/// The poem tool. It holds no state.
#[derive(Debug, Clone, Copy, PartialEq, Eq)]
pub struct UrduPoemTool;

#[derive(Debug, Clone, PartialEq, Eq)]
pub struct UrduPoemArgs {
    pub topic: String,
}

#[derive(Debug, Clone, PartialEq, Eq)]
pub enum UrduPoemError {
    /// The poem could not be written.
    GenerationError(String),
}

/// The first line: the poem was written by an automatic system.
pub const OPENING: &'static str = "یہ نظم ایک خودکار نظام نے لکھی ہے";

/// What stands before the topic on the second line.
pub const TOPIC_LABEL: &'static str = "موضوع: ";

pub const VERSE_ONE: &'static str = "خوابوں کی وادی میں چلتے ہیں ہم";

pub const VERSE_TWO: &'static str = "محبت کی خوشبو میں پلتے ہیں ہم";

pub const VERSE_THREE: &'static str = "زندگی کے رنگوں میں ڈھلتے ہیں ہم";

/// The poem on `topic`: five lines, the topic on the second.
pub open spec fn poem_of(topic: Seq<char>) -> Seq<char> {
    OPENING@ + "\n"@ + TOPIC_LABEL@ + topic + "\n"@ + VERSE_ONE@ + "\n"@ + VERSE_TWO@ + "\n"@
        + VERSE_THREE@
}

impl UrduPoemError {
    pub open spec fn spec_message(&self) -> Seq<char> {
        match self {
            UrduPoemError::GenerationError(m) => m@,
        }
    }

    /// The name of the error kind.
    pub fn kind(&self) -> (r: String)
        ensures
            r@ == "GenerationError"@,
    {
        String::from_str("GenerationError")
    }

    /// The error as shown to a reader.
    pub fn to_string(&self) -> (r: String)
        ensures
            r@ == "Failed to generate poem: "@ + self.spec_message(),
    {
        let mut s = String::from_str("Failed to generate poem: ");
        match self {
            UrduPoemError::GenerationError(m) => s.append(m.as_str()),
        }
        s
    }
}

impl UrduPoemTool {
    pub open spec fn spec_definition() -> DefinitionView {
        DefinitionView {
            name: "urdu_poem"@,
            description: "Generates an Urdu poem on a given topic."@,
            parameters: SchemaView {
                properties: seq![string_property("topic"@, "The topic for the Urdu poem"@)],
                required: seq!["topic"@],
            },
        }
    }

    /// The declaration of the tool. The prompt is not used.
    pub fn definition(&self, _prompt: &str) -> (r: ToolDefinition)
        ensures
            r@ == Self::spec_definition(),
            r@.parameters.required_declared(),
    {
        let properties = vec![ParameterProperty::string("topic", "The topic for the Urdu poem")];
        let required = vec![String::from_str("topic")];
        let r = ToolDefinition {
            name: String::from_str("urdu_poem"),
            description: String::from_str("Generates an Urdu poem on a given topic."),
            parameters: ParameterSchema { properties, required },
        };
        assert(r@.parameters.properties =~= Self::spec_definition().parameters.properties);
        assert(r@.parameters.required =~= Self::spec_definition().parameters.required);
        assert(r@.parameters.declares(r@.parameters.properties[0].name));
        r
    }

    /// The poem on the topic of `args`. It never fails.
    pub fn call(&self, args: &UrduPoemArgs) -> (r: Result<String, UrduPoemError>)
        ensures
            r matches Ok(t) && t@ == poem_of(args.topic@),
    {
        let mut poem = String::from_str(OPENING);
        poem.append("\n");
        poem.append(TOPIC_LABEL);
        poem.append(args.topic.as_str());
        poem.append("\n");
        poem.append(VERSE_ONE);
        poem.append("\n");
        poem.append(VERSE_TWO);
        poem.append("\n");
        poem.append(VERSE_THREE);
        Ok(poem)
    }
}

} // verus!
