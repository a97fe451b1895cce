//! The declaration a tool shows to the model: its name, its purpose and
//! an object schema of its parameters.
use vstd::prelude::*;

verus! {

/// One named parameter of an object schema.
#[derive(Debug, Clone, PartialEq, Eq)]
pub struct ParameterProperty {
    pub name: String,
    /// The JSON type of the parameter, such as `string`.
    pub kind: String,
    pub description: String,
    /// The value the tool uses when the parameter is left out.
    pub default: Option<String>,
}

/// The parameters a tool accepts, as a JSON object schema.
#[derive(Debug, Clone, PartialEq, Eq)]
pub struct ParameterSchema {
    pub properties: Vec<ParameterProperty>,
    pub required: Vec<String>,
}

/// What a tool declares about itself to the model.
#[derive(Debug, Clone, PartialEq, Eq)]
pub struct ToolDefinition {
    pub name: String,
    pub description: String,
    pub parameters: ParameterSchema,
}

pub ghost struct PropertyView {
    pub name: Seq<char>,
    pub kind: Seq<char>,
    pub description: Seq<char>,
    pub default: Option<Seq<char>>,
}

pub ghost struct SchemaView {
    pub properties: Seq<PropertyView>,
    pub required: Seq<Seq<char>>,
}

pub ghost struct DefinitionView {
    pub name: Seq<char>,
    pub description: Seq<char>,
    pub parameters: SchemaView,
}

pub open spec fn default_view(d: Option<String>) -> Option<Seq<char>> {
    match d {
        Some(s) => Some(s@),
        None => None,
    }
}

impl View for ParameterProperty {
    type V = PropertyView;

    open spec fn view(&self) -> PropertyView {
        PropertyView {
            name: self.name@,
            kind: self.kind@,
            description: self.description@,
            default: default_view(self.default),
        }
    }
}

impl View for ParameterSchema {
    type V = SchemaView;

    open spec fn view(&self) -> SchemaView {
        SchemaView {
            properties: self.properties@.map_values(|p: ParameterProperty| p@),
            required: self.required@.map_values(|s: String| s@),
        }
    }
}

impl View for ToolDefinition {
    type V = DefinitionView;

    open spec fn view(&self) -> DefinitionView {
        DefinitionView {
            name: self.name@,
            description: self.description@,
            parameters: self.parameters@,
        }
    }
}

/// A string parameter with no default.
pub open spec fn string_property(name: Seq<char>, description: Seq<char>) -> PropertyView {
    PropertyView { name, kind: "string"@, description, default: None }
}

impl SchemaView {
    /// The schema declares a property of this name.
    pub open spec fn declares(self, name: Seq<char>) -> bool {
        exists|j: int| 0 <= j < self.properties.len() && #[trigger] self.properties[j].name == name
    }

    /// Every required name is one of the declared properties.
    pub open spec fn required_declared(self) -> bool {
        forall|i: int| 0 <= i < self.required.len() ==> self.declares(#[trigger] self.required[i])
    }
}

impl ParameterProperty {
    pub fn string(name: &str, description: &str) -> (r: ParameterProperty)
        ensures
            r@ == string_property(name@, description@),
    {
        ParameterProperty {
            name: String::from_str(name),
            kind: String::from_str("string"),
            description: String::from_str(description),
            default: None,
        }
    }
}

} // verus!
