//! A tool that runs a command through the command interpreter and hands
//! back what it printed.
use vstd::prelude::*;
use vstd::string::StringExecFns;
use vstd::utf8::{decode_utf8, valid_utf8};

use crate::definition::{string_property, DefinitionView, ParameterProperty, ParameterSchema, SchemaView, ToolDefinition};

verus! {

/// The shell tool. It holds no state. The command runs with the rights of
/// the calling process, with no time limit and no confinement.
#[derive(Debug, Clone, Copy, PartialEq, Eq)]
pub struct ShellTool;

#[derive(Debug, Clone, PartialEq, Eq)]
pub struct ShellArgs {
    pub command: String,
}

#[derive(Debug, Clone, PartialEq, Eq)]
pub enum ShellError {
    /// The command could not be started, or it exited with a failure.
    ExecutionError(String),
}

/// A program and the arguments to start it with.
#[derive(Debug, Clone, PartialEq, Eq)]
pub struct CommandLine {
    pub program: String,
    pub args: Vec<String>,
}

/// What a finished command left behind.
#[derive(Debug, Clone, PartialEq, Eq)]
pub struct CommandOutput {
    /// The command exited with status zero.
    pub success: bool,
    pub stdout: Vec<u8>,
    pub stderr: Vec<u8>,
}

/// What `String::from_utf8_lossy` makes of a byte sequence.
pub uninterp spec fn lossy_of(b: Seq<u8>) -> Seq<char>;

/// Relies on `String::from_utf8_lossy`: the bytes decoded as UTF-8, each
/// invalid sequence replaced; valid UTF-8 comes back unchanged.
#[verifier::external_body]
fn decode_lossy(b: &Vec<u8>) -> (r: String)
    ensures
        r@ == lossy_of(b@),
        valid_utf8(b@) ==> r@ == decode_utf8(b@),
{
    String::from_utf8_lossy(b.as_slice()).into_owned()
}

/// The result for a command that ran: its output on success, else its
/// error output as an `ExecutionError`.
pub open spec fn ran(success: bool, stdout: Seq<char>, stderr: Seq<char>, r: Result<String, ShellError>) -> bool {
    if success {
        r matches Ok(t) && t@ == stdout
    } else {
        r matches Err(ShellError::ExecutionError(m)) && m@ == stderr
    }
}

impl ShellError {
    pub open spec fn spec_message(&self) -> Seq<char> {
        match self {
            ShellError::ExecutionError(m) => m@,
        }
    }

    /// The name of the error kind.
    pub fn kind(&self) -> (r: String)
        ensures
            r@ == "ExecutionError"@,
    {
        String::from_str("ExecutionError")
    }

    /// The message the error carries.
    pub fn message(&self) -> (r: String)
        ensures
            r@ == self.spec_message(),
    {
        match self {
            ShellError::ExecutionError(m) => m.clone(),
        }
    }

    /// The error as shown to a reader.
    pub fn to_string(&self) -> (r: String)
        ensures
            r@ == "Failed to execute command: "@ + self.spec_message(),
    {
        let mut s = String::from_str("Failed to execute command: ");
        match self {
            ShellError::ExecutionError(m) => s.append(m.as_str()),
        }
        s
    }
}

impl ShellTool {
    pub open spec fn spec_definition() -> DefinitionView {
        DefinitionView {
            name: "shell_tool"@,
            description: "Executes a shell command and returns the output."@,
            parameters: SchemaView {
                properties: seq![string_property("command"@, "The shell command to execute"@)],
                required: seq!["command"@],
            },
        }
    }

    /// The declaration of the tool. The prompt is not used.
    pub fn definition(&self, _prompt: &str) -> (r: ToolDefinition)
        ensures
            r@ == Self::spec_definition(),
            r@.parameters.required_declared(),
    {
        let properties = vec![ParameterProperty::string("command", "The shell command to execute")];
        let required = vec![String::from_str("command")];
        let r = ToolDefinition {
            name: String::from_str("shell_tool"),
            description: String::from_str("Executes a shell command and returns the output."),
            parameters: ParameterSchema { properties, required },
        };
        assert(r@.parameters.properties =~= Self::spec_definition().parameters.properties);
        assert(r@.parameters.required =~= Self::spec_definition().parameters.required);
        assert(r@.parameters.declares(r@.parameters.properties[0].name));
        r
    }

    /// The interpreter to start for `args`: PowerShell, given the command
    /// verbatim as the argument of `-Command`.
    pub fn command_line(&self, args: &ShellArgs) -> (r: CommandLine)
        ensures
            r.program@ == "powershell"@,
            r.args@.map_values(|a: String| a@) == seq!["-Command"@, args.command@],
    {
        let r = CommandLine {
            program: String::from_str("powershell"),
            args: vec![String::from_str("-Command"), args.command.clone()],
        };
        assert(r.args@.map_values(|a: String| a@) =~= seq!["-Command"@, args.command@]);
        r
    }

    /// The tool's result for a command that ran, from its exit status and
    /// its decoded output and error output.
    pub fn finish_text(success: bool, stdout: String, stderr: String) -> (r: Result<String, ShellError>)
        ensures
            ran(success, stdout@, stderr@, r),
    {
        if success {
            Ok(stdout)
        } else {
            Err(ShellError::ExecutionError(stderr))
        }
    }

    /// The tool's result once the command was started or failed to start:
    /// a start failure is an `ExecutionError` with the system's message;
    /// otherwise the output or error output, decoded lossily.
    pub fn finish(&self, output: Result<CommandOutput, String>) -> (r: Result<String, ShellError>)
        ensures
            match output {
                Ok(o) => ran(o.success, lossy_of(o.stdout@), lossy_of(o.stderr@), r),
                Err(e) => r matches Err(ShellError::ExecutionError(m)) && m@ == e@,
            },
    {
        match output {
            Ok(o) => {
                if o.success {
                    Self::finish_text(true, decode_lossy(&o.stdout), String::new())
                } else {
                    Self::finish_text(false, String::new(), decode_lossy(&o.stderr))
                }
            },
            Err(e) => Err(ShellError::ExecutionError(e)),
        }
    }
}

/// A command that ran with the same status and output gives the same
/// result each time.
pub proof fn lemma_ran_deterministic(
    success: bool,
    stdout: Seq<char>,
    stderr: Seq<char>,
    first: Result<String, ShellError>,
    second: Result<String, ShellError>,
)
    requires
        ran(success, stdout, stderr, first),
        ran(success, stdout, stderr, second),
    ensures
        match (first, second) {
            (Ok(a), Ok(b)) => a@ == b@,
            (Err(a), Err(b)) => a.spec_message() == b.spec_message(),
            _ => false,
        },
{
}

} // verus!
