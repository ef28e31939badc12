//! The shell tool: runs a command line, but only one that an allow-list admits.
//!
//! A tool made without an allow-list refuses every command. A run goes
//! through `parse_command`, `decide`, the command's execution outside the
//! library (stopped after `COMMAND_TIMEOUT_SECS` seconds), and `command_outcome`.

use vstd::prelude::*;
use vstd::utf8::{decode_utf8, valid_utf8};
use crate::text::{concat, has_prefix, owned, starts_with};
use super::json::{field_value, json_string_fields, parse_string_fields, parsed_view, string_field};
use super::traits::{argument_is, failure, result_is, ToolArgument, ToolDefinition, ToolResult};

verus! {

/// How long a command may run before it is stopped, in seconds.
pub const COMMAND_TIMEOUT_SECS: u64 = 30;

/// What `String::from_utf8_lossy` makes of `bytes`: the text they encode, with
/// each invalid sequence shown as U+FFFD.
pub uninterp spec fn utf8_lossy(bytes: Seq<u8>) -> Seq<char>;

/// Calls `String::from_utf8_lossy`. The contract names the result
/// `utf8_lossy` of the bytes and states that valid UTF-8 (the empty sequence
/// among it) decodes exactly and that bytes give text only when there are some;
/// what replaces an invalid sequence is left unstated.
#[verifier::external_body]
fn decode_lossy(bytes: &[u8]) -> (r: String)
    ensures
        r@ == utf8_lossy(bytes@),
        valid_utf8(bytes@) ==> r@ == decode_utf8(bytes@),
        r@.len() == 0 <==> bytes@.len() == 0,
{
    String::from_utf8_lossy(bytes).into_owned()
}

/// What the shell tool does next.
#[derive(Debug, Clone)]
pub enum ShellAction {
    /// Report this result without running anything.
    Finish(ToolResult),
    /// Run this command line.
    Run(String),
}

/// How a command run ended.
#[derive(Debug, Clone)]
pub enum CommandOutcome {
    /// The command exited, successfully or not, with this output.
    Exited { success: bool, stdout: Vec<u8>, stderr: Vec<u8> },
    /// The command could not be started or waited for, for this reason.
    Failed(String),
    /// The command ran past the time limit and was stopped.
    TimedOut,
}

/// The command that parsed JSON arguments ask for, or why there is none.
pub open spec fn command_from(parsed: Result<Seq<(Seq<char>, Option<Seq<char>>)>, Seq<char>>) -> Result<Seq<char>, Seq<char>> {
    match parsed {
        Err(e) => Err("Failed to parse arguments: "@ + e),
        Ok(fields) => match field_value(fields, "command"@) {
            None => Err("Missing 'command' parameter"@),
            Some(c) => Ok(c),
        },
    }
}

/// The command that a JSON argument text asks for, or why there is none.
pub open spec fn command_of(text: Seq<char>) -> Result<Seq<char>, Seq<char>> {
    command_from(json_string_fields(text))
}

/// The command matches the one asked for, or the error matches the failure.
pub open spec fn command_matches(r: Result<String, String>, expected: Result<Seq<char>, Seq<char>>) -> bool {
    match (r, expected) {
        (Ok(c), Ok(t)) => c@ == t,
        (Err(e), Err(m)) => e@ == m,
        _ => false,
    }
}

/// The report for a command that exited, given its decoded output and error text.
pub open spec fn exit_report(r: ToolResult, success: bool, stdout: Seq<char>, stderr: Seq<char>) -> bool {
    if success {
        result_is(r, true, stdout, if stderr.len() == 0 { None } else { Some(stderr) })
    } else {
        result_is(r, false, stdout, Some(stderr))
    }
}

/// `cmd` begins with one of the allowed prefixes.
pub open spec fn admitted(allowed: Seq<String>, cmd: Seq<char>) -> bool {
    exists|i: int| 0 <= i < allowed.len() && has_prefix(cmd, #[trigger] allowed[i]@)
}

/// A shell tool with its allow-list of command prefixes.
#[derive(Debug, Clone)]
pub struct ShellTool {
    allowed_commands: Vec<String>,
}

impl Default for ShellTool {
    fn default() -> (r: Self)
        ensures
            r.allowed() == Seq::<String>::empty(),
    {
        ShellTool::new()
    }
}

impl ShellTool {
    /// The allowed command prefixes.
    pub closed spec fn allowed(&self) -> Seq<String> {
        self.allowed_commands@
    }

    /// A tool with an empty allow-list, which refuses every command.
    pub fn new() -> (r: Self)
        ensures
            r.allowed() == Seq::<String>::empty(),
    {
        ShellTool { allowed_commands: Vec::new() }
    }

    /// A tool that runs the commands beginning with one of `commands`.
    pub fn with_allowed(commands: Vec<String>) -> (r: Self)
        ensures
            r.allowed() == commands@,
    {
        ShellTool { allowed_commands: commands }
    }

    pub fn name(&self) -> (r: &'static str)
        ensures
            r@ == "shell"@,
    {
        "shell"
    }

    /// The tool's description for the model.
    pub fn definition(&self) -> (d: ToolDefinition)
        ensures
            d.name@ == "shell"@,
            d.description@ == "Execute system command"@,
            d.arguments@.len() == 1,
            argument_is(d.arguments@[0], "command"@, "string"@, true, "Command to execute"@),
    {
        let mut arguments: Vec<ToolArgument> = Vec::new();
        arguments.push(ToolArgument {
            name: owned("command"),
            arg_type: owned("string"),
            required: true,
            description: owned("Command to execute"),
        });
        ToolDefinition { name: owned("shell"), description: owned("Execute system command"), arguments }
    }

    /// Whether the allow-list admits `cmd`: some allowed prefix begins it.
    /// An empty allow-list admits nothing.
    pub fn is_command_allowed(&self, cmd: &str) -> (r: bool)
        ensures
            r == admitted(self.allowed(), cmd@),
            r <==> exists|i: int|
                0 <= i < self.allowed().len() && self.allowed()[i]@.len() <= cmd@.len()
                    && cmd@.subrange(0, self.allowed()[i]@.len() as int) == #[trigger] self.allowed()[i]@,
    {
        proof {
            law_admitted_means_prefix(self.allowed(), cmd@);
        }
        let mut i: usize = 0;
        while i < self.allowed_commands.len()
            invariant
                i <= self.allowed_commands@.len(),
                forall|j: int| 0 <= j < i ==> !has_prefix(cmd@, #[trigger] self.allowed_commands@[j]@),
            decreases self.allowed_commands@.len() - i,
        {
            if starts_with(cmd, self.allowed_commands[i].as_str()) {
                return true;
            }
            i = i + 1;
        }
        false
    }

    /// Reads the command from the JSON arguments.
    pub fn parse_command(arguments: &str) -> (r: Result<String, String>)
        ensures
            command_matches(r, command_of(arguments@)),
    {
        ShellTool::command_from_parsed(parse_string_fields(arguments))
    }

    /// Reads the command from parsed JSON arguments: their top-level string
    /// fields, or the parse error.
    pub fn command_from_parsed(parsed: Result<Vec<(String, Option<String>)>, String>) -> (r: Result<String, String>)
        ensures
            command_matches(r, command_from(parsed_view(parsed))),
    {
        let fields = match parsed {
            Ok(f) => f,
            Err(e) => {
                return Err(concat("Failed to parse arguments: ", e.as_str()));
            },
        };
        match string_field(&fields, "command") {
            Some(c) => Ok(c),
            None => Err(owned("Missing 'command' parameter")),
        }
    }

    /// Runs the command when the allow-list admits it; refuses it otherwise.
    pub fn decide(&self, command: &str) -> (r: ShellAction)
        ensures
            admitted(self.allowed(), command@) ==> (r matches ShellAction::Run(c) && c@ == command@),
            !admitted(self.allowed(), command@) ==> (r matches ShellAction::Finish(t) && result_is(
                t,
                false,
                Seq::empty(),
                Some("Command '"@ + command@ + "' not in allowlist"@),
            )),
    {
        if self.is_command_allowed(command) {
            ShellAction::Run(owned(command))
        } else {
            let mut m = concat("Command '", command);
            m.append("' not in allowlist");
            ShellAction::Finish(failure(m))
        }
    }

    /// The report for a command that exited, given its output and error
    /// decoded as text: a success carries the error text only when it is not empty.
    pub fn report_exit(&self, success: bool, stdout: String, stderr: String) -> (r: ToolResult)
        ensures
            exit_report(r, success, stdout@, stderr@),
            r.success == success,
            r.output@ == stdout@,
    {
        if success {
            let error = if stderr.as_str().unicode_len() == 0 { None } else { Some(stderr) };
            ToolResult { success: true, output: stdout, error }
        } else {
            ToolResult { success: false, output: stdout, error: Some(stderr) }
        }
    }

    /// The report for a command run that ended with `outcome`.
    pub fn command_outcome(&self, outcome: &CommandOutcome) -> (r: ToolResult)
        ensures
            match *outcome {
                CommandOutcome::Exited { success, stdout, stderr } => {
                    &&& exit_report(r, success, utf8_lossy(stdout@), utf8_lossy(stderr@))
                    &&& r.success == success
                    &&& valid_utf8(stdout@) ==> r.output@ == decode_utf8(stdout@)
                    &&& success && stderr@.len() == 0 ==> r.error is None
                },
                CommandOutcome::Failed(e) => result_is(
                    r,
                    false,
                    Seq::empty(),
                    Some("Command execution failed: "@ + e@),
                ),
                CommandOutcome::TimedOut => result_is(
                    r,
                    false,
                    Seq::empty(),
                    Some("Command timed out after 30 seconds"@),
                ),
            },
    {
        match outcome {
            CommandOutcome::Exited { success, stdout, stderr } => {
                let out = decode_lossy(stdout.as_slice());
                let err = decode_lossy(stderr.as_slice());
                proof {
                    if stderr@.len() == 0 {
                        assert(valid_utf8(stderr@));
                        assert(decode_utf8(stderr@) =~= Seq::<char>::empty());
                    }
                }
                self.report_exit(*success, out, err)
            },
            CommandOutcome::Failed(e) => failure(concat("Command execution failed: ", e.as_str())),
            CommandOutcome::TimedOut => failure(owned("Command timed out after 30 seconds")),
        }
    }
}

/// A tool with an empty allow-list refuses every command.
pub proof fn law_empty_allow_list_refuses_all(cmd: Seq<char>)
    ensures
        !admitted(Seq::<String>::empty(), cmd),
{
}

/// A command is admitted when one of the allowed prefixes begins it,
/// whatever else the allow-list holds.
pub proof fn law_admitted_by_any_prefix(allowed: Seq<String>, cmd: Seq<char>, i: int)
    requires
        0 <= i < allowed.len(),
        has_prefix(cmd, allowed[i]@),
    ensures
        admitted(allowed, cmd),
{
}

/// A command is admitted exactly when one of the allowed entries is an
/// initial segment of it, character for character.
pub proof fn law_admitted_means_prefix(allowed: Seq<String>, cmd: Seq<char>)
    ensures
        admitted(allowed, cmd) <==> exists|i: int|
            0 <= i < allowed.len() && allowed[i]@.len() <= cmd.len() && cmd.subrange(
                0,
                allowed[i]@.len() as int,
            ) == #[trigger] allowed[i]@,
{
}

/// The report of an exited command says success exactly when the command
/// exited successfully and carries its output; a failed command's report
/// carries its error text.
pub proof fn law_exit_report_follows_exit(r: ToolResult, success: bool, stdout: Seq<char>, stderr: Seq<char>)
    requires
        exit_report(r, success, stdout, stderr),
    ensures
        r.success == success,
        r.output@ == stdout,
        !success ==> (r.error matches Some(e) && e@ == stderr),
        success ==> (r.error is None <==> stderr.len() == 0),
{
}

} // verus!
