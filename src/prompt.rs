//! The fixed instructions sent to the model, with the values that fill them.
use vstd::prelude::*;

verus! {

/// The system instruction up to the operating system's name.
pub const SYSTEM_PROMPT_HEAD: &'static str = "
You are a friendly command-line interface expert that can both convert natural language into shell commands and engage in regular conversation.

CONTEXT:
- Operating System: ";

/// The system instruction after the operating system's name.
pub const SYSTEM_PROMPT_TAIL: &'static str = "

BEHAVIOR:
1. If the request requires a command execution, provide the command response
2. If it's a regular question or conversation, provide a helpful response
3. Keep conversational responses concise and friendly

COMMAND REQUIREMENTS:
1. Convert the natural language request into an appropriate shell command
2. Use OS-specific syntax and commands
3. Ensure command is executable and complete
4. Return only raw JSON response without any markdown formatting
";

/// The explanation request up to the failed command.
pub const EXPLANATION_HEAD: &'static str = "
The following command failed:
";

/// The explanation request between the command and the error message.
pub const EXPLANATION_MIDDLE: &'static str = "
with this error message:
";

/// The explanation request after the error message.
pub const EXPLANATION_TAIL: &'static str = "
Briefly explain the cause of the failure and suggest one or two concise solutions. Do not use markdown formatting or code blocks. Keep your explanation and suggestions short and clear.
";

/// The system instruction for a host whose platform is named `os`.
pub fn system_instruction(os: &str) -> (r: String)
    ensures
        r@ == SYSTEM_PROMPT_HEAD@ + os@ + SYSTEM_PROMPT_TAIL@,
{
    String::from_str(SYSTEM_PROMPT_HEAD).concat(os).concat(SYSTEM_PROMPT_TAIL)
}

/// The request for an explanation of why `command` failed with `error`.
pub fn explanation_request(command: &str, error: &str) -> (r: String)
    ensures
        r@ == EXPLANATION_HEAD@ + command@ + EXPLANATION_MIDDLE@ + error@ + EXPLANATION_TAIL@,
{
    String::from_str(EXPLANATION_HEAD).concat(command).concat(EXPLANATION_MIDDLE).concat(
        error,
    ).concat(EXPLANATION_TAIL)
}

} // verus!
