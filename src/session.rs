//! The session: configuration and conversation log owned together, and the
//! decisions of each turn. Reading input, calling the model and running
//! commands happen outside; their results come in here as plain values.
use crate::available_models::{select_model, selected_model};
use crate::context::{keep_last, Context};
use crate::text::{parse_usize, parse_usize_spec, same_text, trim, trimmed};
use crate::types::{GeminiResponse, Message, NexShConfig, ROLE_MODEL, ROLE_USER};
use crate::validator::{validate_response, validated, MalformedResponse};
use vstd::prelude::*;

verus! {

/// The text shown by the `help` command.
pub const HELP_TEXT: &'static str = "🤖 NexSh Help:
  - Type 'exit' or 'quit' to exit the shell.
  - Type any command to execute it.
  - Use 'init' to set up your API key.
  - Use 'clear' to clear conversation context.
  - Type 'models' to list and select available Gemini models interactively.";

/// Whether `new` is `old` with one turn of `role`, `content` and `timestamp`
/// appended and the oldest turns beyond `limit` dropped.
pub open spec fn appended_turn(
    old: Seq<Message>,
    new: Seq<Message>,
    limit: nat,
    role: Seq<char>,
    content: Seq<char>,
    timestamp: u64,
) -> bool {
    exists|m: Message|
        {
            &&& m.role@ == role
            &&& m.content@ == content
            &&& m.timestamp == timestamp
            &&& new == keep_last(#[trigger] old.push(m), limit)
        }
}

/// The model turn that records a proposed command.
pub open spec fn command_note(command: Seq<char>, message: Seq<char>) -> Seq<char> {
    "Command:"@ + command + ", message:"@ + message
}

/// The model turn that records a command's output.
pub open spec fn output_note(output: Seq<char>) -> Seq<char> {
    "Command output:\n"@ + output
}

/// What to do after a reply has been recorded.
#[derive(Clone, Copy, Debug, PartialEq, Eq, Structural)]
pub enum ReplyAction {
    /// The reply is conversation only: nothing to run.
    Conversation,
    /// Run the command without asking.
    Run,
    /// Pass the command through the confirmation gate first.
    Confirm,
}

/// A line typed at the prompt, once recognised.
#[derive(Clone, Copy, Debug, PartialEq, Eq, Structural)]
pub enum ShellInput {
    Empty,
    Exit,
    Clear,
    Init,
    Help,
    Models,
    Request,
}

/// How a line is recognised: by its text without surrounding whitespace.
pub open spec fn classify_spec(line: Seq<char>) -> ShellInput {
    let t = trimmed(line);
    if t.len() == 0 {
        ShellInput::Empty
    } else if t == "exit"@ || t == "quit"@ {
        ShellInput::Exit
    } else if t == "clear"@ {
        ShellInput::Clear
    } else if t == "init"@ {
        ShellInput::Init
    } else if t == "help"@ {
        ShellInput::Help
    } else if t == "models"@ {
        ShellInput::Models
    } else {
        ShellInput::Request
    }
}

pub fn classify_input(line: &str) -> (r: ShellInput)
    ensures
        r == classify_spec(line@),
{
    let t = trim(line);
    if t.unicode_len() == 0 {
        ShellInput::Empty
    } else if same_text(t, "exit") || same_text(t, "quit") {
        ShellInput::Exit
    } else if same_text(t, "clear") {
        ShellInput::Clear
    } else if same_text(t, "init") {
        ShellInput::Init
    } else if same_text(t, "help") {
        ShellInput::Help
    } else if same_text(t, "models") {
        ShellInput::Models
    } else {
        ShellInput::Request
    }
}

/// Why reading a line produced none.
#[derive(Clone, Copy, Debug, PartialEq, Eq, Structural)]
pub enum ReadFailure {
    /// The user pressed the interrupt key.
    Interrupted,
    /// The input ended.
    EndOfInput,
    /// Reading failed otherwise.
    Other,
}

/// What the loop does after a read.
#[derive(Clone, Copy, Debug, PartialEq, Eq, Structural)]
pub enum LoopAction {
    /// Nothing: prompt again.
    Idle,
    /// Print a hint on how to leave, then prompt again.
    Hint,
    /// End the session.
    Close,
    /// Empty the conversation.
    Clear,
    /// Run setup.
    Setup,
    /// Show usage.
    Help,
    /// Offer the model menu.
    ChooseModel,
    /// Send the line to the model.
    Dispatch,
}

/// The loop's decision for a read: a line by what it says; an interrupt
/// leads back to the prompt with a hint; the end of input, or a failed
/// read, ends the session.
pub open spec fn loop_action_spec(read: Result<Seq<char>, ReadFailure>) -> LoopAction {
    match read {
        Ok(line) => match classify_spec(line) {
            ShellInput::Empty => LoopAction::Idle,
            ShellInput::Exit => LoopAction::Close,
            ShellInput::Clear => LoopAction::Clear,
            ShellInput::Init => LoopAction::Setup,
            ShellInput::Help => LoopAction::Help,
            ShellInput::Models => LoopAction::ChooseModel,
            ShellInput::Request => LoopAction::Dispatch,
        },
        Err(ReadFailure::Interrupted) => LoopAction::Hint,
        Err(_) => LoopAction::Close,
    }
}

pub fn loop_action(read: Result<&str, ReadFailure>) -> (r: LoopAction)
    ensures
        r == loop_action_spec(
            match read {
                Ok(l) => Ok(l@),
                Err(f) => Err(f),
            },
        ),
{
    match read {
        Ok(line) => match classify_input(line) {
            ShellInput::Empty => LoopAction::Idle,
            ShellInput::Exit => LoopAction::Close,
            ShellInput::Clear => LoopAction::Clear,
            ShellInput::Init => LoopAction::Setup,
            ShellInput::Help => LoopAction::Help,
            ShellInput::Models => LoopAction::ChooseModel,
            ShellInput::Request => LoopAction::Dispatch,
        },
        Err(ReadFailure::Interrupted) => LoopAction::Hint,
        Err(_) => LoopAction::Close,
    }
}

/// The session ends only on `exit` or `quit`, at the end of input, or when
/// reading fails; an interrupt never ends it.
pub proof fn lemma_loop_closes_only_on_exit(read: Result<Seq<char>, ReadFailure>)
    ensures
        loop_action_spec(read) == LoopAction::Close <==> (match read {
            Ok(line) => trimmed(line) == "exit"@ || trimmed(line) == "quit"@,
            Err(f) => f != ReadFailure::Interrupted,
        }),
{
    reveal_strlit("exit");
    reveal_strlit("quit");
}

/// A size answered during setup, or the current one when the answer is not
/// a positive number.
pub open spec fn size_answer(answer: Option<Seq<char>>, current: usize) -> usize {
    match answer {
        Some(a) => match parse_usize_spec(trimmed(a)) {
            Some(n) => if n > 0 {
                n
            } else {
                current
            },
            None => current,
        },
        None => current,
    }
}

fn size_from_answer(answer: Option<&str>, current: usize) -> (r: usize)
    ensures
        r == size_answer(
            match answer {
                Some(a) => Some(a@),
                None => None,
            },
            current,
        ),
{
    match answer {
        Some(a) => match parse_usize(trim(a)) {
            Some(n) => if n > 0 {
                n
            } else {
                current
            },
            None => current,
        },
        None => current,
    }
}

/// The configuration after the setup questions: a non-blank key replaces the
/// old one, a positive numeric answer replaces a size (zero, an unreadable
/// answer, or `None` keeps it), and the model answer selects a model.
pub fn setup_config(
    current: &NexShConfig,
    key_answer: &str,
    history_answer: Option<&str>,
    max_answer: Option<&str>,
    model_answer: &str,
) -> (r: NexShConfig)
    ensures
        r.api_key@ == (if trimmed(key_answer@).len() > 0 {
            trimmed(key_answer@)
        } else {
            current.api_key@
        }),
        r.history_size == size_answer(
            match history_answer {
                Some(a) => Some(a@),
                None => None,
            },
            current.history_size,
        ),
        r.max_context_messages == size_answer(
            match max_answer {
                Some(a) => Some(a@),
                None => None,
            },
            current.max_context_messages,
        ),
        r.model matches Some(m) && m@ == selected_model(model_answer@),
        current.history_size > 0 ==> r.history_size > 0,
        current.max_context_messages > 0 ==> r.max_context_messages > 0,
{
    let key = trim(key_answer);
    let api_key = if key.unicode_len() > 0 {
        String::from_str(key)
    } else {
        current.api_key.clone()
    };
    NexShConfig {
        api_key,
        history_size: size_from_answer(history_answer, current.history_size),
        max_context_messages: size_from_answer(max_answer, current.max_context_messages),
        model: Some(String::from_str(select_model(model_answer))),
    }
}

/// The session's state: its configuration and its conversation log, whose
/// bound is the configured one.
pub struct NexSh {
    config: NexShConfig,
    context: Context,
}

impl NexSh {
    pub closed spec fn config_spec(&self) -> NexShConfig {
        self.config
    }

    pub closed spec fn turns(&self) -> Seq<Message> {
        self.context.turns_spec()
    }

    /// The log is within the configured bound.
    pub closed spec fn wf(&self) -> bool {
        &&& self.context.wf()
        &&& self.context.limit_spec() == self.config.max_context_messages
    }

    pub proof fn lemma_wf_bounds(&self)
        requires
            self.wf(),
        ensures
            self.turns().len() <= self.config_spec().max_context_messages,
    {
    }

    /// A session with `config`, holding the most recent of `turns`.
    pub fn new(config: NexShConfig, turns: Vec<Message>) -> (r: NexSh)
        ensures
            r.wf(),
            r.config_spec() == config,
            r.turns() == keep_last(turns@, config.max_context_messages as nat),
    {
        let limit = config.max_context_messages;
        NexSh { config, context: Context::from_turns(turns, limit) }
    }

    pub fn config(&self) -> (r: &NexShConfig)
        ensures
            *r == self.config_spec(),
    {
        &self.config
    }

    /// The conversation, oldest turn first.
    pub fn messages(&self) -> (r: &Vec<Message>)
        ensures
            r@ == self.turns(),
    {
        self.context.snapshot()
    }

    /// Whether setup must run before a request: no API key is configured.
    pub fn needs_setup(&self) -> (r: bool)
        ensures
            r == (self.config_spec().api_key@.len() == 0),
    {
        !self.config.has_api_key()
    }

    /// Replaces the configuration; the log keeps to the new bound.
    pub fn set_config(&mut self, config: NexShConfig)
        requires
            old(self).wf(),
        ensures
            final(self).wf(),
            final(self).config_spec() == config,
            final(self).turns() == keep_last(
                old(self).turns(),
                config.max_context_messages as nat,
            ),
    {
        self.context.set_limit(config.max_context_messages);
        self.config = config;
    }

    /// Switches to the model named `model`.
    pub fn set_model(&mut self, model: &str)
        requires
            old(self).wf(),
        ensures
            final(self).wf(),
            final(self).config_spec().model matches Some(m) && m@ == model@,
            final(self).config_spec().api_key == old(self).config_spec().api_key,
            final(self).config_spec().history_size == old(self).config_spec().history_size,
            final(self).config_spec().max_context_messages == old(
                self,
            ).config_spec().max_context_messages,
            final(self).turns() == old(self).turns(),
    {
        self.config.model = Some(String::from_str(model));
    }

    /// Appends a turn, dropping the oldest beyond the configured bound.
    pub fn add_message(&mut self, role: &str, content: &str, timestamp: u64)
        requires
            old(self).wf(),
        ensures
            final(self).wf(),
            final(self).config_spec() == old(self).config_spec(),
            appended_turn(
                old(self).turns(),
                final(self).turns(),
                old(self).config_spec().max_context_messages as nat,
                role@,
                content@,
                timestamp,
            ),
    {
        let m = Message { role: String::from_str(role), content: String::from_str(content), timestamp };
        self.context.append(m);
        assert(m.role@ == role@ && m.content@ == content@);
    }

    /// Empties the conversation.
    pub fn clear_context(&mut self)
        requires
            old(self).wf(),
        ensures
            final(self).wf(),
            final(self).config_spec() == old(self).config_spec(),
            final(self).turns() == Seq::<Message>::empty(),
    {
        self.context.clear();
    }

    /// Records what the user asked.
    pub fn record_request(&mut self, input: &str, timestamp: u64)
        requires
            old(self).wf(),
        ensures
            final(self).wf(),
            final(self).config_spec() == old(self).config_spec(),
            appended_turn(
                old(self).turns(),
                final(self).turns(),
                old(self).config_spec().max_context_messages as nat,
                ROLE_USER@,
                input@,
                timestamp,
            ),
    {
        self.add_message(ROLE_USER, input, timestamp);
    }

    /// Records a validated reply and says what comes next: a reply without
    /// a command is kept as a model turn and ends the turn; one with a
    /// command is kept as a note naming command and message, and goes to
    /// confirmation only when it is flagged dangerous.
    pub fn accept_reply(&mut self, reply: &GeminiResponse, timestamp: u64) -> (r: ReplyAction)
        requires
            old(self).wf(),
        ensures
            final(self).wf(),
            final(self).config_spec() == old(self).config_spec(),
            reply.command@.len() == 0 ==> r == ReplyAction::Conversation && appended_turn(
                old(self).turns(),
                final(self).turns(),
                old(self).config_spec().max_context_messages as nat,
                ROLE_MODEL@,
                reply.message@,
                timestamp,
            ),
            reply.command@.len() > 0 ==> r == (if reply.dangerous {
                ReplyAction::Confirm
            } else {
                ReplyAction::Run
            }) && appended_turn(
                old(self).turns(),
                final(self).turns(),
                old(self).config_spec().max_context_messages as nat,
                ROLE_MODEL@,
                command_note(reply.command@, reply.message@),
                timestamp,
            ),
    {
        if !reply.has_command() {
            self.add_message(ROLE_MODEL, reply.message.as_str(), timestamp);
            return ReplyAction::Conversation;
        }
        let note = String::from_str("Command:").concat(reply.command.as_str()).concat(
            ", message:",
        ).concat(reply.message.as_str());
        self.add_message(ROLE_MODEL, note.as_str(), timestamp);
        if reply.dangerous {
            ReplyAction::Confirm
        } else {
            ReplyAction::Run
        }
    }

    /// Validates the model's raw reply and, when it conforms, records it as
    /// `accept_reply` does; a malformed reply leaves the session unchanged.
    pub fn process_reply(&mut self, raw: &str, timestamp: u64) -> (r: Result<
        (GeminiResponse, ReplyAction),
        MalformedResponse,
    >)
        requires
            old(self).wf(),
        ensures
            final(self).wf(),
            final(self).config_spec() == old(self).config_spec(),
            validated(
                raw@,
                match r {
                    Ok((p, _)) => Ok(p),
                    Err(e) => Err(e),
                },
            ),
            r is Err ==> final(self).turns() == old(self).turns(),
            r matches Ok((p, a)) ==> (p.command@.len() == 0 ==> a == ReplyAction::Conversation
                && appended_turn(
                old(self).turns(),
                final(self).turns(),
                old(self).config_spec().max_context_messages as nat,
                ROLE_MODEL@,
                p.message@,
                timestamp,
            )),
            r matches Ok((p, a)) ==> (p.command@.len() > 0 ==> a == (if p.dangerous {
                ReplyAction::Confirm
            } else {
                ReplyAction::Run
            }) && appended_turn(
                old(self).turns(),
                final(self).turns(),
                old(self).config_spec().max_context_messages as nat,
                ROLE_MODEL@,
                command_note(p.command@, p.message@),
                timestamp,
            )),
    {
        match validate_response(raw) {
            Ok(p) => {
                let a = self.accept_reply(&p, timestamp);
                Ok((p, a))
            },
            Err(e) => Err(e),
        }
    }

    /// Records a command's output; empty output leaves no turn.
    pub fn record_output(&mut self, output: &str, timestamp: u64)
        requires
            old(self).wf(),
        ensures
            final(self).wf(),
            final(self).config_spec() == old(self).config_spec(),
            output@.len() == 0 ==> final(self).turns() == old(self).turns(),
            output@.len() > 0 ==> appended_turn(
                old(self).turns(),
                final(self).turns(),
                old(self).config_spec().max_context_messages as nat,
                ROLE_MODEL@,
                output_note(output@),
                timestamp,
            ),
    {
        if output.unicode_len() == 0 {
            return;
        }
        let note = String::from_str("Command output:\n").concat(output);
        self.add_message(ROLE_MODEL, note.as_str(), timestamp);
    }

    /// The usage text of the interactive commands.
    pub fn help_text(&self) -> (r: &'static str)
        ensures
            r@ == HELP_TEXT@,
    {
        HELP_TEXT
    }
}

} // verus!
