//! The library's data: conversation turns, configuration, and the model's
//! structured reply.
use crate::text::same_text;
use vstd::prelude::*;

verus! {

/// The model used when the configuration names none.
pub const DEFAULT_MODEL: &'static str = "gemini-2.0-flash";

/// Input-history size of a fresh configuration.
pub const DEFAULT_HISTORY_SIZE: usize = 1000;

/// Context bound of a fresh configuration.
pub const DEFAULT_MAX_CONTEXT_MESSAGES: usize = 100;

/// Role of a turn that the user typed.
pub const ROLE_USER: &'static str = "user";

/// Role of a turn that the model produced.
pub const ROLE_MODEL: &'static str = "model";

/// One turn of the conversation.
#[derive(Clone, Debug)]
pub struct Message {
    pub role: String,
    pub content: String,
    pub timestamp: u64,
}

/// Process-wide settings, persisted as a JSON record.
#[derive(Clone, Debug)]
pub struct NexShConfig {
    pub api_key: String,
    pub history_size: usize,
    pub max_context_messages: usize,
    pub model: Option<String>,
}

/// What a fresh configuration holds.
pub open spec fn is_default_config(c: NexShConfig) -> bool {
    &&& c.api_key@.len() == 0
    &&& c.history_size == DEFAULT_HISTORY_SIZE
    &&& c.max_context_messages == DEFAULT_MAX_CONTEXT_MESSAGES
    &&& c.model matches Some(m) && m@ == DEFAULT_MODEL@
}

impl NexShConfig {
    /// The configuration used when nothing has been persisted.
    pub fn defaults() -> (r: NexShConfig)
        ensures
            is_default_config(r),
    {
        NexShConfig {
            api_key: String::new(),
            history_size: DEFAULT_HISTORY_SIZE,
            max_context_messages: DEFAULT_MAX_CONTEXT_MESSAGES,
            model: Some(String::from_str(DEFAULT_MODEL)),
        }
    }

    /// The model to address: the configured one, or the default.
    pub open spec fn model_spec(&self) -> Seq<char> {
        match self.model {
            Some(m) => m@,
            None => DEFAULT_MODEL@,
        }
    }

    pub fn model_name(&self) -> (r: &str)
        ensures
            r@ == self.model_spec(),
    {
        match &self.model {
            Some(m) => m.as_str(),
            None => DEFAULT_MODEL,
        }
    }

    /// Whether an API key has been configured.
    pub fn has_api_key(&self) -> (r: bool)
        ensures
            r == (self.api_key@.len() > 0),
    {
        self.api_key.unicode_len() > 0
    }
}

impl Default for NexShConfig {
    fn default() -> (r: NexShConfig)
        ensures
            is_default_config(r),
    {
        NexShConfig::defaults()
    }
}

/// The fixed set of command kinds that a reply may name.
#[derive(Clone, Copy, Debug, PartialEq, Eq, Structural)]
pub enum Category {
    System,
    File,
    Network,
    Package,
    Text,
    Process,
    Other,
}

impl Category {
    /// The name under which a category appears in a reply.
    pub open spec fn name_spec(self) -> Seq<char> {
        match self {
            Category::System => "system"@,
            Category::File => "file"@,
            Category::Network => "network"@,
            Category::Package => "package"@,
            Category::Text => "text"@,
            Category::Process => "process"@,
            Category::Other => "other"@,
        }
    }

    /// The category whose name is `s`, if any.
    pub open spec fn parse_spec(s: Seq<char>) -> Option<Category> {
        if s == "system"@ {
            Some(Category::System)
        } else if s == "file"@ {
            Some(Category::File)
        } else if s == "network"@ {
            Some(Category::Network)
        } else if s == "package"@ {
            Some(Category::Package)
        } else if s == "text"@ {
            Some(Category::Text)
        } else if s == "process"@ {
            Some(Category::Process)
        } else if s == "other"@ {
            Some(Category::Other)
        } else {
            None
        }
    }

    pub fn as_str(&self) -> (r: &'static str)
        ensures
            r@ == self.name_spec(),
    {
        match self {
            Category::System => "system",
            Category::File => "file",
            Category::Network => "network",
            Category::Package => "package",
            Category::Text => "text",
            Category::Process => "process",
            Category::Other => "other",
        }
    }

    pub fn parse(s: &str) -> (r: Option<Category>)
        ensures
            r == Category::parse_spec(s@),
    {
        if same_text(s, "system") {
            Some(Category::System)
        } else if same_text(s, "file") {
            Some(Category::File)
        } else if same_text(s, "network") {
            Some(Category::Network)
        } else if same_text(s, "package") {
            Some(Category::Package)
        } else if same_text(s, "text") {
            Some(Category::Text)
        } else if same_text(s, "process") {
            Some(Category::Process)
        } else if same_text(s, "other") {
            Some(Category::Other)
        } else {
            None
        }
    }
}

/// The model's reply, once validated: a message for the user, a shell
/// command (empty when no action is needed), whether the command may do
/// harm, and its kind.
#[derive(Clone, Debug)]
pub struct GeminiResponse {
    pub message: String,
    pub command: String,
    pub dangerous: bool,
    pub category: Category,
}

impl GeminiResponse {
    /// Whether the reply asks for a command to be run.
    pub fn has_command(&self) -> (r: bool)
        ensures
            r == (self.command@.len() > 0),
    {
        self.command.unicode_len() > 0
    }
}

} // verus!
