//! Settings that are one of a few words.
use crate::file::{is_selection, selects, Node, Tree};
use crate::text::same_text;
use vstd::prelude::*;

verus! {

/// Log verbosity level.
#[derive(Debug, Clone, Copy, PartialEq, Eq, PartialOrd, Ord, Hash, Structural)]
pub enum LogLevel {
    Error,
    Warn,
    Info,
    Debug,
    Trace,
}

/// Log output format.
#[derive(Debug, Clone, Copy, PartialEq, Eq, PartialOrd, Ord, Hash, Structural)]
pub enum LogFormat {
    Json,
    Pretty,
    Compact,
}

/// How symbolic links are handled.
#[derive(Debug, Clone, Copy, PartialEq, Eq, PartialOrd, Ord, Hash, Structural)]
pub enum SymlinkPolicy {
    Reject,
    FollowSafe,
}

impl LogLevel {
    /// The word for the level.
    #[verifier::allow_in_spec]
    pub fn as_str(self) -> &'static str
        returns
            (match self {
                LogLevel::Error => "error",
                LogLevel::Warn => "warn",
                LogLevel::Info => "info",
                LogLevel::Debug => "debug",
                LogLevel::Trace => "trace",
            }),
    {
        match self {
            LogLevel::Error => "error",
            LogLevel::Warn => "warn",
            LogLevel::Info => "info",
            LogLevel::Debug => "debug",
            LogLevel::Trace => "trace",
        }
    }

    /// The level that a TOML value selects.
    pub open spec fn selected(tree: Tree) -> Option<LogLevel> {
        if selects(tree, LogLevel::Error.as_str()@) {
            Some(LogLevel::Error)
        } else if selects(tree, LogLevel::Warn.as_str()@) {
            Some(LogLevel::Warn)
        } else if selects(tree, LogLevel::Info.as_str()@) {
            Some(LogLevel::Info)
        } else if selects(tree, LogLevel::Debug.as_str()@) {
            Some(LogLevel::Debug)
        } else if selects(tree, LogLevel::Trace.as_str()@) {
            Some(LogLevel::Trace)
        } else {
            None
        }
    }

    /// Reads a level from an opened TOML value.
    pub fn select(node: &Node) -> (level: Option<LogLevel>)
        ensures
            level == LogLevel::selected(node.tree()),
    {
        if is_selection(node, LogLevel::Error.as_str()) {
            Some(LogLevel::Error)
        } else if is_selection(node, LogLevel::Warn.as_str()) {
            Some(LogLevel::Warn)
        } else if is_selection(node, LogLevel::Info.as_str()) {
            Some(LogLevel::Info)
        } else if is_selection(node, LogLevel::Debug.as_str()) {
            Some(LogLevel::Debug)
        } else if is_selection(node, LogLevel::Trace.as_str()) {
            Some(LogLevel::Trace)
        } else {
            None
        }
    }

    /// Reads a level from its word on the command line.
    pub fn from_argument(word: &str) -> (level: Option<LogLevel>)
        ensures
            level == LogLevel::selected(Tree::Text(word@)),
    {
        if same_text(word, LogLevel::Error.as_str()) {
            Some(LogLevel::Error)
        } else if same_text(word, LogLevel::Warn.as_str()) {
            Some(LogLevel::Warn)
        } else if same_text(word, LogLevel::Info.as_str()) {
            Some(LogLevel::Info)
        } else if same_text(word, LogLevel::Debug.as_str()) {
            Some(LogLevel::Debug)
        } else if same_text(word, LogLevel::Trace.as_str()) {
            Some(LogLevel::Trace)
        } else {
            None
        }
    }
}

impl LogFormat {
    /// The word for the format.
    #[verifier::allow_in_spec]
    pub fn as_str(self) -> &'static str
        returns
            (match self {
                LogFormat::Json => "json",
                LogFormat::Pretty => "pretty",
                LogFormat::Compact => "compact",
            }),
    {
        match self {
            LogFormat::Json => "json",
            LogFormat::Pretty => "pretty",
            LogFormat::Compact => "compact",
        }
    }

    /// The format that a TOML value selects.
    pub open spec fn selected(tree: Tree) -> Option<LogFormat> {
        if selects(tree, LogFormat::Json.as_str()@) {
            Some(LogFormat::Json)
        } else if selects(tree, LogFormat::Pretty.as_str()@) {
            Some(LogFormat::Pretty)
        } else if selects(tree, LogFormat::Compact.as_str()@) {
            Some(LogFormat::Compact)
        } else {
            None
        }
    }

    /// Reads a format from an opened TOML value.
    pub fn select(node: &Node) -> (format: Option<LogFormat>)
        ensures
            format == LogFormat::selected(node.tree()),
    {
        if is_selection(node, LogFormat::Json.as_str()) {
            Some(LogFormat::Json)
        } else if is_selection(node, LogFormat::Pretty.as_str()) {
            Some(LogFormat::Pretty)
        } else if is_selection(node, LogFormat::Compact.as_str()) {
            Some(LogFormat::Compact)
        } else {
            None
        }
    }

    /// Reads a format from its word on the command line.
    pub fn from_argument(word: &str) -> (format: Option<LogFormat>)
        ensures
            format == LogFormat::selected(Tree::Text(word@)),
    {
        if same_text(word, LogFormat::Json.as_str()) {
            Some(LogFormat::Json)
        } else if same_text(word, LogFormat::Pretty.as_str()) {
            Some(LogFormat::Pretty)
        } else if same_text(word, LogFormat::Compact.as_str()) {
            Some(LogFormat::Compact)
        } else {
            None
        }
    }
}

impl SymlinkPolicy {
    /// The word for the policy in the configuration file.
    #[verifier::allow_in_spec]
    pub fn as_str(self) -> &'static str
        returns
            (match self {
                SymlinkPolicy::Reject => "reject",
                SymlinkPolicy::FollowSafe => "follow_safe",
            }),
    {
        match self {
            SymlinkPolicy::Reject => "reject",
            SymlinkPolicy::FollowSafe => "follow_safe",
        }
    }

    /// The word for the policy on the command line.
    #[verifier::allow_in_spec]
    pub fn argument_word(self) -> &'static str
        returns
            (match self {
                SymlinkPolicy::Reject => "reject",
                SymlinkPolicy::FollowSafe => "follow-safe",
            }),
    {
        match self {
            SymlinkPolicy::Reject => "reject",
            SymlinkPolicy::FollowSafe => "follow-safe",
        }
    }

    /// The policy that a TOML value selects.
    pub open spec fn selected(tree: Tree) -> Option<SymlinkPolicy> {
        if selects(tree, SymlinkPolicy::Reject.as_str()@) {
            Some(SymlinkPolicy::Reject)
        } else if selects(tree, SymlinkPolicy::FollowSafe.as_str()@) {
            Some(SymlinkPolicy::FollowSafe)
        } else {
            None
        }
    }

    /// The policy that a word on the command line selects.
    pub open spec fn called(word: Seq<char>) -> Option<SymlinkPolicy> {
        if word == SymlinkPolicy::Reject.argument_word()@ {
            Some(SymlinkPolicy::Reject)
        } else if word == SymlinkPolicy::FollowSafe.argument_word()@ {
            Some(SymlinkPolicy::FollowSafe)
        } else {
            None
        }
    }

    /// Reads a policy from an opened TOML value.
    pub fn select(node: &Node) -> (policy: Option<SymlinkPolicy>)
        ensures
            policy == SymlinkPolicy::selected(node.tree()),
    {
        if is_selection(node, SymlinkPolicy::Reject.as_str()) {
            Some(SymlinkPolicy::Reject)
        } else if is_selection(node, SymlinkPolicy::FollowSafe.as_str()) {
            Some(SymlinkPolicy::FollowSafe)
        } else {
            None
        }
    }

    /// Reads a policy from its word on the command line.
    pub fn from_argument(word: &str) -> (policy: Option<SymlinkPolicy>)
        ensures
            policy == SymlinkPolicy::called(word@),
    {
        if same_text(word, SymlinkPolicy::Reject.argument_word()) {
            Some(SymlinkPolicy::Reject)
        } else if same_text(word, SymlinkPolicy::FollowSafe.argument_word()) {
            Some(SymlinkPolicy::FollowSafe)
        } else {
            None
        }
    }
}

/// Every level is read back from its word.
pub proof fn law_level_word_is_read_back(level: LogLevel)
    ensures
        LogLevel::selected(Tree::Text(level.as_str()@)) == Some(level),
{
    reveal_strlit("error");
    reveal_strlit("warn");
    reveal_strlit("info");
    reveal_strlit("debug");
    reveal_strlit("trace");
    assert("error"@[0] == 'e' && "debug"@[0] == 'd' && "trace"@[0] == 't' && "warn"@[0] == 'w'
        && "info"@[0] == 'i');
}

/// Every format is read back from its word.
pub proof fn law_format_word_is_read_back(format: LogFormat)
    ensures
        LogFormat::selected(Tree::Text(format.as_str()@)) == Some(format),
{
    reveal_strlit("json");
    reveal_strlit("pretty");
    reveal_strlit("compact");
    assert("json"@.len() == 4 && "pretty"@.len() == 6 && "compact"@.len() == 7);
}

/// Every policy is read back from its words.
pub proof fn law_policy_word_is_read_back(policy: SymlinkPolicy)
    ensures
        SymlinkPolicy::selected(Tree::Text(policy.as_str()@)) == Some(policy),
        SymlinkPolicy::called(policy.argument_word()@) == Some(policy),
{
    reveal_strlit("reject");
    reveal_strlit("follow_safe");
    reveal_strlit("follow-safe");
    assert("reject"@.len() == 6 && "follow_safe"@.len() == 11 && "follow-safe"@.len() == 11);
}

impl DeepView for LogLevel {
    type V = LogLevel;

    open spec fn deep_view(&self) -> LogLevel {
        *self
    }
}

impl DeepView for LogFormat {
    type V = LogFormat;

    open spec fn deep_view(&self) -> LogFormat {
        *self
    }
}

impl DeepView for SymlinkPolicy {
    type V = SymlinkPolicy;

    open spec fn deep_view(&self) -> SymlinkPolicy {
        *self
    }
}

} // verus!
