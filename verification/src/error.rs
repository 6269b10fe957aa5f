//! What can be wrong with a configuration.
use crate::text::{quote, quoted};
use crate::value::ValueSource;
use vstd::prelude::*;

verus! {

/// What is wrong with a configuration.
#[derive(Debug, PartialEq, Eq)]
pub enum ConfigError {
    /// The command line parser does not hold a value of the right type for the argument, or does
    /// not know it.
    ArgumentLookup { id: &'static str },
    /// The command line parser refuses to give the list of values, and says why.
    ArgumentList { text: String },
    /// An item in the list for the argument does not fit the setting.
    ArgumentItem { id: &'static str },
    /// The argument has a value, but the command line parser does not know where it came from.
    ArgumentSource { id: &'static str },
    /// The value in the configuration file does not fit the setting.
    FileValue { key: &'static str },
    /// TLS is enabled without this path.
    TlsPath { id: &'static str, argument: &'static str, environment: &'static str },
    /// CORS is enabled without an allowed origin.
    CorsOrigins,
    /// An allowed CORS method is no HTTP method.
    CorsMethod,
    /// A JWT source was set without a value.
    JwtValue,
    /// Two JWT sources of the same kind were set in the same place.
    JwtConflict { first: &'static str, second: &'static str, source: ValueSource },
    /// No JWT source was set.
    JwtMissing,
    /// No filesystem root was set.
    Roots { id: &'static str, argument: &'static str, environment: &'static str },
}

/// How to set a knob that is missing.
pub open spec fn remedy(argument: Seq<char>, environment: Seq<char>) -> Seq<char> {
    " (set from command line argument "@ + quoted(argument) + " or from environment variable "@
        + quoted(environment) + ")"@
}

impl ConfigError {
    /// The text of the message.
    pub open spec fn text(self) -> Seq<char> {
        match self {
            ConfigError::ArgumentLookup { id } =>
                "failed to convert configuration argument configuration value for id "@ + quoted(
                    id@,
                ),
            ConfigError::ArgumentList { text } => text@,
            ConfigError::ArgumentItem { id } => "invalid item in the list for id "@ + quoted(id@),
            ConfigError::ArgumentSource { id } => "logic error: argument "@ + quoted(id@)
                + " has a value but no source"@,
            ConfigError::FileValue { key } =>
                "failed to convert file configuration value for key "@ + quoted(key@),
            ConfigError::TlsPath { id, argument, environment } => quoted(id@)
                + " is required when TLS is enabled"@ + remedy(argument@, environment@),
            ConfigError::CorsOrigins =>
                "at least one CORS allowed origin must be specified if CORS is enabled"@,
            ConfigError::CorsMethod => "invalid HTTP method"@,
            ConfigError::JwtValue => "logic error: JWT source has a source but no value"@,
            ConfigError::JwtConflict { first, second, source } =>
                "only one JWT source must be specified (found "@ + quoted(first@) + " and "@
                    + quoted(second@) + " in "@ + source.in_description()@ + ")"@,
            ConfigError::JwtMissing =>
                "one and only one JWT source must be provided in command line arguments, environment or configuration file"@,
            ConfigError::Roots { id, argument, environment } =>
                "at least one root must be configured in "@ + quoted(id@) + remedy(
                    argument@,
                    environment@,
                ),
        }
    }

    /// The message to show.
    pub fn message(&self) -> (message: String)
        ensures
            message@ == self.text(),
    {
        match self {
            ConfigError::ArgumentLookup { id } => {
                let mut message: String =
                    "failed to convert configuration argument configuration value for id ".to_owned();
                message.append(quote(id).as_str());
                message
            },
            ConfigError::ArgumentList { text } => text.clone(),
            ConfigError::ArgumentItem { id } => {
                let mut message: String = "invalid item in the list for id ".to_owned();
                message.append(quote(id).as_str());
                message
            },
            ConfigError::ArgumentSource { id } => {
                let mut message: String = "logic error: argument ".to_owned();
                message.append(quote(id).as_str());
                message.append(" has a value but no source");
                message
            },
            ConfigError::FileValue { key } => {
                let mut message: String =
                    "failed to convert file configuration value for key ".to_owned();
                message.append(quote(key).as_str());
                message
            },
            ConfigError::TlsPath { id, argument, environment } => {
                let mut message: String = quote(id);
                message.append(" is required when TLS is enabled");
                message.append(describe_remedy(argument, environment).as_str());
                message
            },
            ConfigError::CorsOrigins =>
                "at least one CORS allowed origin must be specified if CORS is enabled".to_owned(),
            ConfigError::CorsMethod => "invalid HTTP method".to_owned(),
            ConfigError::JwtValue =>
                "logic error: JWT source has a source but no value".to_owned(),
            ConfigError::JwtConflict { first, second, source } => {
                let mut message: String =
                    "only one JWT source must be specified (found ".to_owned();
                message.append(quote(first).as_str());
                message.append(" and ");
                message.append(quote(second).as_str());
                message.append(" in ");
                message.append(source.in_description());
                message.append(")");
                message
            },
            ConfigError::JwtMissing =>
                "one and only one JWT source must be provided in command line arguments, environment or configuration file".to_owned(),
            ConfigError::Roots { id, argument, environment } => {
                let mut message: String = "at least one root must be configured in ".to_owned();
                message.append(quote(id).as_str());
                message.append(describe_remedy(argument, environment).as_str());
                message
            },
        }
    }
}

fn describe_remedy(argument: &'static str, environment: &'static str) -> (message: String)
    ensures
        message@ == remedy(argument@, environment@),
{
    let mut message: String = " (set from command line argument ".to_owned();
    message.append(quote(argument).as_str());
    message.append(" or from environment variable ");
    message.append(quote(environment).as_str());
    message.append(")");
    message
}

} // verus!
