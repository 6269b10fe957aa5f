//! What is shown: values with their provenance, messages, and whether the server is ready.
use crate::choices::{LogFormat, LogLevel, SymlinkPolicy};
use crate::config::LoadError;
use crate::error::ConfigError;
use crate::mode::InvalidMode;
use crate::ready::{run_checks, Check, Checks, Ready, Status};
use crate::root::{InvalidRoot, RootFlaw};
use crate::text::quoted;
use crate::value::{serialize_value, Field, FieldValue, Value, ValueSource};
use vstd::prelude::*;

verus! {

/// Whether two values have the same provenance.
pub open spec fn same_provenance<T, U>(left: Value<T>, right: Value<U>) -> bool {
    &&& left.source == right.source
    &&& left.id == right.id
    &&& left.toml == right.toml
    &&& left.argument == right.argument
    &&& left.environment == right.environment
    &&& left.sensitive == right.sensitive
}

/// A value that is mapped keeps its provenance, and becomes what the function makes of it.
pub proof fn law_mapped_value_keeps_its_provenance<T, U, F: Fn(T) -> U>(
    value: Value<T>,
    f: F,
    mapped: Value<U>,
)
    requires
        call_ensures(Value::<T>::map::<F, U>, (value, f), mapped),
    ensures
        f.ensures((value.value,), mapped.value),
        same_provenance(value, mapped),
{
}

/// A value that is mapped by a function that can fail keeps its provenance, or is the failure.
pub proof fn law_tried_value_keeps_its_provenance<T, U, E, F: Fn(T) -> Result<U, E>>(
    value: Value<T>,
    f: F,
    mapped: Result<Value<U>, E>,
)
    requires
        call_ensures(Value::<T>::try_map::<F, U, E>, (value, f), mapped),
    ensures
        match mapped {
            Ok(mapped) => f.ensures((value.value,), Ok(mapped.value)) && same_provenance(
                value,
                mapped,
            ),
            Err(error) => f.ensures((value.value,), Err(error)),
        },
{
}

/// A value that may be missing is there with its provenance, or not there at all.
pub proof fn law_transposed_value_keeps_its_provenance<T>(
    value: Value<Option<T>>,
    transposed: Option<Value<T>>,
)
    requires
        call_ensures(Value::<Option<T>>::transpose, (value,), transposed),
    ensures
        transposed is Some <==> value.value is Some,
        transposed matches Some(inner) ==> value.value == Some(inner.value) && same_provenance(
            value,
            inner,
        ),
{
}

/// A report shows the value unless it is sensitive, and always its provenance.
pub proof fn law_report_shows_the_value_and_its_provenance<T, I>(
    value: &Value<T>,
    inner: I,
    fields: Vec<Field<I>>,
)
    requires
        call_ensures(serialize_value::<T, I>, (value, inner), fields),
    ensures
        fields@.len() == 5,
        fields@[0].name == "value",
        value.sensitive ==> fields@[0].value == FieldValue::<I>::Text("** redacted **"),
        !value.sensitive ==> fields@[0].value == FieldValue::<I>::Inner(inner),
        fields@[1].name == "source",
        fields@[1].value == FieldValue::<I>::Text(
            match value.source {
                ValueSource::Default => "default",
                ValueSource::ConfigFile => "config_file",
                ValueSource::Environment => "environment",
                ValueSource::Argument => "argument",
            },
        ),
        fields@[2].name == "toml",
        fields@[2].value == (match value.toml {
            Some(key) => FieldValue::<I>::Text(key),
            None => FieldValue::<I>::Nothing,
        }),
        fields@[3].name == "argument",
        fields@[3].value == FieldValue::<I>::Text(value.argument),
        fields@[4].name == "environment",
        fields@[4].value == FieldValue::<I>::Text(value.environment),
{
}

/// Sources have their words.
pub proof fn law_words_for_sources(source: ValueSource, word: &'static str, name: &'static str)
    requires
        call_ensures(ValueSource::in_description, (source,), word),
        call_ensures(ValueSource::as_str, (source,), name),
    ensures
        word == (match source {
            ValueSource::Default => "default",
            ValueSource::ConfigFile => "configuration file",
            ValueSource::Environment => "environment",
            ValueSource::Argument => "command line arguments",
        }),
        name == (match source {
            ValueSource::Default => "default",
            ValueSource::ConfigFile => "config_file",
            ValueSource::Environment => "environment",
            ValueSource::Argument => "argument",
        }),
{
}

/// Choices have their words.
pub proof fn law_words_for_choices(
    level: LogLevel,
    level_word: &'static str,
    format: LogFormat,
    format_word: &'static str,
    policy: SymlinkPolicy,
    policy_word: &'static str,
    policy_argument: &'static str,
)
    requires
        call_ensures(LogLevel::as_str, (level,), level_word),
        call_ensures(LogFormat::as_str, (format,), format_word),
        call_ensures(SymlinkPolicy::as_str, (policy,), policy_word),
        call_ensures(SymlinkPolicy::argument_word, (policy,), policy_argument),
    ensures
        level_word == (match level {
            LogLevel::Error => "error",
            LogLevel::Warn => "warn",
            LogLevel::Info => "info",
            LogLevel::Debug => "debug",
            LogLevel::Trace => "trace",
        }),
        format_word == (match format {
            LogFormat::Json => "json",
            LogFormat::Pretty => "pretty",
            LogFormat::Compact => "compact",
        }),
        policy_word == (match policy {
            SymlinkPolicy::Reject => "reject",
            SymlinkPolicy::FollowSafe => "follow_safe",
        }),
        policy_argument == (match policy {
            SymlinkPolicy::Reject => "reject",
            SymlinkPolicy::FollowSafe => "follow-safe",
        }),
{
}

/// How a missing knob can be set.
pub open spec fn way_to_set(argument: &'static str, environment: &'static str) -> Seq<char> {
    " (set from command line argument "@ + quoted(argument@) + " or from environment variable "@
        + quoted(environment@) + ")"@
}

/// Every flaw of a configuration has its message, which names what it is about.
pub proof fn law_messages_name_what_they_are_about(error: &ConfigError, message: String)
    requires
        call_ensures(ConfigError::message, (error,), message),
    ensures
        match *error {
            ConfigError::ArgumentLookup { id } => message@
                == "failed to convert configuration argument configuration value for id "@ + quoted(
                id@,
            ),
            ConfigError::ArgumentList { text } => message@ == text@,
            ConfigError::ArgumentItem { id } => message@ == "invalid item in the list for id "@
                + quoted(id@),
            ConfigError::ArgumentSource { id } => message@ == "logic error: argument "@ + quoted(
                id@,
            ) + " has a value but no source"@,
            ConfigError::FileValue { key } => message@
                == "failed to convert file configuration value for key "@ + quoted(key@),
            ConfigError::TlsPath { id, argument, environment } => message@ == quoted(id@)
                + " is required when TLS is enabled"@ + way_to_set(argument, environment),
            ConfigError::CorsOrigins => message@
                == "at least one CORS allowed origin must be specified if CORS is enabled"@,
            ConfigError::CorsMethod => message@ == "invalid HTTP method"@,
            ConfigError::JwtValue => message@
                == "logic error: JWT source has a source but no value"@,
            ConfigError::JwtConflict { first, second, source } => message@
                == "only one JWT source must be specified (found "@ + quoted(first@) + " and "@
                + quoted(second@) + " in "@ + (match source {
                ValueSource::Default => "default"@,
                ValueSource::ConfigFile => "configuration file"@,
                ValueSource::Environment => "environment"@,
                ValueSource::Argument => "command line arguments"@,
            }) + ")"@,
            ConfigError::JwtMissing => message@
                == "one and only one JWT source must be provided in command line arguments, environment or configuration file"@,
            ConfigError::Roots { id, argument, environment } => message@
                == "at least one root must be configured in "@ + quoted(id@) + way_to_set(
                argument,
                environment,
            ),
        },
{
}

/// The messages of files, modes and roots name what they are about.
pub proof fn law_other_messages_name_what_they_are_about(
    load_error: &LoadError,
    load_message: String,
    mode: &InvalidMode,
    mode_message: String,
    root: &InvalidRoot,
    root_message: String,
)
    requires
        call_ensures(LoadError::message, (load_error,), load_message),
        call_ensures(InvalidMode::message, (mode,), mode_message),
        call_ensures(InvalidRoot::message, (root,), root_message),
    ensures
        match *load_error {
            LoadError::Unreadable { shown } => load_message@ == "failed to read config file "@
                + shown@,
            LoadError::Malformed { shown } => load_message@ == "failed to parse config file "@
                + shown@,
            LoadError::Invalid(error) => load_message@ == error.text(),
        },
        mode_message@ == "invalid Unix mode "@ + quoted(mode.text@)
            + ": expected octal e.g. \"0644\""@,
        root_message@ == (match root.flaw {
            RootFlaw::MissingSeparator => "invalid root "@ + quoted(root.text@)
                + ": expected \"id=path\" format"@,
            RootFlaw::EmptyId => "root id must not be empty in "@ + quoted(root.text@),
            RootFlaw::EmptyPath => "root path must not be empty in "@ + quoted(root.text@),
        }),
{
}

/// The server is ready exactly if no part of it fails: the answer says so, with its status code,
/// and tells of every part.
pub proof fn law_ready_exactly_without_failures(
    checks: Checks,
    failing: bool,
    answer: (u16, Ready),
    check: Check,
    failure: bool,
    run: Checks,
)
    requires
        call_ensures(Checks::has_failures, (&checks,), failing),
        call_ensures(Checks::into_response, (checks,), answer),
        call_ensures(Check::is_failure, (&check,), failure),
        call_ensures(run_checks, (), run),
    ensures
        failing == !(checks.configuration is Available && checks.jwt_keys is Available
            && checks.pool is Available),
        answer.1.checks == checks,
        failing ==> answer.0 == 503 && answer.1.status is NotReady,
        !failing ==> answer.0 == 200 && answer.1.status is Ready,
        failure == (check is Unavailable),
        run.configuration is Available && run.jwt_keys is Available && run.pool is Available,
{
}

/// The parts of the answer have their words.
pub proof fn law_words_for_readiness(
    status: Status,
    status_word: &'static str,
    check: Check,
    check_word: &'static str,
)
    requires
        call_ensures(Status::as_str, (status,), status_word),
        call_ensures(Check::as_str, (check,), check_word),
    ensures
        status_word == (match status {
            Status::Ready => "ready",
            Status::NotReady => "not_ready",
        }),
        check_word == (match check {
            Check::Available => "ok",
            Check::Unavailable => "unavailable",
        }),
{
}

} // verus!
