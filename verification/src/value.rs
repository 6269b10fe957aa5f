//! Configuration values that remember where they came from.
use vstd::prelude::*;

verus! {

/// Where a value came from. A later source takes precedence over an earlier one.
#[derive(Clone, Copy, Debug, PartialEq, Eq, PartialOrd, Ord, Hash, Structural)]
pub enum ValueSource {
    Default,
    ConfigFile,
    Environment,
    Argument,
}

impl ValueSource {
    /// The precedence of the source: a higher one wins.
    pub open spec fn rank(self) -> int {
        match self {
            ValueSource::Default => 0,
            ValueSource::ConfigFile => 1,
            ValueSource::Environment => 2,
            ValueSource::Argument => 3,
        }
    }

    /// Whether the source takes precedence over another one.
    pub fn outranks(self, other: ValueSource) -> (answer: bool)
        ensures
            answer == (self.rank() > other.rank()),
    {
        match self {
            ValueSource::Default => false,
            ValueSource::ConfigFile => other == ValueSource::Default,
            ValueSource::Environment => other == ValueSource::Default || other
                == ValueSource::ConfigFile,
            ValueSource::Argument => other != ValueSource::Argument,
        }
    }

    /// The source, as it is called in a message.
    #[verifier::allow_in_spec]
    pub fn in_description(self) -> &'static str
        returns
            (match self {
                ValueSource::ConfigFile => "configuration file",
                ValueSource::Environment => "environment",
                ValueSource::Argument => "command line arguments",
                ValueSource::Default => "default",
            }),
    {
        match self {
            ValueSource::ConfigFile => "configuration file",
            ValueSource::Environment => "environment",
            ValueSource::Argument => "command line arguments",
            ValueSource::Default => "default",
        }
    }

    /// The source, as it is called in a report.
    #[verifier::allow_in_spec]
    pub fn as_str(self) -> &'static str
        returns
            (match self {
                ValueSource::Default => "default",
                ValueSource::ConfigFile => "config_file",
                ValueSource::Environment => "environment",
                ValueSource::Argument => "argument",
            }),
    {
        match self {
            ValueSource::Default => "default",
            ValueSource::ConfigFile => "config_file",
            ValueSource::Environment => "environment",
            ValueSource::Argument => "argument",
        }
    }
}

/// A configuration value with its origin and the names of the knob that sets it.
#[derive(Debug, PartialEq, Eq, PartialOrd, Ord)]
pub struct Value<T> {
    pub value: T,
    pub source: ValueSource,
    pub id: &'static str,
    pub toml: Option<&'static str>,
    pub argument: &'static str,
    pub environment: &'static str,
    pub sensitive: bool,
}

impl<T> Value<T> {
    /// The same value of another type: everything but the value itself is unchanged.
    pub open spec fn with<U>(self, value: U) -> Value<U> {
        Value {
            value,
            source: self.source,
            id: self.id,
            toml: self.toml,
            argument: self.argument,
            environment: self.environment,
            sensitive: self.sensitive,
        }
    }

    /// Transforms the value and keeps its provenance.
    pub fn map<F, U>(self, f: F) -> (mapped: Value<U>) where F: Fn(T) -> U
        requires
            f.requires((self.value,)),
        ensures
            f.ensures((self.value,), mapped.value),
            mapped == self.with(mapped.value),
    {
        Value {
            value: f(self.value),
            source: self.source,
            id: self.id,
            toml: self.toml,
            argument: self.argument,
            environment: self.environment,
            sensitive: self.sensitive,
        }
    }

    /// Transforms the value and keeps its provenance, unless the transformation fails.
    pub fn try_map<F, U, E>(self, f: F) -> (mapped: Result<Value<U>, E>) where
        F: Fn(T) -> Result<U, E>,

        requires
            f.requires((self.value,)),
        ensures
            match mapped {
                Ok(mapped) => f.ensures((self.value,), Ok(mapped.value)) && mapped == self.with(
                    mapped.value,
                ),
                Err(error) => f.ensures((self.value,), Err(error)),
            },
    {
        match f(self.value) {
            Ok(value) => Ok(
                Value {
                    value,
                    source: self.source,
                    id: self.id,
                    toml: self.toml,
                    argument: self.argument,
                    environment: self.environment,
                    sensitive: self.sensitive,
                },
            ),
            Err(error) => Err(error),
        }
    }
}

impl<T> Value<Option<T>> {
    /// The value that is there, with its provenance.
    pub fn transpose(self) -> (transposed: Option<Value<T>>)
        ensures
            transposed == (match self.value {
                Some(value) => Some(self.with(value)),
                None => None,
            }),
    {
        match self.value {
            Some(value) => Some(
                Value {
                    value,
                    source: self.source,
                    id: self.id,
                    toml: self.toml,
                    argument: self.argument,
                    environment: self.environment,
                    sensitive: self.sensitive,
                },
            ),
            None => None,
        }
    }
}

/// What stands in a report for a value that must not be shown.
pub const REDACTED_VALUE: &'static str = "** redacted **";

/// What one field of a report holds: the value itself, a text, or nothing.
#[derive(Debug, PartialEq, Eq)]
pub enum FieldValue<I> {
    Inner(I),
    Text(&'static str),
    Nothing,
}

/// One field of a report.
#[derive(Debug, PartialEq, Eq)]
pub struct Field<I> {
    pub name: &'static str,
    pub value: FieldValue<I>,
}

/// The report on a value, of which `inner` is the form to be shown.
pub open spec fn report<T, I>(value: Value<T>, inner: I) -> Seq<Field<I>> {
    seq![
        Field {
            name: "value",
            value: if value.sensitive {
                FieldValue::Text(REDACTED_VALUE)
            } else {
                FieldValue::Inner(inner)
            },
        },
        Field { name: "source", value: FieldValue::Text(value.source.as_str()) },
        Field {
            name: "toml",
            value: match value.toml {
                Some(toml) => FieldValue::Text(toml),
                None => FieldValue::Nothing,
            },
        },
        Field { name: "argument", value: FieldValue::Text(value.argument) },
        Field { name: "environment", value: FieldValue::Text(value.environment) },
    ]
}

/// The fields that a report on `value` shows, in their order.
pub fn serialize_value<T, I>(value: &Value<T>, inner: I) -> (fields: Vec<Field<I>>)
    ensures
        fields@ == report(*value, inner),
{
    let shown: FieldValue<I> = if value.sensitive {
        FieldValue::Text(REDACTED_VALUE)
    } else {
        FieldValue::Inner(inner)
    };
    let toml: FieldValue<I> = match value.toml {
        Some(toml) => FieldValue::Text(toml),
        None => FieldValue::Nothing,
    };
    vec![
        Field { name: "value", value: shown },
        Field { name: "source", value: FieldValue::Text(value.source.as_str()) },
        Field { name: "toml", value: toml },
        Field { name: "argument", value: FieldValue::Text(value.argument) },
        Field { name: "environment", value: FieldValue::Text(value.environment) },
    ]
}

/// The report on a sensitive value tells nothing of the value: whatever the value is and whatever
/// is handed over to be shown, the report is the same.
pub proof fn law_sensitive_values_are_redacted<T, I>(value: Value<T>, other: T, inner: I, alternative: I)
    requires
        value.sensitive,
    ensures
        report(value, inner) == report(value.with(other), alternative),
        forall|i: int|
            0 <= i < report(value, inner).len() ==> !(#[trigger] report(value, inner)[i].value is Inner),
{
    assert(report(value, inner) =~= report(value.with(other), alternative));
}

/// A value that is not sensitive is shown as it was handed over.
pub proof fn law_other_values_are_shown<T, I>(value: Value<T>, inner: I)
    requires
        !value.sensitive,
    ensures
        report(value, inner)[0] == (Field { name: "value", value: FieldValue::Inner(inner) }),
{
}

} // verus!
