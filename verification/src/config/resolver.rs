//! Where the values of the knobs are looked up.
use crate::duration::{Duration, HumanDuration};
use crate::error::ConfigError;
use crate::file::{entries_of, find, read_text, text_of, value_under, Tree};
use crate::parameter::{
    comes_to, file_entries, holds, viewed, FileLookup, Parameter, Simple, ValueSeed,
};
use crate::parameters;
use crate::scalars::{IpAddr, SocketAddr};
use crate::setting::ArgumentValue;
use crate::value::{Value, ValueSource};
use vstd::prelude::*;

verus! {

/// What the configuration file holds for the knobs that are network addresses.
#[derive(Debug, Clone, Copy, PartialEq, Eq)]
pub struct Addresses {
    pub server: FileLookup<IpAddr>,
    pub metrics: FileLookup<IpAddr>,
    pub config_endpoint: FileLookup<SocketAddr>,
}

/// Whether a lookup is that of a value of the configuration file, where `parse` reads its text.
pub open spec fn parsed_with<T, F: Fn(&str) -> Option<T>>(
    lookup: FileLookup<T>,
    tree: Option<Tree>,
    parse: F,
) -> bool {
    match tree {
        None => lookup is Absent,
        Some(tree) => match text_of(tree) {
            None => lookup is Mismatch,
            Some(text) => exists|given: &str| #[trigger]
                given@ == text && match lookup {
                    FileLookup::Found(value) => parse.ensures((given,), Some(value)),
                    FileLookup::Mismatch => parse.ensures((given,), None),
                    FileLookup::Absent => false,
                },
        },
    }
}

/// Reads the value under a dotted key, where `parse` reads its text.
pub fn parse_under<T, F: Fn(&str) -> Option<T>>(
    file_config: &toml::Table,
    key: &str,
    parse: &F,
) -> (lookup: FileLookup<T>)
    requires
        forall|text: &str| parse.requires((text,)),
    ensures
        parsed_with(lookup, value_under(entries_of(*file_config), key@), *parse),
{
    match find(file_config, key) {
        None => FileLookup::Absent,
        Some(value) => match read_text(&value) {
            None => FileLookup::Mismatch,
            Some(text) => {
                let given: &str = text.as_str();
                assert(given@ == text@);
                match parse(given) {
                    None => FileLookup::Mismatch,
                    Some(value) => FileLookup::Found(value),
                }
            },
        },
    }
}

impl Addresses {
    /// Whether these are the addresses among the entries of the configuration file, where
    /// `parse_ip` and `parse_socket` read their texts.
    pub open spec fn stand_in<I: Fn(&str) -> Option<IpAddr>, S: Fn(&str) -> Option<SocketAddr>>(
        self,
        entries: Map<Seq<char>, Tree>,
        parse_ip: I,
        parse_socket: S,
    ) -> bool {
        &&& parsed_with(
            self.server,
            value_under(entries, parameters::server_bind_address().id@),
            parse_ip,
        )
        &&& parsed_with(
            self.metrics,
            value_under(entries, parameters::metrics_bind_address().id@),
            parse_ip,
        )
        &&& parsed_with(
            self.config_endpoint,
            value_under(entries, parameters::diagnostics_config_endpoint_bind_address().id@),
            parse_socket,
        )
    }

    /// Reads the addresses in the configuration file.
    pub fn read<I: Fn(&str) -> Option<IpAddr>, S: Fn(&str) -> Option<SocketAddr>>(
        file_config: &toml::Table,
        parse_ip: &I,
        parse_socket: &S,
    ) -> (addresses: Addresses)
        requires
            forall|text: &str| parse_ip.requires((text,)),
            forall|text: &str| parse_socket.requires((text,)),
        ensures
            addresses.stand_in(entries_of(*file_config), *parse_ip, *parse_socket),
    {
        Addresses {
            server: parse_under(file_config, parameters::server_bind_address().id, parse_ip),
            metrics: parse_under(file_config, parameters::metrics_bind_address().id, parse_ip),
            config_endpoint: parse_under(
                file_config,
                parameters::diagnostics_config_endpoint_bind_address().id,
                parse_socket,
            ),
        }
    }
}

/// Where the values of the knobs are looked up.
#[derive(Debug, Clone, Copy)]
pub struct Resolver<'a> {
    pub arguments: &'a clap::ArgMatches,
    pub file_config: Option<&'a toml::Table>,
    pub addresses: Addresses,
}

/// What is wrong with a knob, if anything.
pub open spec fn flaw_of<V>(expected: Result<(V, ValueSource), ConfigError>) -> Option<
    ConfigError,
> {
    match expected {
        Ok(_) => None,
        Err(error) => Some(error),
    }
}

/// The first of two things that are wrong.
pub open spec fn first(flaw: Option<ConfigError>, next: Option<ConfigError>) -> Option<
    ConfigError,
> {
    match flaw {
        Some(_) => flaw,
        None => next,
    }
}

impl<'a> Resolver<'a> {
    /// What a knob comes to.
    pub open spec fn sees<S: ValueSeed>(self, parameter: Parameter<S>) -> Result<
        (<S::Output as DeepView>::V, ValueSource),
        ConfigError,
    > {
        parameter.expected(*self.arguments, file_entries(self.file_config))
    }

    /// Finds the value of a knob.
    pub fn resolve<S: ValueSeed>(&self, parameter: &Parameter<S>) -> (outcome: Result<
        Value<S::Output>,
        ConfigError,
    >)
        ensures
            comes_to(outcome, *parameter, self.sees(*parameter)),
    {
        parameter.resolve(self.arguments, self.file_config)
    }

    /// What a knob comes to whose value in the configuration file, if there is one, has been read
    /// already.
    pub open spec fn sees_address<T: ArgumentValue>(
        self,
        parameter: Parameter<Simple<T>>,
        in_file: FileLookup<T>,
    ) -> Result<(<T as DeepView>::V, ValueSource), ConfigError> {
        parameter.expected_with(
            *self.arguments,
            if self.file_config is Some {
                viewed(in_file)
            } else {
                FileLookup::Absent
            },
        )
    }

    /// Finds the value of a knob whose value in the configuration file, if there is one, has been
    /// read already.
    pub fn resolve_address<T: ArgumentValue + Copy>(
        &self,
        parameter: &Parameter<Simple<T>>,
        in_file: FileLookup<T>,
    ) -> (outcome: Result<Value<T>, ConfigError>)
        ensures
            comes_to(outcome, *parameter, self.sees_address(*parameter, in_file)),
    {
        if self.file_config.is_some() {
            parameter.resolve_with(self.arguments, in_file)
        } else {
            parameter.resolve_with(self.arguments, FileLookup::Absent)
        }
    }

    /// Finds the value of a knob that is a span of time.
    pub fn resolve_span(&self, parameter: &Parameter<Simple<HumanDuration>>) -> (outcome: Result<
        Value<Duration>,
        ConfigError,
    >)
        ensures
            match outcome {
                Ok(value) => holds(as_written(value), *parameter, self.sees(*parameter)),
                Err(error) => flaw_of(self.sees(*parameter)) == Some(error),
            },
    {
        let value: Value<HumanDuration> = self.resolve(parameter)?;
        let convert = |human: HumanDuration| -> (duration: Duration)
            ensures
                duration == human.0,
        {
            Duration::from(human)
        };
        Ok(value.map(convert))
    }
}

/// A span of time as a knob holds it.
pub open spec fn as_written(value: Value<Duration>) -> Value<HumanDuration> {
    value.with(HumanDuration(value.value))
}

} // verus!
