//! The configuration: every knob from the command line, the environment or the configuration file,
//! with defaults and constraints.
pub mod cors;
pub mod filesystem;
pub mod jwt;
pub mod resolver;
pub mod sections;
pub mod tls;

use crate::config::cors::CorsConfig;
use crate::config::filesystem::FilesystemConfig;
use crate::config::jwt::{AuthConfig, JwtConfig, JwtSource};
use crate::config::resolver::{first, Addresses, Resolver};
use crate::config::sections::{
    ConfigEndpointConfig, DiagnosticsConfig, LimitsConfig, LoggingConfig, MetricsConfig,
    OperationsConfig, PoolConfig, ServerConfig, StreamingConfig,
};
use crate::config::tls::TlsConfig;
use crate::error::ConfigError;
use crate::file::{entries_of, parse_document, parsed_document, Tree};
use crate::parameter::{comes_to, FileLookup};
use crate::parameters;
use crate::path::FsPath;
use crate::scalars::{IpAddr, SocketAddr};
use crate::value::Value;
use vstd::prelude::*;

verus! {

/// The configuration.
#[derive(Debug)]
pub struct Config {
    pub config_file: Value<Option<FsPath>>,
    pub server: ServerConfig,
    pub tls: TlsConfig,
    pub cors: CorsConfig,
    pub auth: AuthConfig,
    pub filesystem: FilesystemConfig,
    pub operations: OperationsConfig,
    pub limits: LimitsConfig,
    pub streaming: StreamingConfig,
    pub pool: PoolConfig,
    pub logging: LoggingConfig,
    pub metrics: MetricsConfig,
    pub diagnostics: DiagnosticsConfig,
}

impl Config {
    /// Whether every knob has the value that the resolver sees.
    pub open spec fn faithful(self, resolver: Resolver) -> bool {
        &&& self.server.faithful(resolver)
        &&& self.tls.faithful(resolver)
        &&& self.cors.faithful(resolver)
        &&& self.auth.jwt.faithful(resolver)
        &&& self.filesystem.faithful(resolver)
        &&& self.operations.faithful(resolver)
        &&& self.limits.faithful(resolver)
        &&& self.streaming.faithful(resolver)
        &&& self.pool.faithful(resolver)
        &&& self.logging.faithful(resolver)
        &&& self.metrics.faithful(resolver)
        &&& self.diagnostics.config_endpoint.faithful(resolver)
    }

    /// The first thing that is wrong.
    pub open spec fn flaw(resolver: Resolver) -> Option<ConfigError> {
        first(
            ServerConfig::flaw(resolver),
            first(
                TlsConfig::flaw(resolver),
                first(
                    CorsConfig::flaw(resolver),
                    first(
                        JwtConfig::flaw(resolver),
                        first(
                            FilesystemConfig::flaw(resolver),
                            first(
                                OperationsConfig::flaw(resolver),
                                first(
                                    LimitsConfig::flaw(resolver),
                                    first(
                                        StreamingConfig::flaw(resolver),
                                        first(
                                            PoolConfig::flaw(resolver),
                                            first(
                                                LoggingConfig::flaw(resolver),
                                                first(
                                                    MetricsConfig::flaw(resolver),
                                                    ConfigEndpointConfig::flaw(resolver),
                                                ),
                                            ),
                                        ),
                                    ),
                                ),
                            ),
                        ),
                    ),
                ),
            ),
        )
    }

    /// The constraints between the knobs: TLS has its paths, CORS its origins, and there is a
    /// root.
    pub open spec fn well_formed(self) -> bool {
        &&& self.tls.well_formed()
        &&& self.cors.well_formed()
        &&& self.filesystem.well_formed()
    }

    /// Finds the values of all knobs, with their defaults, and checks the constraints between
    /// them.
    pub fn resolve(config_file: Value<Option<FsPath>>, resolver: Resolver<'_>) -> (outcome: Result<
        Config,
        ConfigError,
    >)
        ensures
            match outcome {
                Ok(config) => Config::flaw(resolver) is None && config.faithful(resolver)
                    && config.well_formed() && config.config_file == config_file,
                Err(error) => Config::flaw(resolver) == Some(error),
            },
    {
        Ok(
            Config {
                config_file,
                server: ServerConfig::resolve(resolver)?,
                tls: TlsConfig::resolve(resolver)?,
                cors: CorsConfig::resolve(resolver)?,
                auth: AuthConfig { jwt: JwtConfig::resolve(resolver)? },
                filesystem: FilesystemConfig::resolve(resolver)?,
                operations: OperationsConfig::resolve(resolver)?,
                limits: LimitsConfig::resolve(resolver)?,
                streaming: StreamingConfig::resolve(resolver)?,
                pool: PoolConfig::resolve(resolver)?,
                logging: LoggingConfig::resolve(resolver)?,
                metrics: MetricsConfig::resolve(resolver)?,
                diagnostics: DiagnosticsConfig {
                    config_endpoint: ConfigEndpointConfig::resolve(resolver)?,
                },
            },
        )
    }
}

/// What could give access is never shown: the path of the private key, and the URLs that keys come
/// from, which may hold credentials, are sensitive in every configuration.
pub proof fn law_secrets_are_sensitive(config: Config, resolver: Resolver)
    requires
        config.faithful(resolver),
    ensures
        config.tls.key_path.sensitive,
        match config.auth.jwt.source {
            JwtSource::PublicKeyUrl(value) => value.sensitive,
            JwtSource::JwksUrl(value) => value.sensitive,
            _ => true,
        },
{
}

/// Why a configuration could not be loaded.
#[derive(Debug, PartialEq, Eq)]
pub enum LoadError {
    /// The configuration file could not be read. `shown` is its path in quotes.
    Unreadable { shown: String },
    /// The configuration file is not a TOML document. `shown` is its path in quotes.
    Malformed { shown: String },
    /// A knob, or a constraint between knobs.
    Invalid(ConfigError),
}

impl LoadError {
    /// The text of the message.
    pub open spec fn text(self) -> Seq<char> {
        match self {
            LoadError::Unreadable { shown } => "failed to read config file "@ + shown@,
            LoadError::Malformed { shown } => "failed to parse config file "@ + shown@,
            LoadError::Invalid(error) => error.text(),
        }
    }

    /// The message to show.
    pub fn message(&self) -> (message: String)
        ensures
            message@ == self.text(),
    {
        match self {
            LoadError::Unreadable { shown } => {
                let mut message: String = "failed to read config file ".to_owned();
                message.append(shown.as_str());
                message
            },
            LoadError::Malformed { shown } => {
                let mut message: String = "failed to parse config file ".to_owned();
                message.append(shown.as_str());
                message
            },
            LoadError::Invalid(error) => error.message(),
        }
    }
}

/// Finds out which configuration file to read, if any.
pub fn config_file(arguments: &clap::ArgMatches) -> (outcome: Result<
    Value<Option<FsPath>>,
    ConfigError,
>)
    ensures
        comes_to(
            outcome,
            parameters::config_file(),
            parameters::config_file().expected(*arguments, None),
        ),
{
    parameters::config_file().resolve(arguments, None)
}

/// What there is to load once the configuration file was read.
pub enum Loadable {
    /// No file was named.
    Nothing,
    /// The file that was named could not be read.
    Unreadable,
    /// The content of the file is not a TOML document.
    Malformed,
    /// The entries of the content.
    Entries(Map<Seq<char>, Tree>),
}

/// What there is to load, where `content` is what the file that was named holds, if it could be
/// read.
pub open spec fn loadable(config_file: Option<FsPath>, content: Option<String>) -> Loadable {
    match (config_file, content) {
        (None, _) => Loadable::Nothing,
        (Some(_), None) => Loadable::Unreadable,
        (Some(_), Some(content)) => match parsed_document(content@) {
            None => Loadable::Malformed,
            Some(entries) => Loadable::Entries(entries),
        },
    }
}

/// Whether a resolver looks up arguments and what there is to load, where `parse_ip` and
/// `parse_socket` read the network addresses in it.
pub open spec fn looks_up<I: Fn(&str) -> Option<IpAddr>, S: Fn(&str) -> Option<SocketAddr>>(
    resolver: Resolver,
    arguments: clap::ArgMatches,
    loadable: Loadable,
    parse_ip: I,
    parse_socket: S,
) -> bool {
    &&& *resolver.arguments == arguments
    &&& match (resolver.file_config, loadable) {
        (Some(table), Loadable::Entries(entries)) => entries_of(*table) == entries
            && resolver.addresses.stand_in(entries, parse_ip, parse_socket),
        (None, Loadable::Nothing) => true,
        _ => false,
    }
}

/// Loads the configuration, where `content` is what the configuration file that was named holds,
/// if it could be read, `show` puts a path in quotes, and `parse_ip` and `parse_socket` read
/// network addresses.
pub fn load<
    D: Fn(&FsPath) -> String,
    I: Fn(&str) -> Option<IpAddr>,
    S: Fn(&str) -> Option<SocketAddr>,
>(
    arguments: &clap::ArgMatches,
    config_file: Value<Option<FsPath>>,
    content: Option<String>,
    show: D,
    parse_ip: I,
    parse_socket: S,
) -> (outcome: Result<Config, LoadError>)
    requires
        forall|path: &FsPath| show.requires((path,)),
        forall|text: &str| parse_ip.requires((text,)),
        forall|text: &str| parse_socket.requires((text,)),
    ensures
        match outcome {
            Ok(config) => {
                &&& config.well_formed() && config.config_file == config_file
                &&& exists|resolver: Resolver|
                    {
                        &&& looks_up(
                            resolver,
                            *arguments,
                            loadable(config_file.value, content),
                            parse_ip,
                            parse_socket,
                        )
                        &&& Config::flaw(resolver) is None
                        &&& #[trigger] config.faithful(resolver)
                    }
            },
            Err(LoadError::Invalid(error)) => exists|resolver: Resolver|
                {
                    &&& looks_up(
                        resolver,
                        *arguments,
                        loadable(config_file.value, content),
                        parse_ip,
                        parse_socket,
                    )
                    &&& #[trigger] Config::flaw(resolver) == Some(error)
                },
            Err(LoadError::Unreadable { shown }) => {
                &&& loadable(config_file.value, content) is Unreadable
                &&& show.ensures((&config_file.value->0,), shown)
            },
            Err(LoadError::Malformed { shown }) => {
                &&& loadable(config_file.value, content) is Malformed
                &&& show.ensures((&config_file.value->0,), shown)
            },
        },
{
    let table: Option<toml::Table> = match &config_file.value {
        None => None,
        Some(path) => match &content {
            None => return Err(LoadError::Unreadable { shown: show(path) }),
            Some(content) => match parse_document(content.as_str()) {
                Err(_) => return Err(LoadError::Malformed { shown: show(path) }),
                Ok(table) => Some(table),
            },
        },
    };
    let addresses: Addresses = match &table {
        Some(table) => Addresses::read(table, &parse_ip, &parse_socket),
        None => Addresses {
            server: FileLookup::Absent,
            metrics: FileLookup::Absent,
            config_endpoint: FileLookup::Absent,
        },
    };
    let resolver: Resolver = Resolver { arguments, file_config: table.as_ref(), addresses };
    let ghost resolved = resolver;
    match Config::resolve(config_file, resolver) {
        Ok(config) => {
            assert(config.faithful(resolved));
            Ok(config)
        },
        Err(error) => {
            assert(Config::flaw(resolved) == Some(error));
            Err(LoadError::Invalid(error))
        },
    }
}

} // verus!
