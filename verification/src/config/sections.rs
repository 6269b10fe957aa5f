//! The sections of the configuration whose knobs do not depend on each other.
use crate::choices::{LogFormat, LogLevel};
use crate::config::resolver::{as_written, first, flaw_of, Resolver};
use crate::duration::Duration;
use crate::error::ConfigError;
use crate::parameter::holds;
use crate::parameters;
use crate::scalars::{ByteSize, IpAddr, SocketAddr, Url};
use crate::value::Value;
use vstd::prelude::*;

verus! {

/// Where the server listens.
#[derive(Debug)]
pub struct ServerConfig {
    pub bind_address: Value<IpAddr>,
    pub port: Value<u16>,
    pub public_base_url: Value<Option<Url>>,
}

impl ServerConfig {
    /// Whether every knob has the value that the resolver sees.
    pub open spec fn faithful(self, resolver: Resolver) -> bool {
        &&& holds(
            self.bind_address,
            parameters::server_bind_address(),
            resolver.sees_address(parameters::server_bind_address(), resolver.addresses.server),
        )
        &&& holds(
            self.port,
            parameters::server_port(),
            resolver.sees(parameters::server_port()),
        )
        &&& holds(
            self.public_base_url,
            parameters::server_public_base_url(),
            resolver.sees(parameters::server_public_base_url()),
        )
    }

    /// The first knob with something wrong.
    pub open spec fn flaw(resolver: Resolver) -> Option<ConfigError> {
        first(
            flaw_of(resolver.sees_address(parameters::server_bind_address(), resolver.addresses.server)),
            first(
                flaw_of(resolver.sees(parameters::server_port())),
                flaw_of(resolver.sees(parameters::server_public_base_url())),
            ),
        )
    }

    /// Finds the values of the knobs.
    pub fn resolve(resolver: Resolver<'_>) -> (outcome: Result<ServerConfig, ConfigError>)
        ensures
            match outcome {
                Ok(config) => ServerConfig::flaw(resolver) is None && config.faithful(resolver),
                Err(error) => ServerConfig::flaw(resolver) == Some(error),
            },
    {
        Ok(
            ServerConfig {
                bind_address: resolver.resolve_address(&parameters::server_bind_address(), resolver.addresses.server)?,
                port: resolver.resolve(&parameters::server_port())?,
                public_base_url: resolver.resolve(&parameters::server_public_base_url())?,
            },
        )
    }
}

/// Which operations are allowed.
#[derive(Debug)]
pub struct OperationsConfig {
    pub allow_recursive_delete: Value<bool>,
    pub allow_recursive_copy: Value<bool>,
    pub allow_chmod: Value<bool>,
    pub allow_hard_links: Value<bool>,
    pub allow_symlink_create: Value<bool>,
}

impl OperationsConfig {
    /// Whether every knob has the value that the resolver sees.
    pub open spec fn faithful(self, resolver: Resolver) -> bool {
        &&& holds(
            self.allow_recursive_delete,
            parameters::operations_allow_recursive_delete(),
            resolver.sees(parameters::operations_allow_recursive_delete()),
        )
        &&& holds(
            self.allow_recursive_copy,
            parameters::operations_allow_recursive_copy(),
            resolver.sees(parameters::operations_allow_recursive_copy()),
        )
        &&& holds(
            self.allow_chmod,
            parameters::operations_allow_chmod(),
            resolver.sees(parameters::operations_allow_chmod()),
        )
        &&& holds(
            self.allow_hard_links,
            parameters::operations_allow_hard_links(),
            resolver.sees(parameters::operations_allow_hard_links()),
        )
        &&& holds(
            self.allow_symlink_create,
            parameters::operations_allow_symlink_create(),
            resolver.sees(parameters::operations_allow_symlink_create()),
        )
    }

    /// The first knob with something wrong.
    pub open spec fn flaw(resolver: Resolver) -> Option<ConfigError> {
        first(
            flaw_of(resolver.sees(parameters::operations_allow_recursive_delete())),
            first(
                flaw_of(resolver.sees(parameters::operations_allow_recursive_copy())),
                first(
                    flaw_of(resolver.sees(parameters::operations_allow_chmod())),
                    first(
                        flaw_of(resolver.sees(parameters::operations_allow_hard_links())),
                        flaw_of(resolver.sees(parameters::operations_allow_symlink_create())),
                    ),
                ),
            ),
        )
    }

    /// Finds the values of the knobs.
    pub fn resolve(resolver: Resolver<'_>) -> (outcome: Result<OperationsConfig, ConfigError>)
        ensures
            match outcome {
                Ok(config) => OperationsConfig::flaw(resolver) is None && config.faithful(resolver),
                Err(error) => OperationsConfig::flaw(resolver) == Some(error),
            },
    {
        Ok(
            OperationsConfig {
                allow_recursive_delete: resolver.resolve(&parameters::operations_allow_recursive_delete())?,
                allow_recursive_copy: resolver.resolve(&parameters::operations_allow_recursive_copy())?,
                allow_chmod: resolver.resolve(&parameters::operations_allow_chmod())?,
                allow_hard_links: resolver.resolve(&parameters::operations_allow_hard_links())?,
                allow_symlink_create: resolver.resolve(&parameters::operations_allow_symlink_create())?,
            },
        )
    }
}

/// How much a client can ask for.
#[derive(Debug)]
pub struct LimitsConfig {
    pub max_request_body_size: Value<ByteSize>,
    pub max_read_size: Value<ByteSize>,
    pub max_directory_entries: Value<u32>,
    pub max_concurrent_requests: Value<u32>,
    pub max_concurrent_streams: Value<u32>,
}

impl LimitsConfig {
    /// Whether every knob has the value that the resolver sees.
    pub open spec fn faithful(self, resolver: Resolver) -> bool {
        &&& holds(
            self.max_request_body_size,
            parameters::limits_max_request_body_size(),
            resolver.sees(parameters::limits_max_request_body_size()),
        )
        &&& holds(
            self.max_read_size,
            parameters::limits_max_read_size(),
            resolver.sees(parameters::limits_max_read_size()),
        )
        &&& holds(
            self.max_directory_entries,
            parameters::limits_max_directory_entries(),
            resolver.sees(parameters::limits_max_directory_entries()),
        )
        &&& holds(
            self.max_concurrent_requests,
            parameters::limits_max_concurrent_requests(),
            resolver.sees(parameters::limits_max_concurrent_requests()),
        )
        &&& holds(
            self.max_concurrent_streams,
            parameters::limits_max_concurrent_streams(),
            resolver.sees(parameters::limits_max_concurrent_streams()),
        )
    }

    /// The first knob with something wrong.
    pub open spec fn flaw(resolver: Resolver) -> Option<ConfigError> {
        first(
            flaw_of(resolver.sees(parameters::limits_max_request_body_size())),
            first(
                flaw_of(resolver.sees(parameters::limits_max_read_size())),
                first(
                    flaw_of(resolver.sees(parameters::limits_max_directory_entries())),
                    first(
                        flaw_of(resolver.sees(parameters::limits_max_concurrent_requests())),
                        flaw_of(resolver.sees(parameters::limits_max_concurrent_streams())),
                    ),
                ),
            ),
        )
    }

    /// Finds the values of the knobs.
    pub fn resolve(resolver: Resolver<'_>) -> (outcome: Result<LimitsConfig, ConfigError>)
        ensures
            match outcome {
                Ok(config) => LimitsConfig::flaw(resolver) is None && config.faithful(resolver),
                Err(error) => LimitsConfig::flaw(resolver) == Some(error),
            },
    {
        Ok(
            LimitsConfig {
                max_request_body_size: resolver.resolve(&parameters::limits_max_request_body_size())?,
                max_read_size: resolver.resolve(&parameters::limits_max_read_size())?,
                max_directory_entries: resolver.resolve(&parameters::limits_max_directory_entries())?,
                max_concurrent_requests: resolver.resolve(&parameters::limits_max_concurrent_requests())?,
                max_concurrent_streams: resolver.resolve(&parameters::limits_max_concurrent_streams())?,
            },
        )
    }
}

/// How streams are kept.
#[derive(Debug)]
pub struct StreamingConfig {
    pub idle_timeout: Value<Duration>,
    pub max_duration: Value<Duration>,
    pub heartbeat_interval: Value<Duration>,
    pub allow_path_follow: Value<bool>,
}

impl StreamingConfig {
    /// Whether every knob has the value that the resolver sees.
    pub open spec fn faithful(self, resolver: Resolver) -> bool {
        &&& holds(
            as_written(self.idle_timeout),
            parameters::streaming_idle_timeout(),
            resolver.sees(parameters::streaming_idle_timeout()),
        )
        &&& holds(
            as_written(self.max_duration),
            parameters::streaming_max_duration(),
            resolver.sees(parameters::streaming_max_duration()),
        )
        &&& holds(
            as_written(self.heartbeat_interval),
            parameters::streaming_heartbeat_interval(),
            resolver.sees(parameters::streaming_heartbeat_interval()),
        )
        &&& holds(
            self.allow_path_follow,
            parameters::streaming_allow_path_follow(),
            resolver.sees(parameters::streaming_allow_path_follow()),
        )
    }

    /// The first knob with something wrong.
    pub open spec fn flaw(resolver: Resolver) -> Option<ConfigError> {
        first(
            flaw_of(resolver.sees(parameters::streaming_idle_timeout())),
            first(
                flaw_of(resolver.sees(parameters::streaming_max_duration())),
                first(
                    flaw_of(resolver.sees(parameters::streaming_heartbeat_interval())),
                    flaw_of(resolver.sees(parameters::streaming_allow_path_follow())),
                ),
            ),
        )
    }

    /// Finds the values of the knobs.
    pub fn resolve(resolver: Resolver<'_>) -> (outcome: Result<StreamingConfig, ConfigError>)
        ensures
            match outcome {
                Ok(config) => StreamingConfig::flaw(resolver) is None && config.faithful(resolver),
                Err(error) => StreamingConfig::flaw(resolver) == Some(error),
            },
    {
        Ok(
            StreamingConfig {
                idle_timeout: resolver.resolve_span(&parameters::streaming_idle_timeout())?,
                max_duration: resolver.resolve_span(&parameters::streaming_max_duration())?,
                heartbeat_interval: resolver.resolve_span(&parameters::streaming_heartbeat_interval())?,
                allow_path_follow: resolver.resolve(&parameters::streaming_allow_path_follow())?,
            },
        )
    }
}

/// How workers are kept.
#[derive(Debug)]
pub struct PoolConfig {
    pub max_workers: Value<u32>,
    pub idle_timeout: Value<Duration>,
    pub request_timeout: Value<Duration>,
}

impl PoolConfig {
    /// Whether every knob has the value that the resolver sees.
    pub open spec fn faithful(self, resolver: Resolver) -> bool {
        &&& holds(
            self.max_workers,
            parameters::pool_max_workers(),
            resolver.sees(parameters::pool_max_workers()),
        )
        &&& holds(
            as_written(self.idle_timeout),
            parameters::pool_idle_timeout(),
            resolver.sees(parameters::pool_idle_timeout()),
        )
        &&& holds(
            as_written(self.request_timeout),
            parameters::pool_request_timeout(),
            resolver.sees(parameters::pool_request_timeout()),
        )
    }

    /// The first knob with something wrong.
    pub open spec fn flaw(resolver: Resolver) -> Option<ConfigError> {
        first(
            flaw_of(resolver.sees(parameters::pool_max_workers())),
            first(
                flaw_of(resolver.sees(parameters::pool_idle_timeout())),
                flaw_of(resolver.sees(parameters::pool_request_timeout())),
            ),
        )
    }

    /// Finds the values of the knobs.
    pub fn resolve(resolver: Resolver<'_>) -> (outcome: Result<PoolConfig, ConfigError>)
        ensures
            match outcome {
                Ok(config) => PoolConfig::flaw(resolver) is None && config.faithful(resolver),
                Err(error) => PoolConfig::flaw(resolver) == Some(error),
            },
    {
        Ok(
            PoolConfig {
                max_workers: resolver.resolve(&parameters::pool_max_workers())?,
                idle_timeout: resolver.resolve_span(&parameters::pool_idle_timeout())?,
                request_timeout: resolver.resolve_span(&parameters::pool_request_timeout())?,
            },
        )
    }
}

/// What is logged.
#[derive(Debug)]
pub struct LoggingConfig {
    pub level: Value<LogLevel>,
    pub format: Value<LogFormat>,
    pub redact_paths: Value<bool>,
}

impl LoggingConfig {
    /// Whether every knob has the value that the resolver sees.
    pub open spec fn faithful(self, resolver: Resolver) -> bool {
        &&& holds(
            self.level,
            parameters::logging_level(),
            resolver.sees(parameters::logging_level()),
        )
        &&& holds(
            self.format,
            parameters::logging_format(),
            resolver.sees(parameters::logging_format()),
        )
        &&& holds(
            self.redact_paths,
            parameters::logging_redact_paths(),
            resolver.sees(parameters::logging_redact_paths()),
        )
    }

    /// The first knob with something wrong.
    pub open spec fn flaw(resolver: Resolver) -> Option<ConfigError> {
        first(
            flaw_of(resolver.sees(parameters::logging_level())),
            first(
                flaw_of(resolver.sees(parameters::logging_format())),
                flaw_of(resolver.sees(parameters::logging_redact_paths())),
            ),
        )
    }

    /// Finds the values of the knobs.
    pub fn resolve(resolver: Resolver<'_>) -> (outcome: Result<LoggingConfig, ConfigError>)
        ensures
            match outcome {
                Ok(config) => LoggingConfig::flaw(resolver) is None && config.faithful(resolver),
                Err(error) => LoggingConfig::flaw(resolver) == Some(error),
            },
    {
        Ok(
            LoggingConfig {
                level: resolver.resolve(&parameters::logging_level())?,
                format: resolver.resolve(&parameters::logging_format())?,
                redact_paths: resolver.resolve(&parameters::logging_redact_paths())?,
            },
        )
    }
}

/// Where metrics are served.
#[derive(Debug)]
pub struct MetricsConfig {
    pub enabled: Value<bool>,
    pub bind_address: Value<IpAddr>,
    pub port: Value<u16>,
}

impl MetricsConfig {
    /// Whether every knob has the value that the resolver sees.
    pub open spec fn faithful(self, resolver: Resolver) -> bool {
        &&& holds(
            self.enabled,
            parameters::metrics_enabled(),
            resolver.sees(parameters::metrics_enabled()),
        )
        &&& holds(
            self.bind_address,
            parameters::metrics_bind_address(),
            resolver.sees_address(parameters::metrics_bind_address(), resolver.addresses.metrics),
        )
        &&& holds(
            self.port,
            parameters::metrics_port(),
            resolver.sees(parameters::metrics_port()),
        )
    }

    /// The first knob with something wrong.
    pub open spec fn flaw(resolver: Resolver) -> Option<ConfigError> {
        first(
            flaw_of(resolver.sees(parameters::metrics_enabled())),
            first(
                flaw_of(resolver.sees_address(parameters::metrics_bind_address(), resolver.addresses.metrics)),
                flaw_of(resolver.sees(parameters::metrics_port())),
            ),
        )
    }

    /// Finds the values of the knobs.
    pub fn resolve(resolver: Resolver<'_>) -> (outcome: Result<MetricsConfig, ConfigError>)
        ensures
            match outcome {
                Ok(config) => MetricsConfig::flaw(resolver) is None && config.faithful(resolver),
                Err(error) => MetricsConfig::flaw(resolver) == Some(error),
            },
    {
        Ok(
            MetricsConfig {
                enabled: resolver.resolve(&parameters::metrics_enabled())?,
                bind_address: resolver.resolve_address(&parameters::metrics_bind_address(), resolver.addresses.metrics)?,
                port: resolver.resolve(&parameters::metrics_port())?,
            },
        )
    }
}

/// Where the configuration is served.
#[derive(Debug)]
pub struct ConfigEndpointConfig {
    pub enabled: Value<bool>,
    pub bind_address: Value<SocketAddr>,
}

impl ConfigEndpointConfig {
    /// Whether every knob has the value that the resolver sees.
    pub open spec fn faithful(self, resolver: Resolver) -> bool {
        &&& holds(
            self.enabled,
            parameters::diagnostics_config_endpoint_enabled(),
            resolver.sees(parameters::diagnostics_config_endpoint_enabled()),
        )
        &&& holds(
            self.bind_address,
            parameters::diagnostics_config_endpoint_bind_address(),
            resolver.sees_address(parameters::diagnostics_config_endpoint_bind_address(), resolver.addresses.config_endpoint),
        )
    }

    /// The first knob with something wrong.
    pub open spec fn flaw(resolver: Resolver) -> Option<ConfigError> {
        first(
            flaw_of(resolver.sees(parameters::diagnostics_config_endpoint_enabled())),
            flaw_of(resolver.sees_address(parameters::diagnostics_config_endpoint_bind_address(), resolver.addresses.config_endpoint)),
        )
    }

    /// Finds the values of the knobs.
    pub fn resolve(resolver: Resolver<'_>) -> (outcome: Result<ConfigEndpointConfig, ConfigError>)
        ensures
            match outcome {
                Ok(config) => ConfigEndpointConfig::flaw(resolver) is None && config.faithful(resolver),
                Err(error) => ConfigEndpointConfig::flaw(resolver) == Some(error),
            },
    {
        Ok(
            ConfigEndpointConfig {
                enabled: resolver.resolve(&parameters::diagnostics_config_endpoint_enabled())?,
                bind_address: resolver.resolve_address(&parameters::diagnostics_config_endpoint_bind_address(), resolver.addresses.config_endpoint)?,
            },
        )
    }
}

/// What helps to find out what the server does.
#[derive(Debug)]
pub struct DiagnosticsConfig {
    pub config_endpoint: ConfigEndpointConfig,
}

} // verus!
