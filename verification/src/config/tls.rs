//! How connections are secured.
use crate::config::resolver::{first, flaw_of, Resolver};
use crate::error::ConfigError;
use crate::parameter::{holds, Parameter};
use crate::parameters;
use crate::path::FsPath;
use crate::value::Value;
use vstd::prelude::*;

verus! {

/// How connections are secured.
#[derive(Debug)]
pub struct TlsConfig {
    pub enabled: Value<bool>,
    pub cert_path: Value<Option<FsPath>>,
    pub key_path: Value<Option<FsPath>>,
}

/// That a path is required when TLS is enabled.
#[verifier::allow_in_spec]
pub fn missing_tls_path(parameter: Parameter<Option<FsPath>>) -> ConfigError
    returns
        (ConfigError::TlsPath {
            id: parameter.id,
            argument: parameter.argument,
            environment: parameter.environment,
        }),
{
    ConfigError::TlsPath {
        id: parameter.id,
        argument: parameter.argument,
        environment: parameter.environment,
    }
}

impl TlsConfig {
    /// Whether every knob has the value that the resolver sees.
    pub open spec fn faithful(self, resolver: Resolver) -> bool {
        &&& holds(
            self.enabled,
            parameters::tls_enabled(),
            resolver.sees(parameters::tls_enabled()),
        )
        &&& holds(
            self.cert_path,
            parameters::tls_cert_path(),
            resolver.sees(parameters::tls_cert_path()),
        )
        &&& holds(
            self.key_path,
            parameters::tls_key_path(),
            resolver.sees(parameters::tls_key_path()),
        )
    }

    /// The first thing that is wrong: a knob, or a path that TLS lacks.
    pub open spec fn flaw(resolver: Resolver) -> Option<ConfigError> {
        let enabled = resolver.sees(parameters::tls_enabled());
        let cert_path = resolver.sees(parameters::tls_cert_path());
        let key_path = resolver.sees(parameters::tls_key_path());
        first(
            flaw_of(enabled),
            first(
                flaw_of(cert_path),
                first(
                    flaw_of(key_path),
                    if !enabled->Ok_0.0 {
                        None
                    } else if cert_path->Ok_0.0 is None {
                        Some(missing_tls_path(parameters::tls_cert_path()))
                    } else if key_path->Ok_0.0 is None {
                        Some(missing_tls_path(parameters::tls_key_path()))
                    } else {
                        None
                    },
                ),
            ),
        )
    }

    /// Where TLS is enabled, both paths are there.
    pub open spec fn well_formed(self) -> bool {
        self.enabled.value ==> self.cert_path.value is Some && self.key_path.value is Some
    }

    /// Finds the values of the knobs.
    pub fn resolve(resolver: Resolver<'_>) -> (outcome: Result<TlsConfig, ConfigError>)
        ensures
            match outcome {
                Ok(config) => TlsConfig::flaw(resolver) is None && config.faithful(resolver)
                    && config.well_formed(),
                Err(error) => TlsConfig::flaw(resolver) == Some(error),
            },
    {
        let enabled: Value<bool> = resolver.resolve(&parameters::tls_enabled())?;
        let cert_path: Value<Option<FsPath>> = resolver.resolve(&parameters::tls_cert_path())?;
        let key_path: Value<Option<FsPath>> = resolver.resolve(&parameters::tls_key_path())?;
        if enabled.value {
            if cert_path.value.is_none() {
                return Err(missing_tls_path(parameters::tls_cert_path()));
            }
            if key_path.value.is_none() {
                return Err(missing_tls_path(parameters::tls_key_path()));
            }
        }
        Ok(TlsConfig { enabled, cert_path, key_path })
    }
}

} // verus!
