//! Which other origins may send requests.
use crate::config::resolver::{as_written, first, flaw_of, Resolver};
use crate::duration::Duration;
use crate::error::ConfigError;
use crate::parameter::holds;
use crate::parameters;
use crate::scalars::{is_method, Method};
use crate::value::Value;
use vstd::prelude::*;

verus! {

/// Which other origins may send requests.
#[derive(Debug)]
pub struct CorsConfig {
    pub enabled: Value<bool>,
    pub allowed_origins: Value<Vec<String>>,
    pub allowed_methods: Value<Vec<Method>>,
    pub allowed_request_headers: Value<Vec<String>>,
    pub exposed_response_headers: Value<Vec<String>>,
    pub max_age: Value<Duration>,
    pub allow_credentials: Value<bool>,
    pub allow_private_network: Value<bool>,
}

/// Whether all texts are methods.
pub open spec fn all_methods(texts: Seq<Seq<char>>) -> bool {
    forall|i: int| 0 <= i < texts.len() ==> is_method(#[trigger] texts[i])
}

/// Reads methods.
pub fn parse_methods(texts: Vec<String>) -> (outcome: Result<Vec<Method>, ConfigError>)
    ensures
        match outcome {
            Ok(methods) => all_methods(texts.deep_view()) && methods.deep_view()
                == texts.deep_view(),
            Err(error) => !all_methods(texts.deep_view()) && error == ConfigError::CorsMethod,
        },
{
    let mut methods: Vec<Method> = Vec::new();
    let mut at: usize = 0;
    while at < texts.len()
        invariant
            at <= texts.len(),
            methods.len() == at,
            forall|i: int|
                0 <= i < at ==> is_method(#[trigger] texts.deep_view()[i]) && methods[i]@
                    == texts.deep_view()[i],
        decreases texts.len() - at,
    {
        assert(texts.deep_view()[at as int] == texts[at as int]@);
        match Method::parse(texts[at].as_str()) {
            None => {
                return Err(ConfigError::CorsMethod);
            },
            Some(method) => {
                methods.push(method);
            },
        }
        at = at + 1;
    }
    assert(methods.deep_view() =~= texts.deep_view());
    Ok(methods)
}

impl CorsConfig {
    /// Whether every knob has the value that the resolver sees. The methods are those whose names
    /// the knob holds.
    pub open spec fn faithful(self, resolver: Resolver) -> bool {
        &&& holds(
            self.enabled,
            parameters::cors_enabled(),
            resolver.sees(parameters::cors_enabled()),
        )
        &&& holds(
            self.allowed_origins,
            parameters::cors_allowed_origins(),
            resolver.sees(parameters::cors_allowed_origins()),
        )
        &&& holds(
            self.allowed_methods,
            parameters::cors_allowed_methods(),
            resolver.sees(parameters::cors_allowed_methods()),
        )
        &&& holds(
            self.allowed_request_headers,
            parameters::cors_allowed_request_headers(),
            resolver.sees(parameters::cors_allowed_request_headers()),
        )
        &&& holds(
            self.exposed_response_headers,
            parameters::cors_exposed_response_headers(),
            resolver.sees(parameters::cors_exposed_response_headers()),
        )
        &&& holds(
            as_written(self.max_age),
            parameters::cors_max_age(),
            resolver.sees(parameters::cors_max_age()),
        )
        &&& holds(
            self.allow_credentials,
            parameters::cors_allow_credentials(),
            resolver.sees(parameters::cors_allow_credentials()),
        )
        &&& holds(
            self.allow_private_network,
            parameters::cors_allow_private_network(),
            resolver.sees(parameters::cors_allow_private_network()),
        )
    }

    /// The first thing that is wrong: a knob, a lack of origins, or something that is no method.
    pub open spec fn flaw(resolver: Resolver) -> Option<ConfigError> {
        let enabled = resolver.sees(parameters::cors_enabled());
        let origins = resolver.sees(parameters::cors_allowed_origins());
        let methods = resolver.sees(parameters::cors_allowed_methods());
        first(
            flaw_of(enabled),
            first(
                flaw_of(origins),
                if enabled->Ok_0.0 && origins->Ok_0.0.len() == 0 {
                    Some(ConfigError::CorsOrigins)
                } else {
                    first(
                        flaw_of(methods),
                        if !all_methods(methods->Ok_0.0) {
                            Some(ConfigError::CorsMethod)
                        } else {
                            CorsConfig::later_flaw(resolver)
                        },
                    )
                },
            ),
        )
    }

    /// The first knob after the methods with something wrong.
    pub open spec fn later_flaw(resolver: Resolver) -> Option<ConfigError> {
        first(
            flaw_of(resolver.sees(parameters::cors_allowed_request_headers())),
            first(
                flaw_of(resolver.sees(parameters::cors_exposed_response_headers())),
                first(
                    flaw_of(resolver.sees(parameters::cors_max_age())),
                    first(
                        flaw_of(resolver.sees(parameters::cors_allow_credentials())),
                        flaw_of(resolver.sees(parameters::cors_allow_private_network())),
                    ),
                ),
            ),
        )
    }

    /// Where CORS is enabled, there is an allowed origin. The methods are methods.
    pub open spec fn well_formed(self) -> bool {
        &&& self.enabled.value ==> self.allowed_origins.value@.len() > 0
        &&& all_methods(self.allowed_methods.value.deep_view())
    }

    /// Finds the values of the knobs.
    pub fn resolve(resolver: Resolver<'_>) -> (outcome: Result<CorsConfig, ConfigError>)
        ensures
            match outcome {
                Ok(config) => CorsConfig::flaw(resolver) is None && config.faithful(resolver)
                    && config.well_formed(),
                Err(error) => CorsConfig::flaw(resolver) == Some(error),
            },
    {
        let enabled: Value<bool> = resolver.resolve(&parameters::cors_enabled())?;
        let allowed_origins: Value<Vec<String>> = resolver.resolve(
            &parameters::cors_allowed_origins(),
        )?;
        if enabled.value && allowed_origins.value.is_empty() {
            return Err(ConfigError::CorsOrigins);
        }
        let methods: Value<Vec<String>> = resolver.resolve(&parameters::cors_allowed_methods())?;
        let parse = |texts: Vec<String>| -> (outcome: Result<Vec<Method>, ConfigError>)
            ensures
                match outcome {
                    Ok(methods) => all_methods(texts.deep_view()) && methods.deep_view()
                        == texts.deep_view(),
                    Err(error) => !all_methods(texts.deep_view()) && error
                        == ConfigError::CorsMethod,
                },
        {
            parse_methods(texts)
        };
        Ok(
            CorsConfig {
                enabled,
                allowed_origins,
                allowed_methods: methods.try_map(parse)?,
                allowed_request_headers: resolver.resolve(
                    &parameters::cors_allowed_request_headers(),
                )?,
                exposed_response_headers: resolver.resolve(
                    &parameters::cors_exposed_response_headers(),
                )?,
                max_age: resolver.resolve_span(&parameters::cors_max_age())?,
                allow_credentials: resolver.resolve(&parameters::cors_allow_credentials())?,
                allow_private_network: resolver.resolve(
                    &parameters::cors_allow_private_network(),
                )?,
            },
        )
    }
}

} // verus!
