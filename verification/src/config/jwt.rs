//! How tokens are checked, and where the keys for that come from.
use crate::config::resolver::{as_written, first, flaw_of, Resolver};
use crate::duration::Duration;
use crate::error::ConfigError;
use crate::parameter::{holds, Parameter};
use crate::parameters;
use crate::path::FsPath;
use crate::scalars::Url;
use crate::value::{Value, ValueSource};
use vstd::prelude::*;

verus! {

/// Where the keys come from.
#[derive(Debug)]
pub enum JwtSource {
    PublicKeyPath(Value<FsPath>),
    PublicKeyUrl(Value<Url>),
    JwksPath(Value<FsPath>),
    JwksUrl(Value<Url>),
}

/// Which kind of place keys come from.
#[derive(Debug, Clone, Copy, PartialEq, Eq, Structural)]
pub enum JwtKind {
    PublicKeyPath,
    PublicKeyUrl,
    JwksPath,
    JwksUrl,
}

impl JwtKind {
    /// Whether it is a key set.
    pub open spec fn is_jwks(self) -> bool {
        self == JwtKind::JwksPath || self == JwtKind::JwksUrl
    }
}

/// A place that keys could come from: the name of its knob, where the knob was set, and whether it
/// has a value.
#[derive(Debug, Clone, Copy)]
pub struct Candidate {
    pub id: &'static str,
    pub source: ValueSource,
    pub present: bool,
}

impl Candidate {
    /// Whether the knob was set at all.
    #[verifier::allow_in_spec]
    pub fn is_set(self) -> bool
        returns
            self.source != ValueSource::Default,
    {
        self.source != ValueSource::Default
    }
}

impl<T> Value<Option<T>> {
    /// The knob as a place that keys could come from.
    #[verifier::allow_in_spec]
    pub fn candidate(&self) -> Candidate
        returns
            (Candidate { id: self.id, source: self.source, present: self.value is Some }),
    {
        Candidate { id: self.id, source: self.source, present: self.value.is_some() }
    }
}

/// What comes of two places of the same sort: the one that was set in the place with the higher
/// precedence wins, and there is no winner where both were set in the same place.
pub open spec fn winner(
    left: Candidate,
    left_kind: JwtKind,
    right: Candidate,
    right_kind: JwtKind,
) -> Result<JwtKind, ConfigError> {
    if !left.is_set() && !right.is_set() {
        Err(ConfigError::JwtMissing)
    } else if left.source == right.source {
        Err(
            ConfigError::JwtConflict { first: left.id, second: right.id, source: left.source },
        )
    } else if left.source.rank() > right.source.rank() {
        if left.present {
            Ok(left_kind)
        } else {
            Err(ConfigError::JwtValue)
        }
    } else {
        if right.present {
            Ok(right_kind)
        } else {
            Err(ConfigError::JwtValue)
        }
    }
}

/// Which place keys come from. Where a key set was set, public keys do not count.
pub open spec fn choice(
    public_key_path: Candidate,
    public_key_url: Candidate,
    jwks_path: Candidate,
    jwks_url: Candidate,
) -> Result<JwtKind, ConfigError> {
    if jwks_path.is_set() || jwks_url.is_set() {
        winner(jwks_path, JwtKind::JwksPath, jwks_url, JwtKind::JwksUrl)
    } else {
        winner(
            public_key_path,
            JwtKind::PublicKeyPath,
            public_key_url,
            JwtKind::PublicKeyUrl,
        )
    }
}

/// Picks the winner of two places of the same sort.
fn pick(
    left: Candidate,
    left_kind: JwtKind,
    right: Candidate,
    right_kind: JwtKind,
) -> (outcome: Result<JwtKind, ConfigError>)
    ensures
        outcome == winner(left, left_kind, right, right_kind),
{
    if !left.is_set() && !right.is_set() {
        return Err(ConfigError::JwtMissing);
    }
    if left.source == right.source {
        return Err(
            ConfigError::JwtConflict { first: left.id, second: right.id, source: left.source },
        );
    }
    let (best, kind): (Candidate, JwtKind) = if left.source.outranks(right.source) {
        (left, left_kind)
    } else {
        (right, right_kind)
    };
    if best.present {
        Ok(kind)
    } else {
        Err(ConfigError::JwtValue)
    }
}

impl JwtSource {
    /// Which kind of place it is.
    pub open spec fn kind(self) -> JwtKind {
        match self {
            JwtSource::PublicKeyPath(_) => JwtKind::PublicKeyPath,
            JwtSource::PublicKeyUrl(_) => JwtKind::PublicKeyUrl,
            JwtSource::JwksPath(_) => JwtKind::JwksPath,
            JwtSource::JwksUrl(_) => JwtKind::JwksUrl,
        }
    }

    /// Chooses the place that keys come from. Each knob keeps its value and its provenance.
    pub fn resolve(
        public_key_path: Value<Option<FsPath>>,
        public_key_url: Value<Option<Url>>,
        jwks_path: Value<Option<FsPath>>,
        jwks_url: Value<Option<Url>>,
    ) -> (outcome: Result<JwtSource, ConfigError>)
        ensures
            match outcome {
                Ok(source) => choice(
                    public_key_path.candidate(),
                    public_key_url.candidate(),
                    jwks_path.candidate(),
                    jwks_url.candidate(),
                ) == Ok::<JwtKind, ConfigError>(source.kind()) && match source {
                    JwtSource::PublicKeyPath(value) => public_key_path == value.with(
                        Some(value.value),
                    ),
                    JwtSource::PublicKeyUrl(value) => public_key_url == value.with(
                        Some(value.value),
                    ),
                    JwtSource::JwksPath(value) => jwks_path == value.with(Some(value.value)),
                    JwtSource::JwksUrl(value) => jwks_url == value.with(Some(value.value)),
                },
                Err(error) => choice(
                    public_key_path.candidate(),
                    public_key_url.candidate(),
                    jwks_path.candidate(),
                    jwks_url.candidate(),
                ) == Err::<JwtKind, ConfigError>(error),
            },
    {
        let kind: JwtKind = if jwks_path.candidate().is_set() || jwks_url.candidate().is_set() {
            pick(
                jwks_path.candidate(),
                JwtKind::JwksPath,
                jwks_url.candidate(),
                JwtKind::JwksUrl,
            )?
        } else {
            pick(
                public_key_path.candidate(),
                JwtKind::PublicKeyPath,
                public_key_url.candidate(),
                JwtKind::PublicKeyUrl,
            )?
        };
        let source: Option<JwtSource> = match kind {
            JwtKind::PublicKeyPath => match public_key_path.transpose() {
                Some(value) => Some(JwtSource::PublicKeyPath(value)),
                None => None,
            },
            JwtKind::PublicKeyUrl => match public_key_url.transpose() {
                Some(value) => Some(JwtSource::PublicKeyUrl(value)),
                None => None,
            },
            JwtKind::JwksPath => match jwks_path.transpose() {
                Some(value) => Some(JwtSource::JwksPath(value)),
                None => None,
            },
            JwtKind::JwksUrl => match jwks_url.transpose() {
                Some(value) => Some(JwtSource::JwksUrl(value)),
                None => None,
            },
        };
        match source {
            Some(source) => Ok(source),
            None => Err(ConfigError::JwtValue),
        }
    }
}

/// How tokens are checked.
#[derive(Debug)]
pub struct JwtConfig {
    pub source: JwtSource,
    pub issuer: Value<Option<String>>,
    pub require_issuer: Value<bool>,
    pub audience: Value<Option<String>>,
    pub require_audience: Value<bool>,
    pub username_claim: Value<String>,
    pub remote_key_refresh_interval: Value<Duration>,
}

/// How users are told apart.
#[derive(Debug)]
pub struct AuthConfig {
    pub jwt: JwtConfig,
}

/// A knob that the resolver sees, as a place that keys could come from.
pub open spec fn seen<S, V>(
    parameter: Parameter<S>,
    expected: Result<(Option<V>, ValueSource), ConfigError>,
) -> Candidate {
    Candidate {
        id: parameter.id,
        source: expected->Ok_0.1,
        present: expected->Ok_0.0 is Some,
    }
}

impl JwtConfig {
    /// Which place the resolver sees that keys come from.
    pub open spec fn choice_seen(resolver: Resolver) -> Result<JwtKind, ConfigError> {
        choice(
            seen(
                parameters::auth_jwt_public_key_path(),
                resolver.sees(parameters::auth_jwt_public_key_path()),
            ),
            seen(
                parameters::auth_jwt_public_key_url(),
                resolver.sees(parameters::auth_jwt_public_key_url()),
            ),
            seen(
                parameters::auth_jwt_jwks_path(),
                resolver.sees(parameters::auth_jwt_jwks_path()),
            ),
            seen(
                parameters::auth_jwt_jwks_url(),
                resolver.sees(parameters::auth_jwt_jwks_url()),
            ),
        )
    }

    /// Whether every knob has the value that the resolver sees, and the place that keys come from
    /// is the right one.
    pub open spec fn faithful(self, resolver: Resolver) -> bool {
        &&& JwtConfig::choice_seen(resolver) == Ok::<JwtKind, ConfigError>(self.source.kind())
        &&& match self.source {
            JwtSource::PublicKeyPath(value) => holds(
                value.with(Some(value.value)),
                parameters::auth_jwt_public_key_path(),
                resolver.sees(parameters::auth_jwt_public_key_path()),
            ),
            JwtSource::PublicKeyUrl(value) => holds(
                value.with(Some(value.value)),
                parameters::auth_jwt_public_key_url(),
                resolver.sees(parameters::auth_jwt_public_key_url()),
            ),
            JwtSource::JwksPath(value) => holds(
                value.with(Some(value.value)),
                parameters::auth_jwt_jwks_path(),
                resolver.sees(parameters::auth_jwt_jwks_path()),
            ),
            JwtSource::JwksUrl(value) => holds(
                value.with(Some(value.value)),
                parameters::auth_jwt_jwks_url(),
                resolver.sees(parameters::auth_jwt_jwks_url()),
            ),
        }
        &&& holds(
            self.issuer,
            parameters::auth_jwt_issuer(),
            resolver.sees(parameters::auth_jwt_issuer()),
        )
        &&& holds(
            self.require_issuer,
            parameters::auth_jwt_require_issuer(),
            resolver.sees(parameters::auth_jwt_require_issuer()),
        )
        &&& holds(
            self.audience,
            parameters::auth_jwt_audience(),
            resolver.sees(parameters::auth_jwt_audience()),
        )
        &&& holds(
            self.require_audience,
            parameters::auth_jwt_require_audience(),
            resolver.sees(parameters::auth_jwt_require_audience()),
        )
        &&& holds(
            self.username_claim,
            parameters::auth_jwt_username_claim(),
            resolver.sees(parameters::auth_jwt_username_claim()),
        )
        &&& holds(
            as_written(self.remote_key_refresh_interval),
            parameters::auth_jwt_remote_key_refresh_interval(),
            resolver.sees(parameters::auth_jwt_remote_key_refresh_interval()),
        )
    }

    /// The first thing that is wrong: a knob, or that no place for keys can be chosen.
    pub open spec fn flaw(resolver: Resolver) -> Option<ConfigError> {
        first(
            flaw_of(resolver.sees(parameters::auth_jwt_public_key_path())),
            first(
                flaw_of(resolver.sees(parameters::auth_jwt_public_key_url())),
                first(
                    flaw_of(resolver.sees(parameters::auth_jwt_jwks_path())),
                    first(
                        flaw_of(resolver.sees(parameters::auth_jwt_jwks_url())),
                        match JwtConfig::choice_seen(resolver) {
                            Err(error) => Some(error),
                            Ok(_) => JwtConfig::later_flaw(resolver),
                        },
                    ),
                ),
            ),
        )
    }

    /// The first knob after the places for keys with something wrong.
    pub open spec fn later_flaw(resolver: Resolver) -> Option<ConfigError> {
        first(
            flaw_of(resolver.sees(parameters::auth_jwt_issuer())),
            first(
                flaw_of(resolver.sees(parameters::auth_jwt_require_issuer())),
                first(
                    flaw_of(resolver.sees(parameters::auth_jwt_audience())),
                    first(
                        flaw_of(resolver.sees(parameters::auth_jwt_require_audience())),
                        first(
                            flaw_of(resolver.sees(parameters::auth_jwt_username_claim())),
                            flaw_of(
                                resolver.sees(parameters::auth_jwt_remote_key_refresh_interval()),
                            ),
                        ),
                    ),
                ),
            ),
        )
    }

    /// Finds the values of the knobs.
    pub fn resolve(resolver: Resolver<'_>) -> (outcome: Result<JwtConfig, ConfigError>)
        ensures
            match outcome {
                Ok(config) => JwtConfig::flaw(resolver) is None && config.faithful(resolver),
                Err(error) => JwtConfig::flaw(resolver) == Some(error),
            },
    {
        let public_key_path: Value<Option<FsPath>> = resolver.resolve(
            &parameters::auth_jwt_public_key_path(),
        )?;
        let public_key_url: Value<Option<Url>> = resolver.resolve(
            &parameters::auth_jwt_public_key_url(),
        )?;
        let jwks_path: Value<Option<FsPath>> = resolver.resolve(
            &parameters::auth_jwt_jwks_path(),
        )?;
        let jwks_url: Value<Option<Url>> = resolver.resolve(&parameters::auth_jwt_jwks_url())?;
        Ok(
            JwtConfig {
                source: JwtSource::resolve(
                    public_key_path,
                    public_key_url,
                    jwks_path,
                    jwks_url,
                )?,
                issuer: resolver.resolve(&parameters::auth_jwt_issuer())?,
                require_issuer: resolver.resolve(&parameters::auth_jwt_require_issuer())?,
                audience: resolver.resolve(&parameters::auth_jwt_audience())?,
                require_audience: resolver.resolve(&parameters::auth_jwt_require_audience())?,
                username_claim: resolver.resolve(&parameters::auth_jwt_username_claim())?,
                remote_key_refresh_interval: resolver.resolve_span(
                    &parameters::auth_jwt_remote_key_refresh_interval(),
                )?,
            },
        )
    }
}

/// Key sets come before public keys: where a key set was set, the choice is a key set or an error,
/// and the public keys have no say in it.
pub proof fn law_key_sets_come_first(
    public_key_path: Candidate,
    public_key_url: Candidate,
    other_path: Candidate,
    other_url: Candidate,
    jwks_path: Candidate,
    jwks_url: Candidate,
)
    requires
        jwks_path.is_set() || jwks_url.is_set(),
    ensures
        choice(public_key_path, public_key_url, jwks_path, jwks_url) == choice(
            other_path,
            other_url,
            jwks_path,
            jwks_url,
        ),
        choice(public_key_path, public_key_url, jwks_path, jwks_url) matches Ok(kind)
            ==> kind.is_jwks(),
{
}

/// A choice is possible only where something was set, and it is the one that was set in the place
/// with the higher precedence: the other one of the same sort was set in a place with a lower one.
pub proof fn law_highest_source_wins(
    left: Candidate,
    left_kind: JwtKind,
    right: Candidate,
    right_kind: JwtKind,
)
    requires
        left_kind != right_kind,
    ensures
        winner(left, left_kind, right, right_kind) == Ok::<JwtKind, ConfigError>(left_kind) <==> (
        left.present && left.source.rank() > right.source.rank()),
        winner(left, left_kind, right, right_kind) == Ok::<JwtKind, ConfigError>(right_kind) <==> (
        right.present && right.source.rank() > left.source.rank()),
{
}

/// Two places of the same sort that were set in the same place are refused, and so is a
/// configuration without any.
pub proof fn law_one_place_for_keys(
    public_key_path: Candidate,
    public_key_url: Candidate,
    jwks_path: Candidate,
    jwks_url: Candidate,
)
    ensures
        choice(public_key_path, public_key_url, jwks_path, jwks_url) == Err::<JwtKind, ConfigError>(
            ConfigError::JwtMissing,
        ) <==> !public_key_path.is_set() && !public_key_url.is_set() && !jwks_path.is_set()
            && !jwks_url.is_set(),
        (choice(public_key_path, public_key_url, jwks_path, jwks_url) matches Err(
            ConfigError::JwtConflict { .. },
        )) <==> (jwks_path.is_set() && jwks_path.source == jwks_url.source) || (!jwks_path.is_set()
            && !jwks_url.is_set() && public_key_path.is_set() && public_key_path.source
            == public_key_url.source),
{
}

} // verus!
