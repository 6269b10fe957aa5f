//! Keys come from the one place that was set in the source that comes first.
use crate::config::jwt::JwtSource;
use crate::error::ConfigError;
use crate::laws::sources::over;
use crate::path::FsPath;
use crate::scalars::Url;
use crate::value::{Value, ValueSource};
use vstd::prelude::*;

verus! {

/// Whether a value is that of a knob, with the same provenance.
pub open spec fn kept<T>(value: Value<T>, knob: Value<Option<T>>) -> bool {
    &&& knob.value == Some(value.value)
    &&& value.source == knob.source
    &&& value.id == knob.id
    &&& value.toml == knob.toml
    &&& value.argument == knob.argument
    &&& value.environment == knob.environment
    &&& value.sensitive == knob.sensitive
}

/// A public key is chosen only where no key set was set. Of two knobs of the same sort the one is
/// chosen that has a value and whose source comes before that of the other, and it keeps its value
/// and its provenance.
pub proof fn law_first_source_is_chosen(
    public_key_path: Value<Option<FsPath>>,
    public_key_url: Value<Option<Url>>,
    jwks_path: Value<Option<FsPath>>,
    jwks_url: Value<Option<Url>>,
    outcome: Result<JwtSource, ConfigError>,
)
    requires
        call_ensures(
            JwtSource::resolve,
            (public_key_path, public_key_url, jwks_path, jwks_url),
            outcome,
        ),
    ensures
        ({
            let a_key_set = jwks_path.source != ValueSource::Default || jwks_url.source
                != ValueSource::Default;
            &&& (outcome matches Ok(JwtSource::PublicKeyPath(_))) <==> !a_key_set && public_key_path.value is Some && over(
                public_key_path.source,
                public_key_url.source,
            )
            &&& (outcome matches Ok(JwtSource::PublicKeyUrl(_))) <==> !a_key_set && public_key_url.value is Some && over(
                public_key_url.source,
                public_key_path.source,
            )
            &&& (outcome matches Ok(JwtSource::JwksPath(_))) <==> a_key_set && jwks_path.value is Some && over(
                jwks_path.source,
                jwks_url.source,
            )
            &&& (outcome matches Ok(JwtSource::JwksUrl(_))) <==> a_key_set && jwks_url.value is Some && over(
                jwks_url.source,
                jwks_path.source,
            )
        }),
        outcome matches Ok(JwtSource::PublicKeyPath(value)) ==> kept(value, public_key_path),
        outcome matches Ok(JwtSource::PublicKeyUrl(value)) ==> kept(value, public_key_url),
        outcome matches Ok(JwtSource::JwksPath(value)) ==> kept(value, jwks_path),
        outcome matches Ok(JwtSource::JwksUrl(value)) ==> kept(value, jwks_url),
{
}

/// No place is chosen where none was set, where two of the same sort were set in the same source,
/// or where the one that was set has no value; each has its own error.
pub proof fn law_no_place_is_chosen(
    public_key_path: Value<Option<FsPath>>,
    public_key_url: Value<Option<Url>>,
    jwks_path: Value<Option<FsPath>>,
    jwks_url: Value<Option<Url>>,
    outcome: Result<JwtSource, ConfigError>,
)
    requires
        call_ensures(
            JwtSource::resolve,
            (public_key_path, public_key_url, jwks_path, jwks_url),
            outcome,
        ),
    ensures
        outcome == Err::<JwtSource, ConfigError>(ConfigError::JwtMissing) <==> (
        public_key_path.source == ValueSource::Default && public_key_url.source
            == ValueSource::Default && jwks_path.source == ValueSource::Default && jwks_url.source
            == ValueSource::Default),
        jwks_path.source != ValueSource::Default && jwks_path.source == jwks_url.source ==> outcome
            == Err::<JwtSource, ConfigError>(
            ConfigError::JwtConflict {
                first: jwks_path.id,
                second: jwks_url.id,
                source: jwks_path.source,
            },
        ),
        jwks_path.source == ValueSource::Default && jwks_url.source == ValueSource::Default
            && public_key_path.source != ValueSource::Default && public_key_path.source
            == public_key_url.source ==> outcome == Err::<JwtSource, ConfigError>(
            ConfigError::JwtConflict {
                first: public_key_path.id,
                second: public_key_url.id,
                source: public_key_path.source,
            },
        ),
        outcome matches Err(ConfigError::JwtConflict { .. }) ==> (jwks_path.source
            != ValueSource::Default && jwks_path.source == jwks_url.source) || (jwks_path.source
            == ValueSource::Default && jwks_url.source == ValueSource::Default
            && public_key_path.source != ValueSource::Default && public_key_path.source
            == public_key_url.source),
        outcome matches Err(error) ==> error is JwtMissing || error is JwtConflict || error
            == ConfigError::JwtValue,
        outcome == Err::<JwtSource, ConfigError>(ConfigError::JwtValue) ==> {
            ||| jwks_path.value is None && over(jwks_path.source, jwks_url.source)
            ||| jwks_url.value is None && over(jwks_url.source, jwks_path.source)
            ||| public_key_path.value is None && over(public_key_path.source, public_key_url.source)
            ||| public_key_url.value is None && over(public_key_url.source, public_key_path.source)
        },
{
}

} // verus!
