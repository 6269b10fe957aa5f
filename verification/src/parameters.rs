//! The configuration knobs.
use crate::choices::{LogFormat, LogLevel, SymlinkPolicy};
use crate::duration::{Duration, HumanDuration};
use crate::mode::FileMode;
use crate::naming::{law_names_are_unique, law_variable_follows_identifier, variable_name};
use crate::parameter::{Action, ArgSpec, Kind, Many, Parameter, Simple};
use crate::path::FsPath;
use crate::root::Root;
use crate::scalars::{ByteSize, IpAddr, SocketAddr, Url};
use crate::text::without_leading_dashes;
use core::marker::PhantomData;
use vstd::prelude::*;

verus! {

/// The names of a knob: its identifier, which is its key in the configuration file too, its
/// argument on the command line, and its environment variable.
pub type Names = (&'static str, &'static str, &'static str);

/// A knob with these names.
#[verifier::allow_in_spec]
pub fn knob<S>(names: Names, kind: Kind, default: S) -> Parameter<S>
    returns
        (Parameter {
            id: names.0,
            argument: names.1,
            environment: names.2,
            toml: Some(names.0),
            default,
            sensitive: false,
            kind,
            action: Action::Single,
        }),
{
    Parameter {
        id: names.0,
        argument: names.1,
        environment: names.2,
        toml: Some(names.0),
        default,
        sensitive: false,
        kind,
        action: Action::Single,
    }
}

impl<S> Parameter<S> {
    /// The knob, with a value that must not be shown.
    #[verifier::allow_in_spec]
    pub fn hidden(self) -> Parameter<S>
        returns
            (Parameter { sensitive: true, ..self }),
    {
        Parameter { sensitive: true, ..self }
    }

    /// The knob, with an argument that can be repeated.
    #[verifier::allow_in_spec]
    pub fn repeatable(self) -> Parameter<S>
        returns
            (Parameter { action: Action::Append, ..self }),
    {
        Parameter { action: Action::Append, ..self }
    }

    /// The knob, with no place in the configuration file.
    #[verifier::allow_in_spec]
    pub fn outside_file(self) -> Parameter<S>
        returns
            (Parameter { toml: None, ..self }),
    {
        Parameter { toml: None, ..self }
    }
}

// General

pub const CONFIG_FILE: Names = ("config_file", "--config-file", "NETIXFS_CONFIG_FILE");

/// The configuration file itself, which it cannot name.
#[verifier::allow_in_spec]
pub fn config_file() -> Parameter<Option<FsPath>>
    returns
        knob(CONFIG_FILE, Kind::Path, None::<FsPath>).outside_file(),
{
    knob(CONFIG_FILE, Kind::Path, None::<FsPath>).outside_file()
}

// Server

pub const SERVER_BIND_ADDRESS: Names = (
    "server.bind_address",
    "--bind-address",
    "NETIXFS_SERVER_BIND_ADDRESS",
);

/// The address to listen on.
#[verifier::allow_in_spec]
pub fn server_bind_address() -> Parameter<Simple<IpAddr>>
    returns
        knob(SERVER_BIND_ADDRESS, Kind::Ip, Simple(IpAddr::V4([127, 0, 0, 1]))),
{
    knob(SERVER_BIND_ADDRESS, Kind::Ip, Simple(IpAddr::V4([127, 0, 0, 1])))
}

pub const SERVER_PORT: Names = ("server.port", "--port", "NETIXFS_SERVER_PORT");

/// The port to listen on.
#[verifier::allow_in_spec]
pub fn server_port() -> Parameter<Simple<u16>>
    returns
        knob(SERVER_PORT, Kind::Port, Simple(8080u16)),
{
    knob(SERVER_PORT, Kind::Port, Simple(8080u16))
}

pub const SERVER_PUBLIC_BASE_URL: Names = (
    "server.public_base_url",
    "--public-base-url",
    "NETIXFS_SERVER_PUBLIC_BASE_URL",
);

/// The URL under which clients reach the server.
#[verifier::allow_in_spec]
pub fn server_public_base_url() -> Parameter<Option<Url>>
    returns
        knob(SERVER_PUBLIC_BASE_URL, Kind::Url, None::<Url>),
{
    knob(SERVER_PUBLIC_BASE_URL, Kind::Url, None::<Url>)
}

// TLS

pub const TLS_ENABLED: Names = ("tls.enabled", "--tls-enabled", "NETIXFS_TLS_ENABLED");

/// Whether to serve over TLS.
#[verifier::allow_in_spec]
pub fn tls_enabled() -> Parameter<Simple<bool>>
    returns
        knob(TLS_ENABLED, Kind::Flag, Simple(false)),
{
    knob(TLS_ENABLED, Kind::Flag, Simple(false))
}

pub const TLS_CERT_PATH: Names = ("tls.cert_path", "--tls-cert-path", "NETIXFS_TLS_CERT_PATH");

/// The certificate.
#[verifier::allow_in_spec]
pub fn tls_cert_path() -> Parameter<Option<FsPath>>
    returns
        knob(TLS_CERT_PATH, Kind::Path, None::<FsPath>),
{
    knob(TLS_CERT_PATH, Kind::Path, None::<FsPath>)
}

pub const TLS_KEY_PATH: Names = ("tls.key_path", "--tls-key-path", "NETIXFS_TLS_KEY_PATH");

/// The private key of the certificate.
#[verifier::allow_in_spec]
pub fn tls_key_path() -> Parameter<Option<FsPath>>
    returns
        knob(TLS_KEY_PATH, Kind::Path, None::<FsPath>).hidden(),
{
    knob(TLS_KEY_PATH, Kind::Path, None::<FsPath>).hidden()
}

// CORS

pub const CORS_ENABLED: Names = ("cors.enabled", "--cors-enabled", "NETIXFS_CORS_ENABLED");

/// Whether requests from other origins are answered.
#[verifier::allow_in_spec]
pub fn cors_enabled() -> Parameter<Simple<bool>>
    returns
        knob(CORS_ENABLED, Kind::Flag, Simple(false)),
{
    knob(CORS_ENABLED, Kind::Flag, Simple(false))
}

pub const CORS_ALLOWED_ORIGINS: Names = (
    "cors.allowed_origins",
    "--cors-allowed-origin",
    "NETIXFS_CORS_ALLOWED_ORIGINS",
);

/// The origins that may send requests.
#[verifier::allow_in_spec]
pub fn cors_allowed_origins() -> Parameter<Many<String>>
    returns
        knob(CORS_ALLOWED_ORIGINS, Kind::Text, Many(PhantomData::<String>)).repeatable(),
{
    knob(CORS_ALLOWED_ORIGINS, Kind::Text, Many(PhantomData::<String>)).repeatable()
}

pub const CORS_ALLOWED_METHODS: Names = (
    "cors.allowed_methods",
    "--cors-allowed-method",
    "NETIXFS_CORS_ALLOWED_METHODS",
);

/// The methods that other origins may use.
#[verifier::allow_in_spec]
pub fn cors_allowed_methods() -> Parameter<Many<String>>
    returns
        knob(CORS_ALLOWED_METHODS, Kind::Text, Many(PhantomData::<String>)).repeatable(),
{
    knob(CORS_ALLOWED_METHODS, Kind::Text, Many(PhantomData::<String>)).repeatable()
}

pub const CORS_ALLOWED_REQUEST_HEADERS: Names = (
    "cors.allowed_request_headers",
    "--cors-allowed-request-header",
    "NETIXFS_CORS_ALLOWED_REQUEST_HEADERS",
);

/// The headers that other origins may send.
#[verifier::allow_in_spec]
pub fn cors_allowed_request_headers() -> Parameter<Many<String>>
    returns
        knob(CORS_ALLOWED_REQUEST_HEADERS, Kind::Text, Many(PhantomData::<String>)).repeatable(),
{
    knob(CORS_ALLOWED_REQUEST_HEADERS, Kind::Text, Many(PhantomData::<String>)).repeatable()
}

pub const CORS_EXPOSED_RESPONSE_HEADERS: Names = (
    "cors.exposed_response_headers",
    "--cors-exposed-response-header",
    "NETIXFS_CORS_EXPOSED_RESPONSE_HEADERS",
);

/// The headers that other origins may read.
#[verifier::allow_in_spec]
pub fn cors_exposed_response_headers() -> Parameter<Many<String>>
    returns
        knob(CORS_EXPOSED_RESPONSE_HEADERS, Kind::Text, Many(PhantomData::<String>)).repeatable(),
{
    knob(CORS_EXPOSED_RESPONSE_HEADERS, Kind::Text, Many(PhantomData::<String>)).repeatable()
}

pub const CORS_MAX_AGE: Names = ("cors.max_age", "--cors-max-age", "NETIXFS_CORS_MAX_AGE");

/// How long a preflight answer holds.
#[verifier::allow_in_spec]
pub fn cors_max_age() -> Parameter<Simple<HumanDuration>>
    returns
        knob(CORS_MAX_AGE, Kind::Span, Simple(HumanDuration(Duration { secs: 0, nanos: 0 }))),
{
    knob(CORS_MAX_AGE, Kind::Span, Simple(HumanDuration(Duration { secs: 0, nanos: 0 })))
}

pub const CORS_ALLOW_CREDENTIALS: Names = (
    "cors.allow_credentials",
    "--cors-allow-credentials",
    "NETIXFS_CORS_ALLOW_CREDENTIALS",
);

/// Whether other origins may send credentials.
#[verifier::allow_in_spec]
pub fn cors_allow_credentials() -> Parameter<Simple<bool>>
    returns
        knob(CORS_ALLOW_CREDENTIALS, Kind::Flag, Simple(false)),
{
    knob(CORS_ALLOW_CREDENTIALS, Kind::Flag, Simple(false))
}

pub const CORS_ALLOW_PRIVATE_NETWORK: Names = (
    "cors.allow_private_network",
    "--cors-allow-private-network",
    "NETIXFS_CORS_ALLOW_PRIVATE_NETWORK",
);

/// Whether public origins may reach a private network.
#[verifier::allow_in_spec]
pub fn cors_allow_private_network() -> Parameter<Simple<bool>>
    returns
        knob(CORS_ALLOW_PRIVATE_NETWORK, Kind::Flag, Simple(false)),
{
    knob(CORS_ALLOW_PRIVATE_NETWORK, Kind::Flag, Simple(false))
}

// Authentication

pub const AUTH_JWT_PUBLIC_KEY_PATH: Names = (
    "auth.jwt.public_key_path",
    "--jwt-public-key-path",
    "NETIXFS_AUTH_JWT_PUBLIC_KEY_PATH",
);

/// The public key, in a file.
#[verifier::allow_in_spec]
pub fn auth_jwt_public_key_path() -> Parameter<Option<FsPath>>
    returns
        knob(AUTH_JWT_PUBLIC_KEY_PATH, Kind::Path, None::<FsPath>),
{
    knob(AUTH_JWT_PUBLIC_KEY_PATH, Kind::Path, None::<FsPath>)
}

pub const AUTH_JWT_PUBLIC_KEY_URL: Names = (
    "auth.jwt.public_key_url",
    "--jwt-public-key-url",
    "NETIXFS_AUTH_JWT_PUBLIC_KEY_URL",
);

/// The public key, under a URL. The URL may hold credentials.
#[verifier::allow_in_spec]
pub fn auth_jwt_public_key_url() -> Parameter<Option<Url>>
    returns
        knob(AUTH_JWT_PUBLIC_KEY_URL, Kind::Url, None::<Url>).hidden(),
{
    knob(AUTH_JWT_PUBLIC_KEY_URL, Kind::Url, None::<Url>).hidden()
}

pub const AUTH_JWT_JWKS_PATH: Names = (
    "auth.jwt.jwks_path",
    "--jwt-jwks-path",
    "NETIXFS_AUTH_JWT_JWKS_PATH",
);

/// The key set, in a file.
#[verifier::allow_in_spec]
pub fn auth_jwt_jwks_path() -> Parameter<Option<FsPath>>
    returns
        knob(AUTH_JWT_JWKS_PATH, Kind::Path, None::<FsPath>),
{
    knob(AUTH_JWT_JWKS_PATH, Kind::Path, None::<FsPath>)
}

pub const AUTH_JWT_JWKS_URL: Names = (
    "auth.jwt.jwks_url",
    "--jwt-jwks-url",
    "NETIXFS_AUTH_JWT_JWKS_URL",
);

/// The key set, under a URL. The URL may hold credentials.
#[verifier::allow_in_spec]
pub fn auth_jwt_jwks_url() -> Parameter<Option<Url>>
    returns
        knob(AUTH_JWT_JWKS_URL, Kind::Url, None::<Url>).hidden(),
{
    knob(AUTH_JWT_JWKS_URL, Kind::Url, None::<Url>).hidden()
}

pub const AUTH_JWT_ISSUER: Names = ("auth.jwt.issuer", "--jwt-issuer", "NETIXFS_AUTH_JWT_ISSUER");

/// The issuer that tokens must name.
#[verifier::allow_in_spec]
pub fn auth_jwt_issuer() -> Parameter<Option<String>>
    returns
        knob(AUTH_JWT_ISSUER, Kind::Text, None::<String>),
{
    knob(AUTH_JWT_ISSUER, Kind::Text, None::<String>)
}

pub const AUTH_JWT_REQUIRE_ISSUER: Names = (
    "auth.jwt.require_issuer",
    "--jwt-require-issuer",
    "NETIXFS_AUTH_JWT_REQUIRE_ISSUER",
);

/// Whether tokens must name the issuer.
#[verifier::allow_in_spec]
pub fn auth_jwt_require_issuer() -> Parameter<Simple<bool>>
    returns
        knob(AUTH_JWT_REQUIRE_ISSUER, Kind::Flag, Simple(false)),
{
    knob(AUTH_JWT_REQUIRE_ISSUER, Kind::Flag, Simple(false))
}

pub const AUTH_JWT_AUDIENCE: Names = (
    "auth.jwt.audience",
    "--jwt-audience",
    "NETIXFS_AUTH_JWT_AUDIENCE",
);

/// The audience that tokens must name.
#[verifier::allow_in_spec]
pub fn auth_jwt_audience() -> Parameter<Option<String>>
    returns
        knob(AUTH_JWT_AUDIENCE, Kind::Text, None::<String>),
{
    knob(AUTH_JWT_AUDIENCE, Kind::Text, None::<String>)
}

pub const AUTH_JWT_REQUIRE_AUDIENCE: Names = (
    "auth.jwt.require_audience",
    "--jwt-require-audience",
    "NETIXFS_AUTH_JWT_REQUIRE_AUDIENCE",
);

/// Whether tokens must name the audience.
#[verifier::allow_in_spec]
pub fn auth_jwt_require_audience() -> Parameter<Simple<bool>>
    returns
        knob(AUTH_JWT_REQUIRE_AUDIENCE, Kind::Flag, Simple(false)),
{
    knob(AUTH_JWT_REQUIRE_AUDIENCE, Kind::Flag, Simple(false))
}

pub const AUTH_JWT_USERNAME_CLAIM: Names = (
    "auth.jwt.username_claim",
    "--jwt-username-claim",
    "NETIXFS_AUTH_JWT_USERNAME_CLAIM",
);

/// The claim that names the user.
#[verifier::allow_in_spec]
pub fn auth_jwt_username_claim() -> Parameter<&'static str>
    returns
        knob(AUTH_JWT_USERNAME_CLAIM, Kind::Text, "sub"),
{
    knob(AUTH_JWT_USERNAME_CLAIM, Kind::Text, "sub")
}

pub const AUTH_JWT_REMOTE_KEY_REFRESH_INTERVAL: Names = (
    "auth.jwt.remote_key_refresh_interval",
    "--jwt-remote-key-refresh-interval",
    "NETIXFS_AUTH_JWT_REMOTE_KEY_REFRESH_INTERVAL",
);

/// How often remote keys are fetched again.
#[verifier::allow_in_spec]
pub fn auth_jwt_remote_key_refresh_interval() -> Parameter<Simple<HumanDuration>>
    returns
        knob(AUTH_JWT_REMOTE_KEY_REFRESH_INTERVAL, Kind::Span, Simple(HumanDuration(Duration { secs: 300, nanos: 0 }))),
{
    knob(AUTH_JWT_REMOTE_KEY_REFRESH_INTERVAL, Kind::Span, Simple(HumanDuration(Duration { secs: 300, nanos: 0 })))
}

// Filesystem

pub const FILESYSTEM_ALLOWED_ROOTS: Names = (
    "filesystem.allowed_roots",
    "--allowed-root",
    "NETIXFS_FILESYSTEM_ALLOWED_ROOTS",
);

/// The directory trees that are served.
#[verifier::allow_in_spec]
pub fn filesystem_allowed_roots() -> Parameter<Many<Root>>
    returns
        knob(FILESYSTEM_ALLOWED_ROOTS, Kind::Root, Many(PhantomData::<Root>)).repeatable(),
{
    knob(FILESYSTEM_ALLOWED_ROOTS, Kind::Root, Many(PhantomData::<Root>)).repeatable()
}

pub const FILESYSTEM_READ_ONLY: Names = (
    "filesystem.read_only",
    "--read-only",
    "NETIXFS_FILESYSTEM_READ_ONLY",
);

/// Whether writing is refused.
#[verifier::allow_in_spec]
pub fn filesystem_read_only() -> Parameter<Simple<bool>>
    returns
        knob(FILESYSTEM_READ_ONLY, Kind::Flag, Simple(false)),
{
    knob(FILESYSTEM_READ_ONLY, Kind::Flag, Simple(false))
}

pub const FILESYSTEM_DEFAULT_FILE_MODE: Names = (
    "filesystem.default_file_mode",
    "--default-file-mode",
    "NETIXFS_FILESYSTEM_DEFAULT_FILE_MODE",
);

/// The mode of new files.
#[verifier::allow_in_spec]
pub fn filesystem_default_file_mode() -> Parameter<Simple<FileMode>>
    returns
        knob(FILESYSTEM_DEFAULT_FILE_MODE, Kind::Mode, Simple(FileMode(0o0644))),
{
    knob(FILESYSTEM_DEFAULT_FILE_MODE, Kind::Mode, Simple(FileMode(0o0644)))
}

pub const FILESYSTEM_DEFAULT_DIR_MODE: Names = (
    "filesystem.default_dir_mode",
    "--default-dir-mode",
    "NETIXFS_FILESYSTEM_DEFAULT_DIR_MODE",
);

/// The mode of new directories.
#[verifier::allow_in_spec]
pub fn filesystem_default_dir_mode() -> Parameter<Simple<FileMode>>
    returns
        knob(FILESYSTEM_DEFAULT_DIR_MODE, Kind::Mode, Simple(FileMode(0o0755))),
{
    knob(FILESYSTEM_DEFAULT_DIR_MODE, Kind::Mode, Simple(FileMode(0o0755)))
}

pub const FILESYSTEM_UMASK: Names = ("filesystem.umask", "--umask", "NETIXFS_FILESYSTEM_UMASK");

/// The umask. Without it that of the process holds.
#[verifier::allow_in_spec]
pub fn filesystem_umask() -> Parameter<Option<FileMode>>
    returns
        knob(FILESYSTEM_UMASK, Kind::Mode, None::<FileMode>),
{
    knob(FILESYSTEM_UMASK, Kind::Mode, None::<FileMode>)
}

pub const FILESYSTEM_SYMLINK_POLICY: Names = (
    "filesystem.symlink_policy",
    "--symlink-policy",
    "NETIXFS_FILESYSTEM_SYMLINK_POLICY",
);

/// What to do with symbolic links.
#[verifier::allow_in_spec]
pub fn filesystem_symlink_policy() -> Parameter<Simple<SymlinkPolicy>>
    returns
        knob(FILESYSTEM_SYMLINK_POLICY, Kind::Symlinks, Simple(SymlinkPolicy::Reject)),
{
    knob(FILESYSTEM_SYMLINK_POLICY, Kind::Symlinks, Simple(SymlinkPolicy::Reject))
}

pub const FILESYSTEM_ALLOW_MOUNT_CROSSING: Names = (
    "filesystem.allow_mount_crossing",
    "--allow-mount-crossing",
    "NETIXFS_FILESYSTEM_ALLOW_MOUNT_CROSSING",
);

/// Whether a path may lead to another filesystem.
#[verifier::allow_in_spec]
pub fn filesystem_allow_mount_crossing() -> Parameter<Simple<bool>>
    returns
        knob(FILESYSTEM_ALLOW_MOUNT_CROSSING, Kind::Flag, Simple(false)),
{
    knob(FILESYSTEM_ALLOW_MOUNT_CROSSING, Kind::Flag, Simple(false))
}

// Operations

pub const OPERATIONS_ALLOW_RECURSIVE_DELETE: Names = (
    "operations.allow_recursive_delete",
    "--allow-recursive-delete",
    "NETIXFS_OPERATIONS_ALLOW_RECURSIVE_DELETE",
);

/// Whether whole directories may be deleted.
#[verifier::allow_in_spec]
pub fn operations_allow_recursive_delete() -> Parameter<Simple<bool>>
    returns
        knob(OPERATIONS_ALLOW_RECURSIVE_DELETE, Kind::Flag, Simple(false)),
{
    knob(OPERATIONS_ALLOW_RECURSIVE_DELETE, Kind::Flag, Simple(false))
}

pub const OPERATIONS_ALLOW_RECURSIVE_COPY: Names = (
    "operations.allow_recursive_copy",
    "--allow-recursive-copy",
    "NETIXFS_OPERATIONS_ALLOW_RECURSIVE_COPY",
);

/// Whether whole directories may be copied.
#[verifier::allow_in_spec]
pub fn operations_allow_recursive_copy() -> Parameter<Simple<bool>>
    returns
        knob(OPERATIONS_ALLOW_RECURSIVE_COPY, Kind::Flag, Simple(false)),
{
    knob(OPERATIONS_ALLOW_RECURSIVE_COPY, Kind::Flag, Simple(false))
}

pub const OPERATIONS_ALLOW_CHMOD: Names = (
    "operations.allow_chmod",
    "--allow-chmod",
    "NETIXFS_OPERATIONS_ALLOW_CHMOD",
);

/// Whether modes may be changed.
#[verifier::allow_in_spec]
pub fn operations_allow_chmod() -> Parameter<Simple<bool>>
    returns
        knob(OPERATIONS_ALLOW_CHMOD, Kind::Flag, Simple(false)),
{
    knob(OPERATIONS_ALLOW_CHMOD, Kind::Flag, Simple(false))
}

pub const OPERATIONS_ALLOW_HARD_LINKS: Names = (
    "operations.allow_hard_links",
    "--allow-hard-links",
    "NETIXFS_OPERATIONS_ALLOW_HARD_LINKS",
);

/// Whether hard links may be made.
#[verifier::allow_in_spec]
pub fn operations_allow_hard_links() -> Parameter<Simple<bool>>
    returns
        knob(OPERATIONS_ALLOW_HARD_LINKS, Kind::Flag, Simple(false)),
{
    knob(OPERATIONS_ALLOW_HARD_LINKS, Kind::Flag, Simple(false))
}

pub const OPERATIONS_ALLOW_SYMLINK_CREATE: Names = (
    "operations.allow_symlink_create",
    "--allow-symlink-create",
    "NETIXFS_OPERATIONS_ALLOW_SYMLINK_CREATE",
);

/// Whether symbolic links may be made.
#[verifier::allow_in_spec]
pub fn operations_allow_symlink_create() -> Parameter<Simple<bool>>
    returns
        knob(OPERATIONS_ALLOW_SYMLINK_CREATE, Kind::Flag, Simple(false)),
{
    knob(OPERATIONS_ALLOW_SYMLINK_CREATE, Kind::Flag, Simple(false))
}

// Limits

pub const LIMITS_MAX_REQUEST_BODY_SIZE: Names = (
    "limits.max_request_body_size",
    "--max-request-body-size",
    "NETIXFS_LIMITS_MAX_REQUEST_BODY_SIZE",
);

/// How large the body of a request may be.
#[verifier::allow_in_spec]
pub fn limits_max_request_body_size() -> Parameter<Simple<ByteSize>>
    returns
        knob(LIMITS_MAX_REQUEST_BODY_SIZE, Kind::Size, Simple(ByteSize(104_857_600))),
{
    knob(LIMITS_MAX_REQUEST_BODY_SIZE, Kind::Size, Simple(ByteSize(104_857_600)))
}

pub const LIMITS_MAX_READ_SIZE: Names = (
    "limits.max_read_size",
    "--max-read-size",
    "NETIXFS_LIMITS_MAX_READ_SIZE",
);

/// How much one request may read.
#[verifier::allow_in_spec]
pub fn limits_max_read_size() -> Parameter<Simple<ByteSize>>
    returns
        knob(LIMITS_MAX_READ_SIZE, Kind::Size, Simple(ByteSize(104_857_600))),
{
    knob(LIMITS_MAX_READ_SIZE, Kind::Size, Simple(ByteSize(104_857_600)))
}

pub const LIMITS_MAX_DIRECTORY_ENTRIES: Names = (
    "limits.max_directory_entries",
    "--max-directory-entries",
    "NETIXFS_LIMITS_MAX_DIRECTORY_ENTRIES",
);

/// How many entries a listing may have.
#[verifier::allow_in_spec]
pub fn limits_max_directory_entries() -> Parameter<Simple<u32>>
    returns
        knob(LIMITS_MAX_DIRECTORY_ENTRIES, Kind::Count, Simple(10_000u32)),
{
    knob(LIMITS_MAX_DIRECTORY_ENTRIES, Kind::Count, Simple(10_000u32))
}

pub const LIMITS_MAX_CONCURRENT_REQUESTS: Names = (
    "limits.max_concurrent_requests",
    "--max-concurrent-requests",
    "NETIXFS_LIMITS_MAX_CONCURRENT_REQUESTS",
);

/// How many requests may run at once.
#[verifier::allow_in_spec]
pub fn limits_max_concurrent_requests() -> Parameter<Simple<u32>>
    returns
        knob(LIMITS_MAX_CONCURRENT_REQUESTS, Kind::Count, Simple(1024u32)),
{
    knob(LIMITS_MAX_CONCURRENT_REQUESTS, Kind::Count, Simple(1024u32))
}

pub const LIMITS_MAX_CONCURRENT_STREAMS: Names = (
    "limits.max_concurrent_streams",
    "--max-concurrent-streams",
    "NETIXFS_LIMITS_MAX_CONCURRENT_STREAMS",
);

/// How many streams may be open at once.
#[verifier::allow_in_spec]
pub fn limits_max_concurrent_streams() -> Parameter<Simple<u32>>
    returns
        knob(LIMITS_MAX_CONCURRENT_STREAMS, Kind::Count, Simple(128u32)),
{
    knob(LIMITS_MAX_CONCURRENT_STREAMS, Kind::Count, Simple(128u32))
}

// Streaming

pub const STREAMING_IDLE_TIMEOUT: Names = (
    "streaming.idle_timeout",
    "--stream-idle-timeout",
    "NETIXFS_STREAMING_IDLE_TIMEOUT",
);

/// How long a stream may be idle.
#[verifier::allow_in_spec]
pub fn streaming_idle_timeout() -> Parameter<Simple<HumanDuration>>
    returns
        knob(STREAMING_IDLE_TIMEOUT, Kind::Span, Simple(HumanDuration(Duration { secs: 300, nanos: 0 }))),
{
    knob(STREAMING_IDLE_TIMEOUT, Kind::Span, Simple(HumanDuration(Duration { secs: 300, nanos: 0 })))
}

pub const STREAMING_MAX_DURATION: Names = (
    "streaming.max_duration",
    "--stream-max-duration",
    "NETIXFS_STREAMING_MAX_DURATION",
);

/// How long a stream may last.
#[verifier::allow_in_spec]
pub fn streaming_max_duration() -> Parameter<Simple<HumanDuration>>
    returns
        knob(STREAMING_MAX_DURATION, Kind::Span, Simple(HumanDuration(Duration { secs: 3600, nanos: 0 }))),
{
    knob(STREAMING_MAX_DURATION, Kind::Span, Simple(HumanDuration(Duration { secs: 3600, nanos: 0 })))
}

pub const STREAMING_HEARTBEAT_INTERVAL: Names = (
    "streaming.heartbeat_interval",
    "--stream-heartbeat-interval",
    "NETIXFS_STREAMING_HEARTBEAT_INTERVAL",
);

/// How often a stream shows that it is alive.
#[verifier::allow_in_spec]
pub fn streaming_heartbeat_interval() -> Parameter<Simple<HumanDuration>>
    returns
        knob(STREAMING_HEARTBEAT_INTERVAL, Kind::Span, Simple(HumanDuration(Duration { secs: 30, nanos: 0 }))),
{
    knob(STREAMING_HEARTBEAT_INTERVAL, Kind::Span, Simple(HumanDuration(Duration { secs: 30, nanos: 0 })))
}

pub const STREAMING_ALLOW_PATH_FOLLOW: Names = (
    "streaming.allow_path_follow",
    "--stream-allow-path-follow",
    "NETIXFS_STREAMING_ALLOW_PATH_FOLLOW",
);

/// Whether a stream may follow a path to the file that replaces it.
#[verifier::allow_in_spec]
pub fn streaming_allow_path_follow() -> Parameter<Simple<bool>>
    returns
        knob(STREAMING_ALLOW_PATH_FOLLOW, Kind::Flag, Simple(false)),
{
    knob(STREAMING_ALLOW_PATH_FOLLOW, Kind::Flag, Simple(false))
}

// Worker pool

pub const POOL_MAX_WORKERS: Names = (
    "worker_pool.max_workers",
    "--worker-pool-max-workers",
    "NETIXFS_WORKER_POOL_MAX_WORKERS",
);

/// How many workers there may be.
#[verifier::allow_in_spec]
pub fn pool_max_workers() -> Parameter<Simple<u32>>
    returns
        knob(POOL_MAX_WORKERS, Kind::Count, Simple(64u32)),
{
    knob(POOL_MAX_WORKERS, Kind::Count, Simple(64u32))
}

pub const POOL_IDLE_TIMEOUT: Names = (
    "worker_pool.idle_timeout",
    "--worker-pool-idle-timeout",
    "NETIXFS_WORKER_POOL_IDLE_TIMEOUT",
);

/// How long a worker may be idle.
#[verifier::allow_in_spec]
pub fn pool_idle_timeout() -> Parameter<Simple<HumanDuration>>
    returns
        knob(POOL_IDLE_TIMEOUT, Kind::Span, Simple(HumanDuration(Duration { secs: 300, nanos: 0 }))),
{
    knob(POOL_IDLE_TIMEOUT, Kind::Span, Simple(HumanDuration(Duration { secs: 300, nanos: 0 })))
}

pub const POOL_REQUEST_TIMEOUT: Names = (
    "worker_pool.request_timeout",
    "--worker-pool-request-timeout",
    "NETIXFS_WORKER_POOL_REQUEST_TIMEOUT",
);

/// How long a worker may take for a request.
#[verifier::allow_in_spec]
pub fn pool_request_timeout() -> Parameter<Simple<HumanDuration>>
    returns
        knob(POOL_REQUEST_TIMEOUT, Kind::Span, Simple(HumanDuration(Duration { secs: 30, nanos: 0 }))),
{
    knob(POOL_REQUEST_TIMEOUT, Kind::Span, Simple(HumanDuration(Duration { secs: 30, nanos: 0 })))
}

// Logging

pub const LOGGING_LEVEL: Names = ("logging.level", "--log-level", "NETIXFS_LOGGING_LEVEL");

/// How much is logged.
#[verifier::allow_in_spec]
pub fn logging_level() -> Parameter<Simple<LogLevel>>
    returns
        knob(LOGGING_LEVEL, Kind::Level, Simple(LogLevel::Info)),
{
    knob(LOGGING_LEVEL, Kind::Level, Simple(LogLevel::Info))
}

pub const LOGGING_FORMAT: Names = ("logging.format", "--log-format", "NETIXFS_LOGGING_FORMAT");

/// How it is logged.
#[verifier::allow_in_spec]
pub fn logging_format() -> Parameter<Simple<LogFormat>>
    returns
        knob(LOGGING_FORMAT, Kind::Format, Simple(LogFormat::Json)),
{
    knob(LOGGING_FORMAT, Kind::Format, Simple(LogFormat::Json))
}

pub const LOGGING_REDACT_PATHS: Names = (
    "logging.redact_paths",
    "--log-redact-paths",
    "NETIXFS_LOGGING_REDACT_PATHS",
);

/// Whether paths are kept out of the log.
#[verifier::allow_in_spec]
pub fn logging_redact_paths() -> Parameter<Simple<bool>>
    returns
        knob(LOGGING_REDACT_PATHS, Kind::Flag, Simple(false)),
{
    knob(LOGGING_REDACT_PATHS, Kind::Flag, Simple(false))
}

// Metrics

pub const METRICS_ENABLED: Names = (
    "metrics.enabled",
    "--metrics-enabled",
    "NETIXFS_METRICS_ENABLED",
);

/// Whether metrics are served.
#[verifier::allow_in_spec]
pub fn metrics_enabled() -> Parameter<Simple<bool>>
    returns
        knob(METRICS_ENABLED, Kind::Flag, Simple(false)),
{
    knob(METRICS_ENABLED, Kind::Flag, Simple(false))
}

pub const METRICS_BIND_ADDRESS: Names = (
    "metrics.bind_address",
    "--metrics-bind-address",
    "NETIXFS_METRICS_BIND_ADDRESS",
);

/// The address that metrics are served on.
#[verifier::allow_in_spec]
pub fn metrics_bind_address() -> Parameter<Simple<IpAddr>>
    returns
        knob(METRICS_BIND_ADDRESS, Kind::Ip, Simple(IpAddr::V4([127, 0, 0, 1]))),
{
    knob(METRICS_BIND_ADDRESS, Kind::Ip, Simple(IpAddr::V4([127, 0, 0, 1])))
}

pub const METRICS_PORT: Names = ("metrics.port", "--metrics-port", "NETIXFS_METRICS_PORT");

/// The port that metrics are served on.
#[verifier::allow_in_spec]
pub fn metrics_port() -> Parameter<Simple<u16>>
    returns
        knob(METRICS_PORT, Kind::Port, Simple(9090u16)),
{
    knob(METRICS_PORT, Kind::Port, Simple(9090u16))
}

// Diagnostics

pub const DIAGNOSTICS_CONFIG_ENDPOINT_ENABLED: Names = (
    "diagnostics.config_endpoint.enabled",
    "--config-endpoint-enabled",
    "NETIXFS_DIAGNOSTICS_CONFIG_ENDPOINT_ENABLED",
);

/// Whether the configuration is served.
#[verifier::allow_in_spec]
pub fn diagnostics_config_endpoint_enabled() -> Parameter<Simple<bool>>
    returns
        knob(DIAGNOSTICS_CONFIG_ENDPOINT_ENABLED, Kind::Flag, Simple(false)),
{
    knob(DIAGNOSTICS_CONFIG_ENDPOINT_ENABLED, Kind::Flag, Simple(false))
}

pub const DIAGNOSTICS_CONFIG_ENDPOINT_BIND_ADDRESS: Names = (
    "diagnostics.config_endpoint.bind_address",
    "--config-endpoint-bind-address",
    "NETIXFS_DIAGNOSTICS_CONFIG_ENDPOINT_BIND_ADDRESS",
);

/// The address and port that the configuration is served on.
#[verifier::allow_in_spec]
pub fn diagnostics_config_endpoint_bind_address() -> Parameter<Simple<SocketAddr>>
    returns
        knob(DIAGNOSTICS_CONFIG_ENDPOINT_BIND_ADDRESS, Kind::Socket, Simple(SocketAddr::V4 { octets: [127, 0, 0, 1], port: 8081 })),
{
    knob(DIAGNOSTICS_CONFIG_ENDPOINT_BIND_ADDRESS, Kind::Socket, Simple(SocketAddr::V4 { octets: [127, 0, 0, 1], port: 8081 }))
}

/// The names of a knob, and how its argument is read.
pub struct Header {
    pub id: &'static str,
    pub argument: &'static str,
    pub environment: &'static str,
    pub toml: Option<&'static str>,
    pub kind: Kind,
    pub action: Action,
}

impl<S> Parameter<S> {
    /// The names of the knob, and how its argument is read.
    pub open spec fn header(self) -> Header {
        Header {
            id: self.id,
            argument: self.argument,
            environment: self.environment,
            toml: self.toml,
            kind: self.kind,
            action: self.action,
        }
    }
}

impl ArgSpec {
    /// Whether the argument is made from this. No argument is required.
    pub open spec fn follows(self, header: Header) -> bool {
        &&& self.id == header.id
        &&& self.long@ == without_leading_dashes(header.argument@)
        &&& self.environment == header.environment
        &&& !self.required
        &&& self.kind == header.kind
        &&& self.action == header.action
    }
}

/// All knobs, in their order.
pub open spec fn headers() -> Seq<Header> {
    seq![
        config_file().header(),
        server_bind_address().header(),
        server_port().header(),
        server_public_base_url().header(),
        tls_enabled().header(),
        tls_cert_path().header(),
        tls_key_path().header(),
        cors_enabled().header(),
        cors_allowed_origins().header(),
        cors_allowed_methods().header(),
        cors_allowed_request_headers().header(),
        cors_exposed_response_headers().header(),
        cors_max_age().header(),
        cors_allow_credentials().header(),
        cors_allow_private_network().header(),
        auth_jwt_public_key_path().header(),
        auth_jwt_public_key_url().header(),
        auth_jwt_jwks_path().header(),
        auth_jwt_jwks_url().header(),
        auth_jwt_issuer().header(),
        auth_jwt_require_issuer().header(),
        auth_jwt_audience().header(),
        auth_jwt_require_audience().header(),
        auth_jwt_username_claim().header(),
        auth_jwt_remote_key_refresh_interval().header(),
        filesystem_allowed_roots().header(),
        filesystem_read_only().header(),
        filesystem_default_file_mode().header(),
        filesystem_default_dir_mode().header(),
        filesystem_umask().header(),
        filesystem_symlink_policy().header(),
        filesystem_allow_mount_crossing().header(),
        operations_allow_recursive_delete().header(),
        operations_allow_recursive_copy().header(),
        operations_allow_chmod().header(),
        operations_allow_hard_links().header(),
        operations_allow_symlink_create().header(),
        limits_max_request_body_size().header(),
        limits_max_read_size().header(),
        limits_max_directory_entries().header(),
        limits_max_concurrent_requests().header(),
        limits_max_concurrent_streams().header(),
        streaming_idle_timeout().header(),
        streaming_max_duration().header(),
        streaming_heartbeat_interval().header(),
        streaming_allow_path_follow().header(),
        pool_max_workers().header(),
        pool_idle_timeout().header(),
        pool_request_timeout().header(),
        logging_level().header(),
        logging_format().header(),
        logging_redact_paths().header(),
        metrics_enabled().header(),
        metrics_bind_address().header(),
        metrics_port().header(),
        diagnostics_config_endpoint_enabled().header(),
        diagnostics_config_endpoint_bind_address().header(),
    ]
}

/// Whether the arguments are made from all knobs, in their order.
pub open spec fn follow_all(args: Seq<ArgSpec>) -> bool {
    &&& args.len() == headers().len()
    &&& forall|i: int| 0 <= i < args.len() ==> (#[trigger] args[i]).follows(headers()[i])
}

/// Makes the arguments.
fn make_arguments() -> (args: Vec<ArgSpec>)
    ensures
        follow_all(args@),
{
    let mut args: Vec<ArgSpec> = Vec::new();
    args.push(config_file().to_arg());
    args.push(server_bind_address().to_arg());
    args.push(server_port().to_arg());
    args.push(server_public_base_url().to_arg());
    args.push(tls_enabled().to_arg());
    args.push(tls_cert_path().to_arg());
    args.push(tls_key_path().to_arg());
    args.push(cors_enabled().to_arg());
    args.push(cors_allowed_origins().to_arg());
    args.push(cors_allowed_methods().to_arg());
    args.push(cors_allowed_request_headers().to_arg());
    args.push(cors_exposed_response_headers().to_arg());
    args.push(cors_max_age().to_arg());
    args.push(cors_allow_credentials().to_arg());
    args.push(cors_allow_private_network().to_arg());
    args.push(auth_jwt_public_key_path().to_arg());
    args.push(auth_jwt_public_key_url().to_arg());
    args.push(auth_jwt_jwks_path().to_arg());
    args.push(auth_jwt_jwks_url().to_arg());
    args.push(auth_jwt_issuer().to_arg());
    args.push(auth_jwt_require_issuer().to_arg());
    args.push(auth_jwt_audience().to_arg());
    args.push(auth_jwt_require_audience().to_arg());
    args.push(auth_jwt_username_claim().to_arg());
    args.push(auth_jwt_remote_key_refresh_interval().to_arg());
    args.push(filesystem_allowed_roots().to_arg());
    args.push(filesystem_read_only().to_arg());
    args.push(filesystem_default_file_mode().to_arg());
    args.push(filesystem_default_dir_mode().to_arg());
    args.push(filesystem_umask().to_arg());
    args.push(filesystem_symlink_policy().to_arg());
    args.push(filesystem_allow_mount_crossing().to_arg());
    args.push(operations_allow_recursive_delete().to_arg());
    args.push(operations_allow_recursive_copy().to_arg());
    args.push(operations_allow_chmod().to_arg());
    args.push(operations_allow_hard_links().to_arg());
    args.push(operations_allow_symlink_create().to_arg());
    args.push(limits_max_request_body_size().to_arg());
    args.push(limits_max_read_size().to_arg());
    args.push(limits_max_directory_entries().to_arg());
    args.push(limits_max_concurrent_requests().to_arg());
    args.push(limits_max_concurrent_streams().to_arg());
    args.push(streaming_idle_timeout().to_arg());
    args.push(streaming_max_duration().to_arg());
    args.push(streaming_heartbeat_interval().to_arg());
    args.push(streaming_allow_path_follow().to_arg());
    args.push(pool_max_workers().to_arg());
    args.push(pool_idle_timeout().to_arg());
    args.push(pool_request_timeout().to_arg());
    args.push(logging_level().to_arg());
    args.push(logging_format().to_arg());
    args.push(logging_redact_paths().to_arg());
    args.push(metrics_enabled().to_arg());
    args.push(metrics_bind_address().to_arg());
    args.push(metrics_port().to_arg());
    args.push(diagnostics_config_endpoint_enabled().to_arg());
    args.push(diagnostics_config_endpoint_bind_address().to_arg());
    args
}

proof fn lemma_variable(args: Seq<ArgSpec>, i: int)
    requires
        follow_all(args),
        0 <= i < args.len(),
    ensures
        args[i].environment@ == variable_name(args[i].id@),
{
    assert(args[i].follows(headers()[i]));
    law_variable_follows_identifier(i);
}

proof fn lemma_distinct(args: Seq<ArgSpec>, i: int, j: int)
    requires
        follow_all(args),
        0 <= i < args.len(),
        0 <= j < args.len(),
        i != j,
    ensures
        distinct(args[i], args[j]),
{
    assert(args[i].follows(headers()[i]));
    assert(args[j].follows(headers()[j]));
    law_names_are_unique(i, j);
}

/// The arguments of the command line, one for each knob. No two share a name.
pub fn arguments() -> (args: Vec<ArgSpec>)
    ensures
        follow_all(args@),
        forall|i: int|
            0 <= i < args.len() ==> (#[trigger] args[i]).environment@ == variable_name(args[i].id@),
        forall|i: int, j: int|
            0 <= i < args.len() && 0 <= j < args.len() && i != j ==> distinct(
                #[trigger] args[i],
                #[trigger] args[j],
            ),
{
    let args: Vec<ArgSpec> = make_arguments();
    proof {
        assert forall|i: int| 0 <= i < args.len() implies (#[trigger] args[i]).environment@
            == variable_name(args[i].id@) by {
            lemma_variable(args@, i);
        }
        assert forall|i: int, j: int|
            0 <= i < args.len() && 0 <= j < args.len() && i != j implies distinct(
            #[trigger] args[i],
            #[trigger] args[j],
        ) by {
            lemma_distinct(args@, i, j);
        }
    }
    args
}

/// Whether two arguments differ in their identifiers, their names and their environment variables.
pub open spec fn distinct(left: ArgSpec, right: ArgSpec) -> bool {
    left.id@ != right.id@ && left.long@ != right.long@ && left.environment@ != right.environment@
}

/// Arguments of which at most one can be set.
#[derive(Debug)]
pub struct GroupSpec {
    pub id: &'static str,
    pub args: Vec<&'static str>,
}

/// The groups of arguments of which at most one can be set: the key sets, and the public keys.
pub fn argument_groups() -> (groups: Vec<GroupSpec>)
    ensures
        groups.len() == 2,
        groups[0].id == "jwt_jwks_sources",
        groups[0].args@ == seq![auth_jwt_jwks_url().id, auth_jwt_jwks_path().id],
        groups[1].id == "jwt_public_key_sources",
        groups[1].args@ == seq![auth_jwt_public_key_url().id, auth_jwt_public_key_path().id],
{
    vec![
        GroupSpec {
            id: "jwt_jwks_sources",
            args: vec![auth_jwt_jwks_url().id, auth_jwt_jwks_path().id],
        },
        GroupSpec {
            id: "jwt_public_key_sources",
            args: vec![auth_jwt_public_key_url().id, auth_jwt_public_key_path().id],
        },
    ]
}

} // verus!
