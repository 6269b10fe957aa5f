//! Every knob has its argument, under its own names.
use crate::naming::lemma_dashes;
use crate::parameter::{Action, ArgSpec, Kind};
use crate::parameters::{argument_groups, arguments, headers, GroupSpec};
use vstd::prelude::*;

verus! {

/// Whether an argument has these names, is read like this, and is not required.
pub open spec fn declared(
    arg: ArgSpec,
    id: &'static str,
    argument: &'static str,
    environment: &'static str,
    kind: Kind,
    action: Action,
) -> bool {
    &&& arg.id == id
    &&& seq!['-', '-'] + arg.long@ == argument@
    &&& arg.environment == environment
    &&& arg.kind == kind
    &&& arg.action == action
    &&& !arg.required
}

proof fn lemma_declared(args: Vec<ArgSpec>, i: int)
    requires
        call_ensures(arguments, (), args),
        0 <= i < args.len(),
    ensures
        args.len() == headers().len(),
        declared(
            args[i],
            headers()[i].id,
            headers()[i].argument,
            headers()[i].environment,
            headers()[i].kind,
            headers()[i].action,
        ),
{
    assert(args[i].follows(headers()[i]));
    lemma_dashes(i);
}

/// The arguments of the first knobs have their names.
pub proof fn law_first_arguments(args: Vec<ArgSpec>)
    requires
        call_ensures(arguments, (), args),
    ensures
        args.len() == 57,
        declared(
            args[0],
            "config_file",
            "--config-file",
            "NETIXFS_CONFIG_FILE",
            Kind::Path,
            Action::Single,
        ),
        declared(
            args[1],
            "server.bind_address",
            "--bind-address",
            "NETIXFS_SERVER_BIND_ADDRESS",
            Kind::Ip,
            Action::Single,
        ),
        declared(
            args[2],
            "server.port",
            "--port",
            "NETIXFS_SERVER_PORT",
            Kind::Port,
            Action::Single,
        ),
        declared(
            args[3],
            "server.public_base_url",
            "--public-base-url",
            "NETIXFS_SERVER_PUBLIC_BASE_URL",
            Kind::Url,
            Action::Single,
        ),
        declared(
            args[4],
            "tls.enabled",
            "--tls-enabled",
            "NETIXFS_TLS_ENABLED",
            Kind::Flag,
            Action::Single,
        ),
        declared(
            args[5],
            "tls.cert_path",
            "--tls-cert-path",
            "NETIXFS_TLS_CERT_PATH",
            Kind::Path,
            Action::Single,
        ),
        declared(
            args[6],
            "tls.key_path",
            "--tls-key-path",
            "NETIXFS_TLS_KEY_PATH",
            Kind::Path,
            Action::Single,
        ),
        declared(
            args[7],
            "cors.enabled",
            "--cors-enabled",
            "NETIXFS_CORS_ENABLED",
            Kind::Flag,
            Action::Single,
        ),
        declared(
            args[8],
            "cors.allowed_origins",
            "--cors-allowed-origin",
            "NETIXFS_CORS_ALLOWED_ORIGINS",
            Kind::Text,
            Action::Append,
        ),
        declared(
            args[9],
            "cors.allowed_methods",
            "--cors-allowed-method",
            "NETIXFS_CORS_ALLOWED_METHODS",
            Kind::Text,
            Action::Append,
        ),
{
    assert(headers().len() == 57);
    assert(args.len() == headers().len());
    lemma_declared(args, 0);
    lemma_declared(args, 1);
    lemma_declared(args, 2);
    lemma_declared(args, 3);
    lemma_declared(args, 4);
    lemma_declared(args, 5);
    lemma_declared(args, 6);
    lemma_declared(args, 7);
    lemma_declared(args, 8);
    lemma_declared(args, 9);
}

/// The arguments of the second knobs have their names.
pub proof fn law_second_arguments(args: Vec<ArgSpec>)
    requires
        call_ensures(arguments, (), args),
    ensures
        args.len() == 57,
        declared(
            args[10],
            "cors.allowed_request_headers",
            "--cors-allowed-request-header",
            "NETIXFS_CORS_ALLOWED_REQUEST_HEADERS",
            Kind::Text,
            Action::Append,
        ),
        declared(
            args[11],
            "cors.exposed_response_headers",
            "--cors-exposed-response-header",
            "NETIXFS_CORS_EXPOSED_RESPONSE_HEADERS",
            Kind::Text,
            Action::Append,
        ),
        declared(
            args[12],
            "cors.max_age",
            "--cors-max-age",
            "NETIXFS_CORS_MAX_AGE",
            Kind::Span,
            Action::Single,
        ),
        declared(
            args[13],
            "cors.allow_credentials",
            "--cors-allow-credentials",
            "NETIXFS_CORS_ALLOW_CREDENTIALS",
            Kind::Flag,
            Action::Single,
        ),
        declared(
            args[14],
            "cors.allow_private_network",
            "--cors-allow-private-network",
            "NETIXFS_CORS_ALLOW_PRIVATE_NETWORK",
            Kind::Flag,
            Action::Single,
        ),
        declared(
            args[15],
            "auth.jwt.public_key_path",
            "--jwt-public-key-path",
            "NETIXFS_AUTH_JWT_PUBLIC_KEY_PATH",
            Kind::Path,
            Action::Single,
        ),
        declared(
            args[16],
            "auth.jwt.public_key_url",
            "--jwt-public-key-url",
            "NETIXFS_AUTH_JWT_PUBLIC_KEY_URL",
            Kind::Url,
            Action::Single,
        ),
        declared(
            args[17],
            "auth.jwt.jwks_path",
            "--jwt-jwks-path",
            "NETIXFS_AUTH_JWT_JWKS_PATH",
            Kind::Path,
            Action::Single,
        ),
        declared(
            args[18],
            "auth.jwt.jwks_url",
            "--jwt-jwks-url",
            "NETIXFS_AUTH_JWT_JWKS_URL",
            Kind::Url,
            Action::Single,
        ),
        declared(
            args[19],
            "auth.jwt.issuer",
            "--jwt-issuer",
            "NETIXFS_AUTH_JWT_ISSUER",
            Kind::Text,
            Action::Single,
        ),
{
    assert(headers().len() == 57);
    assert(args.len() == headers().len());
    lemma_declared(args, 10);
    lemma_declared(args, 11);
    lemma_declared(args, 12);
    lemma_declared(args, 13);
    lemma_declared(args, 14);
    lemma_declared(args, 15);
    lemma_declared(args, 16);
    lemma_declared(args, 17);
    lemma_declared(args, 18);
    lemma_declared(args, 19);
}

/// The arguments of the third knobs have their names.
pub proof fn law_third_arguments(args: Vec<ArgSpec>)
    requires
        call_ensures(arguments, (), args),
    ensures
        args.len() == 57,
        declared(
            args[20],
            "auth.jwt.require_issuer",
            "--jwt-require-issuer",
            "NETIXFS_AUTH_JWT_REQUIRE_ISSUER",
            Kind::Flag,
            Action::Single,
        ),
        declared(
            args[21],
            "auth.jwt.audience",
            "--jwt-audience",
            "NETIXFS_AUTH_JWT_AUDIENCE",
            Kind::Text,
            Action::Single,
        ),
        declared(
            args[22],
            "auth.jwt.require_audience",
            "--jwt-require-audience",
            "NETIXFS_AUTH_JWT_REQUIRE_AUDIENCE",
            Kind::Flag,
            Action::Single,
        ),
        declared(
            args[23],
            "auth.jwt.username_claim",
            "--jwt-username-claim",
            "NETIXFS_AUTH_JWT_USERNAME_CLAIM",
            Kind::Text,
            Action::Single,
        ),
        declared(
            args[24],
            "auth.jwt.remote_key_refresh_interval",
            "--jwt-remote-key-refresh-interval",
            "NETIXFS_AUTH_JWT_REMOTE_KEY_REFRESH_INTERVAL",
            Kind::Span,
            Action::Single,
        ),
        declared(
            args[25],
            "filesystem.allowed_roots",
            "--allowed-root",
            "NETIXFS_FILESYSTEM_ALLOWED_ROOTS",
            Kind::Root,
            Action::Append,
        ),
        declared(
            args[26],
            "filesystem.read_only",
            "--read-only",
            "NETIXFS_FILESYSTEM_READ_ONLY",
            Kind::Flag,
            Action::Single,
        ),
        declared(
            args[27],
            "filesystem.default_file_mode",
            "--default-file-mode",
            "NETIXFS_FILESYSTEM_DEFAULT_FILE_MODE",
            Kind::Mode,
            Action::Single,
        ),
        declared(
            args[28],
            "filesystem.default_dir_mode",
            "--default-dir-mode",
            "NETIXFS_FILESYSTEM_DEFAULT_DIR_MODE",
            Kind::Mode,
            Action::Single,
        ),
        declared(
            args[29],
            "filesystem.umask",
            "--umask",
            "NETIXFS_FILESYSTEM_UMASK",
            Kind::Mode,
            Action::Single,
        ),
{
    assert(headers().len() == 57);
    assert(args.len() == headers().len());
    lemma_declared(args, 20);
    lemma_declared(args, 21);
    lemma_declared(args, 22);
    lemma_declared(args, 23);
    lemma_declared(args, 24);
    lemma_declared(args, 25);
    lemma_declared(args, 26);
    lemma_declared(args, 27);
    lemma_declared(args, 28);
    lemma_declared(args, 29);
}

/// The arguments of the fourth knobs have their names.
pub proof fn law_fourth_arguments(args: Vec<ArgSpec>)
    requires
        call_ensures(arguments, (), args),
    ensures
        args.len() == 57,
        declared(
            args[30],
            "filesystem.symlink_policy",
            "--symlink-policy",
            "NETIXFS_FILESYSTEM_SYMLINK_POLICY",
            Kind::Symlinks,
            Action::Single,
        ),
        declared(
            args[31],
            "filesystem.allow_mount_crossing",
            "--allow-mount-crossing",
            "NETIXFS_FILESYSTEM_ALLOW_MOUNT_CROSSING",
            Kind::Flag,
            Action::Single,
        ),
        declared(
            args[32],
            "operations.allow_recursive_delete",
            "--allow-recursive-delete",
            "NETIXFS_OPERATIONS_ALLOW_RECURSIVE_DELETE",
            Kind::Flag,
            Action::Single,
        ),
        declared(
            args[33],
            "operations.allow_recursive_copy",
            "--allow-recursive-copy",
            "NETIXFS_OPERATIONS_ALLOW_RECURSIVE_COPY",
            Kind::Flag,
            Action::Single,
        ),
        declared(
            args[34],
            "operations.allow_chmod",
            "--allow-chmod",
            "NETIXFS_OPERATIONS_ALLOW_CHMOD",
            Kind::Flag,
            Action::Single,
        ),
        declared(
            args[35],
            "operations.allow_hard_links",
            "--allow-hard-links",
            "NETIXFS_OPERATIONS_ALLOW_HARD_LINKS",
            Kind::Flag,
            Action::Single,
        ),
        declared(
            args[36],
            "operations.allow_symlink_create",
            "--allow-symlink-create",
            "NETIXFS_OPERATIONS_ALLOW_SYMLINK_CREATE",
            Kind::Flag,
            Action::Single,
        ),
        declared(
            args[37],
            "limits.max_request_body_size",
            "--max-request-body-size",
            "NETIXFS_LIMITS_MAX_REQUEST_BODY_SIZE",
            Kind::Size,
            Action::Single,
        ),
        declared(
            args[38],
            "limits.max_read_size",
            "--max-read-size",
            "NETIXFS_LIMITS_MAX_READ_SIZE",
            Kind::Size,
            Action::Single,
        ),
        declared(
            args[39],
            "limits.max_directory_entries",
            "--max-directory-entries",
            "NETIXFS_LIMITS_MAX_DIRECTORY_ENTRIES",
            Kind::Count,
            Action::Single,
        ),
{
    assert(headers().len() == 57);
    assert(args.len() == headers().len());
    lemma_declared(args, 30);
    lemma_declared(args, 31);
    lemma_declared(args, 32);
    lemma_declared(args, 33);
    lemma_declared(args, 34);
    lemma_declared(args, 35);
    lemma_declared(args, 36);
    lemma_declared(args, 37);
    lemma_declared(args, 38);
    lemma_declared(args, 39);
}

/// The arguments of the fifth knobs have their names.
pub proof fn law_fifth_arguments(args: Vec<ArgSpec>)
    requires
        call_ensures(arguments, (), args),
    ensures
        args.len() == 57,
        declared(
            args[40],
            "limits.max_concurrent_requests",
            "--max-concurrent-requests",
            "NETIXFS_LIMITS_MAX_CONCURRENT_REQUESTS",
            Kind::Count,
            Action::Single,
        ),
        declared(
            args[41],
            "limits.max_concurrent_streams",
            "--max-concurrent-streams",
            "NETIXFS_LIMITS_MAX_CONCURRENT_STREAMS",
            Kind::Count,
            Action::Single,
        ),
        declared(
            args[42],
            "streaming.idle_timeout",
            "--stream-idle-timeout",
            "NETIXFS_STREAMING_IDLE_TIMEOUT",
            Kind::Span,
            Action::Single,
        ),
        declared(
            args[43],
            "streaming.max_duration",
            "--stream-max-duration",
            "NETIXFS_STREAMING_MAX_DURATION",
            Kind::Span,
            Action::Single,
        ),
        declared(
            args[44],
            "streaming.heartbeat_interval",
            "--stream-heartbeat-interval",
            "NETIXFS_STREAMING_HEARTBEAT_INTERVAL",
            Kind::Span,
            Action::Single,
        ),
        declared(
            args[45],
            "streaming.allow_path_follow",
            "--stream-allow-path-follow",
            "NETIXFS_STREAMING_ALLOW_PATH_FOLLOW",
            Kind::Flag,
            Action::Single,
        ),
        declared(
            args[46],
            "worker_pool.max_workers",
            "--worker-pool-max-workers",
            "NETIXFS_WORKER_POOL_MAX_WORKERS",
            Kind::Count,
            Action::Single,
        ),
        declared(
            args[47],
            "worker_pool.idle_timeout",
            "--worker-pool-idle-timeout",
            "NETIXFS_WORKER_POOL_IDLE_TIMEOUT",
            Kind::Span,
            Action::Single,
        ),
        declared(
            args[48],
            "worker_pool.request_timeout",
            "--worker-pool-request-timeout",
            "NETIXFS_WORKER_POOL_REQUEST_TIMEOUT",
            Kind::Span,
            Action::Single,
        ),
        declared(
            args[49],
            "logging.level",
            "--log-level",
            "NETIXFS_LOGGING_LEVEL",
            Kind::Level,
            Action::Single,
        ),
{
    assert(headers().len() == 57);
    assert(args.len() == headers().len());
    lemma_declared(args, 40);
    lemma_declared(args, 41);
    lemma_declared(args, 42);
    lemma_declared(args, 43);
    lemma_declared(args, 44);
    lemma_declared(args, 45);
    lemma_declared(args, 46);
    lemma_declared(args, 47);
    lemma_declared(args, 48);
    lemma_declared(args, 49);
}

/// The arguments of the sixth knobs have their names.
pub proof fn law_sixth_arguments(args: Vec<ArgSpec>)
    requires
        call_ensures(arguments, (), args),
    ensures
        args.len() == 57,
        declared(
            args[50],
            "logging.format",
            "--log-format",
            "NETIXFS_LOGGING_FORMAT",
            Kind::Format,
            Action::Single,
        ),
        declared(
            args[51],
            "logging.redact_paths",
            "--log-redact-paths",
            "NETIXFS_LOGGING_REDACT_PATHS",
            Kind::Flag,
            Action::Single,
        ),
        declared(
            args[52],
            "metrics.enabled",
            "--metrics-enabled",
            "NETIXFS_METRICS_ENABLED",
            Kind::Flag,
            Action::Single,
        ),
        declared(
            args[53],
            "metrics.bind_address",
            "--metrics-bind-address",
            "NETIXFS_METRICS_BIND_ADDRESS",
            Kind::Ip,
            Action::Single,
        ),
        declared(
            args[54],
            "metrics.port",
            "--metrics-port",
            "NETIXFS_METRICS_PORT",
            Kind::Port,
            Action::Single,
        ),
        declared(
            args[55],
            "diagnostics.config_endpoint.enabled",
            "--config-endpoint-enabled",
            "NETIXFS_DIAGNOSTICS_CONFIG_ENDPOINT_ENABLED",
            Kind::Flag,
            Action::Single,
        ),
        declared(
            args[56],
            "diagnostics.config_endpoint.bind_address",
            "--config-endpoint-bind-address",
            "NETIXFS_DIAGNOSTICS_CONFIG_ENDPOINT_BIND_ADDRESS",
            Kind::Socket,
            Action::Single,
        ),
{
    assert(headers().len() == 57);
    assert(args.len() == headers().len());
    lemma_declared(args, 50);
    lemma_declared(args, 51);
    lemma_declared(args, 52);
    lemma_declared(args, 53);
    lemma_declared(args, 54);
    lemma_declared(args, 55);
    lemma_declared(args, 56);
}

/// Of the key sets, and of the public keys, only one can be set at a time; one of each can.
pub proof fn law_groups_of_arguments(groups: Vec<GroupSpec>)
    requires
        call_ensures(argument_groups, (), groups),
    ensures
        groups.len() == 2,
        groups[0].args@ == seq!["auth.jwt.jwks_url", "auth.jwt.jwks_path"],
        groups[1].args@ == seq!["auth.jwt.public_key_url", "auth.jwt.public_key_path"],
        groups[0].id == "jwt_jwks_sources",
        groups[1].id == "jwt_public_key_sources",
{
}

} // verus!
