//! The names of the knobs follow a rule, and no two knobs share one.
use crate::parameters::headers;
use crate::text::without_leading_dashes;
use vstd::prelude::*;

verus! {

/// A character of an identifier, as it stands in an environment variable.
pub open spec fn shouted(c: char) -> char {
    if 'a' <= c <= 'z' {
        ((c as u8 - 32) as u8) as char
    } else if c == '.' {
        '_'
    } else {
        c
    }
}

/// The environment variable for an identifier.
pub open spec fn variable_name(id: Seq<char>) -> Seq<char> {
    "NETIXFS_"@ + id.map_values(|c: char| shouted(c))
}

/// What tells names apart: the length, the last character and another one near the end.
spec fn trace(text: Seq<char>, back: int) -> (nat, char, char) {
    (
        text.len(),
        text.last(),
        if text.len() < back {
            text.first()
        } else {
            text[text.len() - back]
        },
    )
}

/// The knob with this trace of an environment variable.
spec fn variable_place(trace: (nat, char, char)) -> int {
    if trace == (19nat, 'E', 'L') {
        0int
    } else if trace == (27nat, 'S', 'S') {
        1int
    } else if trace == (19nat, 'T', 'R') {
        2int
    } else if trace == (30nat, 'L', 'R') {
        3int
    } else if trace == (19nat, 'D', 'E') {
        4int
    } else if trace == (21nat, 'H', 'T') {
        5int
    } else if trace == (20nat, 'H', 'T') {
        6int
    } else if trace == (20nat, 'D', 'E') {
        7int
    } else if trace == (28nat, 'S', 'N') {
        8int
    } else if trace == (28nat, 'S', 'D') {
        9int
    } else if trace == (36nat, 'S', 'R') {
        10int
    } else if trace == (37nat, 'S', 'R') {
        11int
    } else if trace == (20nat, 'E', 'G') {
        12int
    } else if trace == (30nat, 'S', 'L') {
        13int
    } else if trace == (34nat, 'K', 'R') {
        14int
    } else if trace == (32nat, 'H', 'T') {
        15int
    } else if trace == (31nat, 'L', 'R') {
        16int
    } else if trace == (26nat, 'H', 'T') {
        17int
    } else if trace == (25nat, 'L', 'R') {
        18int
    } else if trace == (23nat, 'R', 'E') {
        19int
    } else if trace == (31nat, 'R', 'E') {
        20int
    } else if trace == (25nat, 'E', 'C') {
        21int
    } else if trace == (33nat, 'E', 'C') {
        22int
    } else if trace == (31nat, 'M', 'I') {
        23int
    } else if trace == (44nat, 'L', 'A') {
        24int
    } else if trace == (32nat, 'S', 'T') {
        25int
    } else if trace == (28nat, 'Y', 'L') {
        26int
    } else if trace == (36nat, 'E', 'D') {
        27int
    } else if trace == (35nat, 'E', 'D') {
        28int
    } else if trace == (24nat, 'K', 'S') {
        29int
    } else if trace == (33nat, 'Y', 'C') {
        30int
    } else if trace == (39nat, 'G', 'N') {
        31int
    } else if trace == (41nat, 'E', 'T') {
        32int
    } else if trace == (39nat, 'Y', 'P') {
        33int
    } else if trace == (30nat, 'D', 'O') {
        34int
    } else if trace == (35nat, 'S', 'K') {
        35int
    } else if trace == (39nat, 'E', 'T') {
        36int
    } else if trace == (36nat, 'E', 'Z') {
        37int
    } else if trace == (28nat, 'E', 'Z') {
        38int
    } else if trace == (36nat, 'S', 'E') {
        39int
    } else if trace == (38nat, 'S', 'T') {
        40int
    } else if trace == (37nat, 'S', 'M') {
        41int
    } else if trace == (30nat, 'T', 'U') {
        42int
    } else if trace == (30nat, 'N', 'O') {
        43int
    } else if trace == (36nat, 'L', 'A') {
        44int
    } else if trace == (35nat, 'W', 'O') {
        45int
    } else if trace == (31nat, 'S', 'R') {
        46int
    } else if trace == (32nat, 'T', 'U') {
        47int
    } else if trace == (35nat, 'T', 'U') {
        48int
    } else if trace == (21nat, 'L', 'E') {
        49int
    } else if trace == (22nat, 'T', 'A') {
        50int
    } else if trace == (28nat, 'S', 'H') {
        51int
    } else if trace == (23nat, 'D', 'E') {
        52int
    } else if trace == (28nat, 'S', 'S') {
        53int
    } else if trace == (20nat, 'T', 'R') {
        54int
    } else if trace == (43nat, 'D', 'E') {
        55int
    } else if trace == (48nat, 'S', 'S') {
        56int
    } else {
        -1int
    }
}

/// The knob with this trace of an argument.
spec fn argument_place(trace: (nat, char, char)) -> int {
    if trace == (13nat, 'e', 'i') {
        0int
    } else if trace == (14nat, 's', 'a') {
        1int
    } else if trace == (6nat, 't', '-') {
        2int
    } else if trace == (17nat, 'l', 'a') {
        3int
    } else if trace == (13nat, 'd', 'e') {
        4int
    } else if trace == (15nat, 'h', 'r') {
        5int
    } else if trace == (14nat, 'h', 'e') {
        6int
    } else if trace == (14nat, 'd', 'e') {
        7int
    } else if trace == (21nat, 'n', '-') {
        8int
    } else if trace == (21nat, 'd', '-') {
        9int
    } else if trace == (29nat, 'r', '-') {
        10int
    } else if trace == (30nat, 'r', '-') {
        11int
    } else if trace == (14nat, 'e', 'm') {
        12int
    } else if trace == (24nat, 's', 'e') {
        13int
    } else if trace == (28nat, 'k', 'n') {
        14int
    } else if trace == (21nat, 'h', 'e') {
        15int
    } else if trace == (20nat, 'l', 'k') {
        16int
    } else if trace == (15nat, 'h', 'k') {
        17int
    } else if trace == (14nat, 'l', 'w') {
        18int
    } else if trace == (12nat, 'r', '-') {
        19int
    } else if trace == (20nat, 'r', '-') {
        20int
    } else if trace == (14nat, 'e', 'u') {
        21int
    } else if trace == (22nat, 'e', 'u') {
        22int
    } else if trace == (20nat, 'm', 'e') {
        23int
    } else if trace == (33nat, 'l', 'n') {
        24int
    } else if trace == (14nat, 't', 'e') {
        25int
    } else if trace == (11nat, 'y', 'a') {
        26int
    } else if trace == (19nat, 'e', 'l') {
        27int
    } else if trace == (18nat, 'e', 'i') {
        28int
    } else if trace == (7nat, 'k', '-') {
        29int
    } else if trace == (16nat, 'y', '-') {
        30int
    } else if trace == (22nat, 'g', 'r') {
        31int
    } else if trace == (24nat, 'e', '-') {
        32int
    } else if trace == (22nat, 'y', 'v') {
        33int
    } else if trace == (13nat, 'd', 'w') {
        34int
    } else if trace == (18nat, 's', 'd') {
        35int
    } else if trace == (22nat, 'e', '-') {
        36int
    } else if trace == (23nat, 'e', 'd') {
        37int
    } else if trace == (15nat, 'e', 'a') {
        38int
    } else if trace == (23nat, 's', 'e') {
        39int
    } else if trace == (25nat, 's', 'e') {
        40int
    } else if trace == (24nat, 's', 's') {
        41int
    } else if trace == (21nat, 't', 't') {
        42int
    } else if trace == (21nat, 'n', 'u') {
        43int
    } else if trace == (27nat, 'l', 'n') {
        44int
    } else if trace == (26nat, 'w', '-') {
        45int
    } else if trace == (25nat, 's', 'w') {
        46int
    } else if trace == (26nat, 't', 't') {
        47int
    } else if trace == (29nat, 't', 't') {
        48int
    } else if trace == (11nat, 'l', 'g') {
        49int
    } else if trace == (12nat, 't', '-') {
        50int
    } else if trace == (18nat, 's', 't') {
        51int
    } else if trace == (17nat, 'd', 'e') {
        52int
    } else if trace == (22nat, 's', 'a') {
        53int
    } else if trace == (14nat, 't', 'c') {
        54int
    } else if trace == (25nat, 'd', 'e') {
        55int
    } else if trace == (30nat, 's', 'a') {
        56int
    } else {
        -1int
    }
}

/// Every environment variable is made from the identifier of its knob.
pub proof fn law_variable_follows_identifier(i: int)
    requires
        0 <= i < headers().len(),
    ensures
        headers()[i].environment@ == variable_name(headers()[i].id@),
{
    assert(headers()[i].environment@ =~= variable_name(headers()[i].id@)) by {
        reveal_strlit("NETIXFS_");
        if i == 0 {
            reveal_strlit("config_file");
            reveal_strlit("NETIXFS_CONFIG_FILE");
        } else if i == 1 {
            reveal_strlit("server.bind_address");
            reveal_strlit("NETIXFS_SERVER_BIND_ADDRESS");
        } else if i == 2 {
            reveal_strlit("server.port");
            reveal_strlit("NETIXFS_SERVER_PORT");
        } else if i == 3 {
            reveal_strlit("server.public_base_url");
            reveal_strlit("NETIXFS_SERVER_PUBLIC_BASE_URL");
        } else if i == 4 {
            reveal_strlit("tls.enabled");
            reveal_strlit("NETIXFS_TLS_ENABLED");
        } else if i == 5 {
            reveal_strlit("tls.cert_path");
            reveal_strlit("NETIXFS_TLS_CERT_PATH");
        } else if i == 6 {
            reveal_strlit("tls.key_path");
            reveal_strlit("NETIXFS_TLS_KEY_PATH");
        } else if i == 7 {
            reveal_strlit("cors.enabled");
            reveal_strlit("NETIXFS_CORS_ENABLED");
        } else if i == 8 {
            reveal_strlit("cors.allowed_origins");
            reveal_strlit("NETIXFS_CORS_ALLOWED_ORIGINS");
        } else if i == 9 {
            reveal_strlit("cors.allowed_methods");
            reveal_strlit("NETIXFS_CORS_ALLOWED_METHODS");
        } else if i == 10 {
            reveal_strlit("cors.allowed_request_headers");
            reveal_strlit("NETIXFS_CORS_ALLOWED_REQUEST_HEADERS");
        } else if i == 11 {
            reveal_strlit("cors.exposed_response_headers");
            reveal_strlit("NETIXFS_CORS_EXPOSED_RESPONSE_HEADERS");
        } else if i == 12 {
            reveal_strlit("cors.max_age");
            reveal_strlit("NETIXFS_CORS_MAX_AGE");
        } else if i == 13 {
            reveal_strlit("cors.allow_credentials");
            reveal_strlit("NETIXFS_CORS_ALLOW_CREDENTIALS");
        } else if i == 14 {
            reveal_strlit("cors.allow_private_network");
            reveal_strlit("NETIXFS_CORS_ALLOW_PRIVATE_NETWORK");
        } else if i == 15 {
            reveal_strlit("auth.jwt.public_key_path");
            reveal_strlit("NETIXFS_AUTH_JWT_PUBLIC_KEY_PATH");
        } else if i == 16 {
            reveal_strlit("auth.jwt.public_key_url");
            reveal_strlit("NETIXFS_AUTH_JWT_PUBLIC_KEY_URL");
        } else if i == 17 {
            reveal_strlit("auth.jwt.jwks_path");
            reveal_strlit("NETIXFS_AUTH_JWT_JWKS_PATH");
        } else if i == 18 {
            reveal_strlit("auth.jwt.jwks_url");
            reveal_strlit("NETIXFS_AUTH_JWT_JWKS_URL");
        } else if i == 19 {
            reveal_strlit("auth.jwt.issuer");
            reveal_strlit("NETIXFS_AUTH_JWT_ISSUER");
        } else if i == 20 {
            reveal_strlit("auth.jwt.require_issuer");
            reveal_strlit("NETIXFS_AUTH_JWT_REQUIRE_ISSUER");
        } else if i == 21 {
            reveal_strlit("auth.jwt.audience");
            reveal_strlit("NETIXFS_AUTH_JWT_AUDIENCE");
        } else if i == 22 {
            reveal_strlit("auth.jwt.require_audience");
            reveal_strlit("NETIXFS_AUTH_JWT_REQUIRE_AUDIENCE");
        } else if i == 23 {
            reveal_strlit("auth.jwt.username_claim");
            reveal_strlit("NETIXFS_AUTH_JWT_USERNAME_CLAIM");
        } else if i == 24 {
            reveal_strlit("auth.jwt.remote_key_refresh_interval");
            reveal_strlit("NETIXFS_AUTH_JWT_REMOTE_KEY_REFRESH_INTERVAL");
        } else if i == 25 {
            reveal_strlit("filesystem.allowed_roots");
            reveal_strlit("NETIXFS_FILESYSTEM_ALLOWED_ROOTS");
        } else if i == 26 {
            reveal_strlit("filesystem.read_only");
            reveal_strlit("NETIXFS_FILESYSTEM_READ_ONLY");
        } else if i == 27 {
            reveal_strlit("filesystem.default_file_mode");
            reveal_strlit("NETIXFS_FILESYSTEM_DEFAULT_FILE_MODE");
        } else if i == 28 {
            reveal_strlit("filesystem.default_dir_mode");
            reveal_strlit("NETIXFS_FILESYSTEM_DEFAULT_DIR_MODE");
        } else if i == 29 {
            reveal_strlit("filesystem.umask");
            reveal_strlit("NETIXFS_FILESYSTEM_UMASK");
        } else if i == 30 {
            reveal_strlit("filesystem.symlink_policy");
            reveal_strlit("NETIXFS_FILESYSTEM_SYMLINK_POLICY");
        } else if i == 31 {
            reveal_strlit("filesystem.allow_mount_crossing");
            reveal_strlit("NETIXFS_FILESYSTEM_ALLOW_MOUNT_CROSSING");
        } else if i == 32 {
            reveal_strlit("operations.allow_recursive_delete");
            reveal_strlit("NETIXFS_OPERATIONS_ALLOW_RECURSIVE_DELETE");
        } else if i == 33 {
            reveal_strlit("operations.allow_recursive_copy");
            reveal_strlit("NETIXFS_OPERATIONS_ALLOW_RECURSIVE_COPY");
        } else if i == 34 {
            reveal_strlit("operations.allow_chmod");
            reveal_strlit("NETIXFS_OPERATIONS_ALLOW_CHMOD");
        } else if i == 35 {
            reveal_strlit("operations.allow_hard_links");
            reveal_strlit("NETIXFS_OPERATIONS_ALLOW_HARD_LINKS");
        } else if i == 36 {
            reveal_strlit("operations.allow_symlink_create");
            reveal_strlit("NETIXFS_OPERATIONS_ALLOW_SYMLINK_CREATE");
        } else if i == 37 {
            reveal_strlit("limits.max_request_body_size");
            reveal_strlit("NETIXFS_LIMITS_MAX_REQUEST_BODY_SIZE");
        } else if i == 38 {
            reveal_strlit("limits.max_read_size");
            reveal_strlit("NETIXFS_LIMITS_MAX_READ_SIZE");
        } else if i == 39 {
            reveal_strlit("limits.max_directory_entries");
            reveal_strlit("NETIXFS_LIMITS_MAX_DIRECTORY_ENTRIES");
        } else if i == 40 {
            reveal_strlit("limits.max_concurrent_requests");
            reveal_strlit("NETIXFS_LIMITS_MAX_CONCURRENT_REQUESTS");
        } else if i == 41 {
            reveal_strlit("limits.max_concurrent_streams");
            reveal_strlit("NETIXFS_LIMITS_MAX_CONCURRENT_STREAMS");
        } else if i == 42 {
            reveal_strlit("streaming.idle_timeout");
            reveal_strlit("NETIXFS_STREAMING_IDLE_TIMEOUT");
        } else if i == 43 {
            reveal_strlit("streaming.max_duration");
            reveal_strlit("NETIXFS_STREAMING_MAX_DURATION");
        } else if i == 44 {
            reveal_strlit("streaming.heartbeat_interval");
            reveal_strlit("NETIXFS_STREAMING_HEARTBEAT_INTERVAL");
        } else if i == 45 {
            reveal_strlit("streaming.allow_path_follow");
            reveal_strlit("NETIXFS_STREAMING_ALLOW_PATH_FOLLOW");
        } else if i == 46 {
            reveal_strlit("worker_pool.max_workers");
            reveal_strlit("NETIXFS_WORKER_POOL_MAX_WORKERS");
        } else if i == 47 {
            reveal_strlit("worker_pool.idle_timeout");
            reveal_strlit("NETIXFS_WORKER_POOL_IDLE_TIMEOUT");
        } else if i == 48 {
            reveal_strlit("worker_pool.request_timeout");
            reveal_strlit("NETIXFS_WORKER_POOL_REQUEST_TIMEOUT");
        } else if i == 49 {
            reveal_strlit("logging.level");
            reveal_strlit("NETIXFS_LOGGING_LEVEL");
        } else if i == 50 {
            reveal_strlit("logging.format");
            reveal_strlit("NETIXFS_LOGGING_FORMAT");
        } else if i == 51 {
            reveal_strlit("logging.redact_paths");
            reveal_strlit("NETIXFS_LOGGING_REDACT_PATHS");
        } else if i == 52 {
            reveal_strlit("metrics.enabled");
            reveal_strlit("NETIXFS_METRICS_ENABLED");
        } else if i == 53 {
            reveal_strlit("metrics.bind_address");
            reveal_strlit("NETIXFS_METRICS_BIND_ADDRESS");
        } else if i == 54 {
            reveal_strlit("metrics.port");
            reveal_strlit("NETIXFS_METRICS_PORT");
        } else if i == 55 {
            reveal_strlit("diagnostics.config_endpoint.enabled");
            reveal_strlit("NETIXFS_DIAGNOSTICS_CONFIG_ENDPOINT_ENABLED");
        } else if i == 56 {
            reveal_strlit("diagnostics.config_endpoint.bind_address");
            reveal_strlit("NETIXFS_DIAGNOSTICS_CONFIG_ENDPOINT_BIND_ADDRESS");
        }
    }
}

/// Every knob but the first has its identifier as its key in the configuration file; the first
/// names the file itself.
pub proof fn law_key_is_identifier(i: int)
    requires
        0 <= i < headers().len(),
    ensures
        headers()[i].toml == (if i == 0 {
            None
        } else {
            Some(headers()[i].id)
        }),
{
}

proof fn lemma_places(i: int)
    requires
        0 <= i < headers().len(),
    ensures
        variable_place(trace(headers()[i].environment@, 2)) == i,
        argument_place(trace(headers()[i].argument@, 7)) == i,
        flag(headers()[i].argument@),
{
    assert(variable_place(trace(headers()[i].environment@, 2)) == i && argument_place(
        trace(headers()[i].argument@, 7),
    ) == i && flag(headers()[i].argument@)) by {
        if i == 0 {
            reveal_strlit("NETIXFS_CONFIG_FILE");
            reveal_strlit("--config-file");
        } else if i == 1 {
            reveal_strlit("NETIXFS_SERVER_BIND_ADDRESS");
            reveal_strlit("--bind-address");
        } else if i == 2 {
            reveal_strlit("NETIXFS_SERVER_PORT");
            reveal_strlit("--port");
        } else if i == 3 {
            reveal_strlit("NETIXFS_SERVER_PUBLIC_BASE_URL");
            reveal_strlit("--public-base-url");
        } else if i == 4 {
            reveal_strlit("NETIXFS_TLS_ENABLED");
            reveal_strlit("--tls-enabled");
        } else if i == 5 {
            reveal_strlit("NETIXFS_TLS_CERT_PATH");
            reveal_strlit("--tls-cert-path");
        } else if i == 6 {
            reveal_strlit("NETIXFS_TLS_KEY_PATH");
            reveal_strlit("--tls-key-path");
        } else if i == 7 {
            reveal_strlit("NETIXFS_CORS_ENABLED");
            reveal_strlit("--cors-enabled");
        } else if i == 8 {
            reveal_strlit("NETIXFS_CORS_ALLOWED_ORIGINS");
            reveal_strlit("--cors-allowed-origin");
        } else if i == 9 {
            reveal_strlit("NETIXFS_CORS_ALLOWED_METHODS");
            reveal_strlit("--cors-allowed-method");
        } else if i == 10 {
            reveal_strlit("NETIXFS_CORS_ALLOWED_REQUEST_HEADERS");
            reveal_strlit("--cors-allowed-request-header");
        } else if i == 11 {
            reveal_strlit("NETIXFS_CORS_EXPOSED_RESPONSE_HEADERS");
            reveal_strlit("--cors-exposed-response-header");
        } else if i == 12 {
            reveal_strlit("NETIXFS_CORS_MAX_AGE");
            reveal_strlit("--cors-max-age");
        } else if i == 13 {
            reveal_strlit("NETIXFS_CORS_ALLOW_CREDENTIALS");
            reveal_strlit("--cors-allow-credentials");
        } else if i == 14 {
            reveal_strlit("NETIXFS_CORS_ALLOW_PRIVATE_NETWORK");
            reveal_strlit("--cors-allow-private-network");
        } else if i == 15 {
            reveal_strlit("NETIXFS_AUTH_JWT_PUBLIC_KEY_PATH");
            reveal_strlit("--jwt-public-key-path");
        } else if i == 16 {
            reveal_strlit("NETIXFS_AUTH_JWT_PUBLIC_KEY_URL");
            reveal_strlit("--jwt-public-key-url");
        } else if i == 17 {
            reveal_strlit("NETIXFS_AUTH_JWT_JWKS_PATH");
            reveal_strlit("--jwt-jwks-path");
        } else if i == 18 {
            reveal_strlit("NETIXFS_AUTH_JWT_JWKS_URL");
            reveal_strlit("--jwt-jwks-url");
        } else if i == 19 {
            reveal_strlit("NETIXFS_AUTH_JWT_ISSUER");
            reveal_strlit("--jwt-issuer");
        } else if i == 20 {
            reveal_strlit("NETIXFS_AUTH_JWT_REQUIRE_ISSUER");
            reveal_strlit("--jwt-require-issuer");
        } else if i == 21 {
            reveal_strlit("NETIXFS_AUTH_JWT_AUDIENCE");
            reveal_strlit("--jwt-audience");
        } else if i == 22 {
            reveal_strlit("NETIXFS_AUTH_JWT_REQUIRE_AUDIENCE");
            reveal_strlit("--jwt-require-audience");
        } else if i == 23 {
            reveal_strlit("NETIXFS_AUTH_JWT_USERNAME_CLAIM");
            reveal_strlit("--jwt-username-claim");
        } else if i == 24 {
            reveal_strlit("NETIXFS_AUTH_JWT_REMOTE_KEY_REFRESH_INTERVAL");
            reveal_strlit("--jwt-remote-key-refresh-interval");
        } else if i == 25 {
            reveal_strlit("NETIXFS_FILESYSTEM_ALLOWED_ROOTS");
            reveal_strlit("--allowed-root");
        } else if i == 26 {
            reveal_strlit("NETIXFS_FILESYSTEM_READ_ONLY");
            reveal_strlit("--read-only");
        } else if i == 27 {
            reveal_strlit("NETIXFS_FILESYSTEM_DEFAULT_FILE_MODE");
            reveal_strlit("--default-file-mode");
        } else if i == 28 {
            reveal_strlit("NETIXFS_FILESYSTEM_DEFAULT_DIR_MODE");
            reveal_strlit("--default-dir-mode");
        } else if i == 29 {
            reveal_strlit("NETIXFS_FILESYSTEM_UMASK");
            reveal_strlit("--umask");
        } else if i == 30 {
            reveal_strlit("NETIXFS_FILESYSTEM_SYMLINK_POLICY");
            reveal_strlit("--symlink-policy");
        } else if i == 31 {
            reveal_strlit("NETIXFS_FILESYSTEM_ALLOW_MOUNT_CROSSING");
            reveal_strlit("--allow-mount-crossing");
        } else if i == 32 {
            reveal_strlit("NETIXFS_OPERATIONS_ALLOW_RECURSIVE_DELETE");
            reveal_strlit("--allow-recursive-delete");
        } else if i == 33 {
            reveal_strlit("NETIXFS_OPERATIONS_ALLOW_RECURSIVE_COPY");
            reveal_strlit("--allow-recursive-copy");
        } else if i == 34 {
            reveal_strlit("NETIXFS_OPERATIONS_ALLOW_CHMOD");
            reveal_strlit("--allow-chmod");
        } else if i == 35 {
            reveal_strlit("NETIXFS_OPERATIONS_ALLOW_HARD_LINKS");
            reveal_strlit("--allow-hard-links");
        } else if i == 36 {
            reveal_strlit("NETIXFS_OPERATIONS_ALLOW_SYMLINK_CREATE");
            reveal_strlit("--allow-symlink-create");
        } else if i == 37 {
            reveal_strlit("NETIXFS_LIMITS_MAX_REQUEST_BODY_SIZE");
            reveal_strlit("--max-request-body-size");
        } else if i == 38 {
            reveal_strlit("NETIXFS_LIMITS_MAX_READ_SIZE");
            reveal_strlit("--max-read-size");
        } else if i == 39 {
            reveal_strlit("NETIXFS_LIMITS_MAX_DIRECTORY_ENTRIES");
            reveal_strlit("--max-directory-entries");
        } else if i == 40 {
            reveal_strlit("NETIXFS_LIMITS_MAX_CONCURRENT_REQUESTS");
            reveal_strlit("--max-concurrent-requests");
        } else if i == 41 {
            reveal_strlit("NETIXFS_LIMITS_MAX_CONCURRENT_STREAMS");
            reveal_strlit("--max-concurrent-streams");
        } else if i == 42 {
            reveal_strlit("NETIXFS_STREAMING_IDLE_TIMEOUT");
            reveal_strlit("--stream-idle-timeout");
        } else if i == 43 {
            reveal_strlit("NETIXFS_STREAMING_MAX_DURATION");
            reveal_strlit("--stream-max-duration");
        } else if i == 44 {
            reveal_strlit("NETIXFS_STREAMING_HEARTBEAT_INTERVAL");
            reveal_strlit("--stream-heartbeat-interval");
        } else if i == 45 {
            reveal_strlit("NETIXFS_STREAMING_ALLOW_PATH_FOLLOW");
            reveal_strlit("--stream-allow-path-follow");
        } else if i == 46 {
            reveal_strlit("NETIXFS_WORKER_POOL_MAX_WORKERS");
            reveal_strlit("--worker-pool-max-workers");
        } else if i == 47 {
            reveal_strlit("NETIXFS_WORKER_POOL_IDLE_TIMEOUT");
            reveal_strlit("--worker-pool-idle-timeout");
        } else if i == 48 {
            reveal_strlit("NETIXFS_WORKER_POOL_REQUEST_TIMEOUT");
            reveal_strlit("--worker-pool-request-timeout");
        } else if i == 49 {
            reveal_strlit("NETIXFS_LOGGING_LEVEL");
            reveal_strlit("--log-level");
        } else if i == 50 {
            reveal_strlit("NETIXFS_LOGGING_FORMAT");
            reveal_strlit("--log-format");
        } else if i == 51 {
            reveal_strlit("NETIXFS_LOGGING_REDACT_PATHS");
            reveal_strlit("--log-redact-paths");
        } else if i == 52 {
            reveal_strlit("NETIXFS_METRICS_ENABLED");
            reveal_strlit("--metrics-enabled");
        } else if i == 53 {
            reveal_strlit("NETIXFS_METRICS_BIND_ADDRESS");
            reveal_strlit("--metrics-bind-address");
        } else if i == 54 {
            reveal_strlit("NETIXFS_METRICS_PORT");
            reveal_strlit("--metrics-port");
        } else if i == 55 {
            reveal_strlit("NETIXFS_DIAGNOSTICS_CONFIG_ENDPOINT_ENABLED");
            reveal_strlit("--config-endpoint-enabled");
        } else if i == 56 {
            reveal_strlit("NETIXFS_DIAGNOSTICS_CONFIG_ENDPOINT_BIND_ADDRESS");
            reveal_strlit("--config-endpoint-bind-address");
        }
    }
}

/// Whether a text is two dashes and a name.
spec fn flag(text: Seq<char>) -> bool {
    text.len() > 2 && text[0] == '-' && text[1] == '-' && text[2] != '-'
}

proof fn lemma_flag(text: Seq<char>)
    requires
        flag(text),
    ensures
        text == seq!['-', '-'] + without_leading_dashes(text),
{
    reveal_with_fuel(without_leading_dashes, 3);
    assert(text.drop_first().drop_first() =~= text.skip(2));
    assert(text =~= seq!['-', '-'] + text.skip(2));
}

/// Every argument is two dashes and its name.
pub proof fn lemma_dashes(i: int)
    requires
        0 <= i < headers().len(),
    ensures
        headers()[i].argument@ == seq!['-', '-'] + without_leading_dashes(headers()[i].argument@),
{
    lemma_places(i);
    lemma_flag(headers()[i].argument@);
}

/// No two knobs share an identifier, an argument, its name without the dashes, or an environment
/// variable.
pub proof fn law_names_are_unique(i: int, j: int)
    requires
        0 <= i < headers().len(),
        0 <= j < headers().len(),
        i != j,
    ensures
        headers()[i].id@ != headers()[j].id@,
        headers()[i].argument@ != headers()[j].argument@,
        without_leading_dashes(headers()[i].argument@) != without_leading_dashes(
            headers()[j].argument@,
        ),
        headers()[i].environment@ != headers()[j].environment@,
{
    lemma_places(i);
    lemma_places(j);
    law_variable_follows_identifier(i);
    law_variable_follows_identifier(j);
    lemma_flag(headers()[i].argument@);
    lemma_flag(headers()[j].argument@);
}

} // verus!
